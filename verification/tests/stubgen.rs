use stubgen::class::{ClassDef, PyClassInfo};
use stubgen::function::{FunctionDef, PyFunctionInfo};
use stubgen::gather::{gather, PyMethodsInfo};
use stubgen::method::{MethodDef, MethodInfo};
use stubgen::module::{assemble, render_module, Definition, ModuleEntry};
use stubgen::new::{NewDef, NewInfo};
use stubgen::type_info::{Arg, MemberDef, MemberInfo, ModuleRef, TypeInfo};

fn ty(text: &str) -> TypeInfo {
    TypeInfo { text: text.to_string(), imports: Vec::new() }
}

fn ty_with(text: &str, imports: Vec<ModuleRef>) -> TypeInfo {
    TypeInfo { text: text.to_string(), imports }
}

fn mref(module: &str, symbol: &str) -> ModuleRef {
    ModuleRef { module: module.to_string(), symbol: symbol.to_string() }
}

fn arg(name: &str, text: &str) -> Arg {
    Arg { name: name.to_string(), ty: ty(text), default: None }
}

fn method(name: &str, args: Vec<Arg>, is_static: bool, is_class: bool, doc: &str) -> MethodDef {
    MethodDef {
        name: name.to_string(),
        args,
        signature: None,
        ret: ty("int"),
        doc: doc.to_string(),
        is_static,
        is_class,
    }
}

fn empty_class(name: &str) -> ClassDef {
    ClassDef {
        name: name.to_string(),
        doc: String::new(),
        new: None,
        members: Vec::new(),
        methods: Vec::new(),
    }
}

#[test]
fn empty_class_renders_placeholder_body() {
    let c = empty_class("Point");
    assert_eq!(c.render(), "class Point:\n    ...\n\n");
}

#[test]
fn class_with_blank_doc_still_elides_body() {
    let mut c = empty_class("Point");
    c.doc = "  \n\t ".to_string();
    assert_eq!(c.render(), "class Point:\n    ...\n\n");
}

#[test]
fn class_docstring_is_trimmed_and_framed() {
    let mut c = empty_class("C");
    c.doc = "  Hello\nWorld  ".to_string();
    assert_eq!(
        c.render(),
        "class C:\n    r\"\"\"\n    Hello\n    World\n    \"\"\"\n\n    ...\n\n"
    );
}

#[test]
fn class_docstring_keeps_blank_lines_bare() {
    let mut c = empty_class("C");
    c.doc = "A\n\nB".to_string();
    assert_eq!(
        c.render(),
        "class C:\n    r\"\"\"\n    A\n\n    B\n    \"\"\"\n\n    ...\n\n"
    );
}

#[test]
fn class_members_render_indented() {
    let mut c = empty_class("C");
    c.members.push(MemberDef { name: "x".to_string(), ty: ty("int") });
    c.members.push(MemberDef { name: "y".to_string(), ty: ty("str") });
    assert_eq!(c.render(), "class C:\n    x: int\n    y: str\n\n");
}

#[test]
fn class_with_only_constructor_still_gets_placeholder() {
    let mut c = empty_class("C");
    c.new = Some(NewDef { args: Vec::new(), signature: None });
    assert_eq!(c.render(), "class C:\n    def __new__(\n        cls,\n    ): ...\n    ...\n\n");
}

#[test]
fn static_argless_method_renders_one_line() {
    let m = method("zero", Vec::new(), true, false, "");
    assert_eq!(m.render(), "    @staticmethod\n    def zero() -> int: ...\n");
}

#[test]
fn instance_method_gets_self_receiver() {
    let m = method("norm", Vec::new(), false, false, "");
    assert_eq!(m.render(), "    def norm(\n        self,\n    ) -> int: ...\n");
}

#[test]
fn class_method_gets_decorator_and_cls_receiver() {
    let m = method("make", vec![arg("x", "int")], false, true, "");
    assert_eq!(
        m.render(),
        "    @classmethod\n    def make(\n        cls,\n        x: int,\n    ) -> int: ...\n"
    );
}

#[test]
fn method_doc_renders_double_indented_block() {
    let m = method("norm", Vec::new(), false, false, "Length.\n\nAlways nonnegative.");
    assert_eq!(
        m.render(),
        "    def norm(\n        self,\n    ) -> int:\n        r\"\"\"\n        Length.\n\n        Always nonnegative.\n        \"\"\"\n        ...\n"
    );
}

#[test]
fn method_signature_override_is_verbatim() {
    let mut m = method("step", vec![arg("x", "int"), arg("y", "int")], false, false, "");
    m.signature = Some("x: int, y: int = 1".to_string());
    assert_eq!(
        m.render(),
        "    def step(\n        self,\n        x: int, y: int = 1\n    ) -> int: ...\n"
    );
}

#[test]
fn function_without_args_renders_one_line() {
    let f = FunctionDef {
        name: "answer".to_string(),
        args: Vec::new(),
        ret: ty("int"),
        signature: None,
        doc: String::new(),
    };
    assert_eq!(f.render(), "def answer() -> int: ...\n");
}

#[test]
fn documented_function_with_multiline_doc() {
    let f = FunctionDef {
        name: "add".to_string(),
        args: vec![arg("x", "int"), arg("y", "int")],
        ret: ty("int"),
        signature: None,
        doc: "Adds two numbers.\n\nReturns the sum.".to_string(),
    };
    assert_eq!(
        f.render(),
        "def add(\n    x: int,\n    y: int,\n) -> int:\n    r\"\"\"\n    Adds two numbers.\n    \n    Returns the sum.\n    \"\"\"\n    ...\n\n"
    );
}

#[test]
fn function_signature_override_replaces_arg_lines() {
    let f = FunctionDef {
        name: "scale".to_string(),
        args: vec![arg("x", "int"), arg("y", "int")],
        ret: ty("int"),
        signature: Some("x: int, y: int = 1".to_string()),
        doc: String::new(),
    };
    assert_eq!(f.render(), "def scale(\n    x: int, y: int = 1\n) -> int: ...\n");
}

#[test]
fn argument_default_is_rendered() {
    let f = FunctionDef {
        name: "pad".to_string(),
        args: vec![Arg { name: "n".to_string(), ty: ty("int"), default: Some("0".to_string()) }],
        ret: ty("str"),
        signature: None,
        doc: String::new(),
    };
    assert_eq!(f.render(), "def pad(\n    n: int = 0,\n) -> str: ...\n");
}

#[test]
fn constructor_override_newlines_become_spaces() {
    let n = NewDef {
        args: Vec::new(),
        signature: Some("x: int,\ny: int".to_string()),
    };
    assert_eq!(n.render(), "    def __new__(\n        cls,\n        x: int, y: int\n    ): ...\n");
}

#[test]
fn constructor_renders_args_under_cls() {
    let n = NewDef { args: vec![arg("x", "int")], signature: None };
    assert_eq!(n.render(), "    def __new__(\n        cls,\n        x: int,\n    ): ...\n");
}

#[test]
fn from_info_maps_class_fields_and_leaves_rest_empty() {
    let info = PyClassInfo {
        name: "Point".to_string(),
        doc: "A point.".to_string(),
        members: vec![MemberInfo { name: "x".to_string(), ty: ty("int") }],
    };
    let c = ClassDef::from_info(&info);
    assert_eq!(c.name, "Point");
    assert_eq!(c.doc, "A point.");
    assert_eq!(c.members.len(), 1);
    assert_eq!(c.members[0].name, "x");
    assert!(c.new.is_none());
    assert!(c.methods.is_empty());
}

#[test]
fn from_info_maps_function_fields() {
    let info = PyFunctionInfo {
        name: "add".to_string(),
        args: vec![arg("x", "int")],
        ret: ty("int"),
        signature: None,
        doc: "Doc.".to_string(),
    };
    let f = FunctionDef::from_info(&info);
    assert_eq!(f.name, "add");
    assert_eq!(f.args.len(), 1);
    assert_eq!(f.ret.text, "int");
    assert_eq!(f.doc, "Doc.");
}

#[test]
fn import_deduplicates_in_first_seen_order() {
    let a = mref("mod_a", "A");
    let b = mref("mod_b", "B");
    let f = FunctionDef {
        name: "f".to_string(),
        args: vec![Arg {
            name: "x".to_string(),
            ty: ty_with("B", vec![b.clone(), a.clone()]),
            default: None,
        }],
        ret: ty_with("A", vec![a.clone()]),
        signature: None,
        doc: String::new(),
    };
    assert_eq!(f.import(), vec![a, b]);
}

#[test]
fn class_import_unions_constructor_members_and_methods() {
    let a = mref("mod_a", "A");
    let b = mref("mod_b", "B");
    let c = mref("mod_c", "C");
    let class = ClassDef {
        name: "K".to_string(),
        doc: String::new(),
        new: Some(NewDef {
            args: vec![Arg {
                name: "x".to_string(),
                ty: ty_with("A", vec![a.clone()]),
                default: None,
            }],
            signature: None,
        }),
        members: vec![MemberDef { name: "m".to_string(), ty: ty_with("B", vec![b.clone()]) }],
        methods: vec![MethodDef {
            name: "g".to_string(),
            args: Vec::new(),
            signature: None,
            ret: ty_with("C", vec![c.clone(), a.clone()]),
            doc: String::new(),
            is_static: false,
            is_class: false,
        }],
    };
    assert_eq!(class.import(), vec![a, b, c]);
}

#[test]
fn gather_merges_contributions_per_class_name() {
    let classes = vec![PyClassInfo {
        name: "Point".to_string(),
        doc: "A point.".to_string(),
        members: vec![MemberInfo { name: "x".to_string(), ty: ty("int") }],
    }];
    let minfos = vec![
        PyMethodsInfo {
            class_name: "Point".to_string(),
            methods: vec![MethodInfo {
                name: "norm".to_string(),
                args: Vec::new(),
                signature: None,
                ret: ty("int"),
                doc: String::new(),
                is_static: false,
                is_class: false,
            }],
            new: Some(NewInfo { args: vec![arg("x", "int")], signature: None }),
        },
        PyMethodsInfo {
            class_name: "Point".to_string(),
            methods: vec![MethodInfo {
                name: "scale".to_string(),
                args: vec![arg("k", "int")],
                signature: None,
                ret: ty("int"),
                doc: String::new(),
                is_static: false,
                is_class: false,
            }],
            new: Some(NewInfo { args: Vec::new(), signature: None }),
        },
        PyMethodsInfo {
            class_name: "Grid".to_string(),
            methods: vec![MethodInfo {
                name: "rows".to_string(),
                args: Vec::new(),
                signature: None,
                ret: ty("int"),
                doc: String::new(),
                is_static: false,
                is_class: false,
            }],
            new: None,
        },
    ];
    let merged = gather(&classes, &minfos);
    assert_eq!(merged.len(), 2);
    let point = &merged[0];
    assert_eq!(point.name, "Point");
    assert_eq!(point.doc, "A point.");
    assert_eq!(point.members.len(), 1);
    assert_eq!(point.methods.len(), 2);
    assert_eq!(point.methods[0].name, "norm");
    assert_eq!(point.methods[1].name, "scale");
    // the first contributed constructor wins
    assert_eq!(point.new.as_ref().unwrap().args.len(), 1);
    let grid = &merged[1];
    assert_eq!(grid.name, "Grid");
    assert_eq!(grid.doc, "");
    assert!(grid.members.is_empty());
    assert_eq!(grid.methods.len(), 1);
    assert!(grid.new.is_none());
}

#[test]
fn gather_keeps_duplicate_methods_in_contribution_order() {
    let classes = vec![PyClassInfo {
        name: "C".to_string(),
        doc: String::new(),
        members: Vec::new(),
    }];
    let m = MethodInfo {
        name: "f".to_string(),
        args: Vec::new(),
        signature: None,
        ret: ty("int"),
        doc: String::new(),
        is_static: false,
        is_class: false,
    };
    let minfos = vec![
        PyMethodsInfo { class_name: "C".to_string(), methods: vec![m.clone()], new: None },
        PyMethodsInfo { class_name: "C".to_string(), methods: vec![m.clone()], new: None },
    ];
    let merged = gather(&classes, &minfos);
    assert_eq!(merged.len(), 1);
    assert_eq!(merged[0].methods.len(), 2);
}

#[test]
fn assembled_document_is_imports_blank_line_then_definitions() {
    let a = mref("mod_a", "A");
    let point = empty_class("Point");
    let f = FunctionDef {
        name: "origin".to_string(),
        args: Vec::new(),
        ret: ty_with("A", vec![a.clone()]),
        signature: None,
        doc: String::new(),
    };
    let entries = vec![
        ModuleEntry { module: "pkg".to_string(), def: Definition::Class(point.clone()) },
        ModuleEntry { module: "pkg".to_string(), def: Definition::Function(f.clone()) },
    ];
    let docs = assemble(&entries);
    assert_eq!(docs.len(), 1);
    assert_eq!(docs[0].module, "pkg");
    let expected = format!("from mod_a import A\n\n{}{}", point.render(), f.render());
    assert_eq!(docs[0].text, expected);
}

#[test]
fn assemble_groups_by_module_in_first_seen_order() {
    let f = FunctionDef {
        name: "f".to_string(),
        args: Vec::new(),
        ret: ty("int"),
        signature: None,
        doc: String::new(),
    };
    let entries = vec![
        ModuleEntry { module: "b".to_string(), def: Definition::Function(f.clone()) },
        ModuleEntry { module: "a".to_string(), def: Definition::Function(f.clone()) },
        ModuleEntry { module: "b".to_string(), def: Definition::Function(f.clone()) },
    ];
    let docs = assemble(&entries);
    assert_eq!(docs.len(), 2);
    assert_eq!(docs[0].module, "b");
    assert_eq!(docs[1].module, "a");
    assert_eq!(docs[0].text, format!("\n{}{}", f.render(), f.render()));
    assert_eq!(docs[1].text, format!("\n{}", f.render()));
}

#[test]
fn document_imports_are_deduplicated_across_definitions() {
    let a = mref("mod_a", "A");
    let f = FunctionDef {
        name: "f".to_string(),
        args: Vec::new(),
        ret: ty_with("A", vec![a.clone()]),
        signature: None,
        doc: String::new(),
    };
    let g = FunctionDef {
        name: "g".to_string(),
        args: Vec::new(),
        ret: ty_with("A", vec![a.clone()]),
        signature: None,
        doc: String::new(),
    };
    let entries = vec![
        ModuleEntry { module: "pkg".to_string(), def: Definition::Function(f.clone()) },
        ModuleEntry { module: "pkg".to_string(), def: Definition::Function(g.clone()) },
    ];
    let text = render_module(&entries, &"pkg".to_string());
    assert_eq!(text, format!("from mod_a import A\n\n{}{}", f.render(), g.render()));
}

#[test]
fn rendering_twice_is_byte_identical() {
    let point = PyClassInfo {
        name: "Point".to_string(),
        doc: "A point.".to_string(),
        members: vec![MemberInfo { name: "x".to_string(), ty: ty("int") }],
    };
    let minfo = PyMethodsInfo {
        class_name: "Point".to_string(),
        methods: vec![MethodInfo {
            name: "norm".to_string(),
            args: Vec::new(),
            signature: None,
            ret: ty("int"),
            doc: "Length.".to_string(),
            is_static: false,
            is_class: false,
        }],
        new: Some(NewInfo { args: vec![arg("x", "int")], signature: None }),
    };
    let run = || {
        let merged = gather(&vec![point.clone()], &vec![minfo.clone()]);
        let entries: Vec<ModuleEntry> = merged
            .into_iter()
            .map(|c| ModuleEntry { module: "pkg".to_string(), def: Definition::Class(c) })
            .collect();
        assemble(&entries)
    };
    let first = run();
    let second = run();
    assert_eq!(first, second);
}
