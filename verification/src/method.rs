//! Definition of a class method.
//!
//! A method carries two kind flags: at most one of `is_static` / `is_class`
//! is expected to be set by the metadata source.  A static method gets a
//! `@staticmethod` decorator line and no synthesized receiver; a class
//! method gets `@classmethod` and a synthesized class-bound receiver; an
//! instance method gets a synthesized instance receiver.  The static,
//! argument-less case renders its whole signature on one line.

use crate::dedup::{extend_unique, lemma_extend_unique_concat, unique};
use crate::text::{append_doc_lines, double_indent, indent_unit, spec_doc_lines, spec_indent,
    spec_lines, split_lines};
use crate::type_info::{
    append_args_lines, args_imports, args_view, collect_args_imports, dup_args, dup_opt_text,
    extend_refs, opt_text_view, refs_view, spec_args_lines, Arg, ArgV, ModuleRef, ModuleRefV,
    TypeInfo, TypeInfoV,
};
use vstd::prelude::*;
use vstd::string::StringExecFns;

verus! {

/// Mathematical content of a [`MethodDef`].
pub struct MethodDefV {
    pub name: Seq<char>,
    pub args: Seq<ArgV>,
    pub signature: Option<Seq<char>>,
    pub ret: TypeInfoV,
    pub doc: Seq<char>,
    pub is_static: bool,
    pub is_class: bool,
}

/// Definition of a class method.
#[derive(Debug, Clone, PartialEq, Eq)]
pub struct MethodDef {
    pub name: String,
    pub args: Vec<Arg>,
    pub signature: Option<String>,
    pub ret: TypeInfo,
    pub doc: String,
    pub is_static: bool,
    pub is_class: bool,
}

impl View for MethodDef {
    type V = MethodDefV;

    open spec fn view(&self) -> MethodDefV {
        MethodDefV {
            name: self.name@,
            args: args_view(self.args@),
            signature: opt_text_view(self.signature),
            ret: self.ret@,
            doc: self.doc@,
            is_static: self.is_static,
            is_class: self.is_class,
        }
    }
}

/// Raw fragment describing a method, with its return type already
/// evaluated.
#[derive(Debug, Clone, PartialEq, Eq)]
pub struct MethodInfo {
    pub name: String,
    pub args: Vec<Arg>,
    pub signature: Option<String>,
    pub ret: TypeInfo,
    pub doc: String,
    pub is_static: bool,
    pub is_class: bool,
}

impl View for MethodInfo {
    type V = MethodDefV;

    open spec fn view(&self) -> MethodDefV {
        MethodDefV {
            name: self.name@,
            args: args_view(self.args@),
            signature: opt_text_view(self.signature),
            ret: self.ret@,
            doc: self.doc@,
            is_static: self.is_static,
            is_class: self.is_class,
        }
    }
}

/// The views of a sequence of methods.
pub open spec fn methods_view(s: Seq<MethodDef>) -> Seq<MethodDefV> {
    s.map_values(|m: MethodDef| m@)
}

/// An equal method vector.
#[verifier::loop_isolation(false)]
pub fn dup_methods(methods: &Vec<MethodDef>) -> (r: Vec<MethodDef>)
    ensures
        methods_view(r@) == methods_view(methods@),
{
    let mut r: Vec<MethodDef> = Vec::new();
    let mut i: usize = 0;
    while i < methods.len()
        invariant
            i <= methods.len(),
            methods_view(r@) == methods_view(methods@).take(i as int),
        decreases methods.len() - i,
    {
        r.push(methods[i].duplicate());
        proof {
            assert(methods_view(r@) =~= methods_view(methods@).take(i + 1));
        }
        i = i + 1;
    }
    proof {
        assert(methods_view(methods@).take(methods@.len() as int) =~= methods_view(methods@));
    }
    r
}

/// The views of a sequence of method fragments.
pub open spec fn method_infos_view(s: Seq<MethodInfo>) -> Seq<MethodDefV> {
    s.map_values(|m: MethodInfo| m@)
}

/// Every module reference the method requires: its return type's, then each
/// argument's, with duplicates kept.
pub open spec fn spec_method_imports(m: MethodDefV) -> Seq<ModuleRefV> {
    m.ret.imports + args_imports(m.args)
}

/// The decorator line of the method's kind, if any.
pub open spec fn spec_method_decorator(m: MethodDefV) -> Seq<char> {
    if m.is_static {
        spec_indent() + "@staticmethod\n"@
    } else if m.is_class {
        spec_indent() + "@classmethod\n"@
    } else {
        Seq::empty()
    }
}

/// The synthesized receiver line: class-bound for a class method, instance
/// for an instance method, none for a static method.
pub open spec fn spec_method_receiver(m: MethodDefV) -> Seq<char> {
    if m.is_class {
        spec_indent() + spec_indent() + "cls,\n"@
    } else if !m.is_static {
        spec_indent() + spec_indent() + "self,\n"@
    } else {
        Seq::empty()
    }
}

/// The argument part: empty in the zero-argument case, else the override
/// line or the auto-rendered argument lines.
pub open spec fn spec_method_args_block(m: MethodDefV) -> Seq<char> {
    if m.args.len() > 0 {
        match m.signature {
            Some(sig) => spec_indent() + spec_indent() + sig + "\n"@,
            None => spec_args_lines(m.args, spec_indent() + spec_indent()),
        }
    } else {
        Seq::empty()
    }
}

/// The rendered signature, up to and including the colon: on one line for a
/// static, argument-less method, wrapped across lines otherwise.
pub open spec fn spec_method_header(m: MethodDefV) -> Seq<char> {
    if m.is_static && m.args.len() == 0 {
        spec_indent() + "def "@ + m.name + "() -> "@ + m.ret.text + ":"@
    } else {
        spec_indent() + "def "@ + m.name + "(\n"@ + spec_method_receiver(m)
            + spec_method_args_block(m) + spec_indent() + ") -> "@ + m.ret.text + ":"@
    }
}

/// The rendered body: the placeholder on the header line when there is no
/// documentation, else the docstring block followed by the placeholder line.
pub open spec fn spec_method_body(m: MethodDefV) -> Seq<char> {
    if m.doc.len() == 0 {
        " ...\n"@
    } else {
        "\n"@ + spec_indent() + spec_indent() + "r\"\"\"\n"@ + spec_doc_lines(
            spec_lines(m.doc),
            spec_indent() + spec_indent(),
            true,
        ) + spec_indent() + spec_indent() + "\"\"\"\n"@ + spec_indent() + spec_indent()
            + "...\n"@
    }
}

/// The rendered method text.
pub open spec fn spec_render_method(m: MethodDefV) -> Seq<char> {
    spec_method_decorator(m) + spec_method_header(m) + spec_method_body(m)
}

/// Inline placeholder: a method with empty documentation renders its
/// placeholder on the same line as its signature, never on a separate line.
pub proof fn lemma_empty_doc_inline_placeholder_method(m: MethodDefV)
    requires
        m.doc.len() == 0,
    ensures
        spec_render_method(m) == spec_method_decorator(m) + spec_method_header(m) + " ...\n"@,
{
}

impl MethodDef {
    /// Straight field mapping from the raw fragment.
    pub fn from_info(info: &MethodInfo) -> (r: MethodDef)
        ensures
            r@ == info@,
    {
        MethodDef {
            name: info.name.clone(),
            args: dup_args(&info.args),
            signature: dup_opt_text(&info.signature),
            ret: info.ret.duplicate(),
            doc: info.doc.clone(),
            is_static: info.is_static,
            is_class: info.is_class,
        }
    }

    /// An equal method definition.
    pub fn duplicate(&self) -> (r: MethodDef)
        ensures
            r@ == self@,
    {
        MethodDef {
            name: self.name.clone(),
            args: dup_args(&self.args),
            signature: dup_opt_text(&self.signature),
            ret: self.ret.duplicate(),
            doc: self.doc.clone(),
            is_static: self.is_static,
            is_class: self.is_class,
        }
    }

    /// Folds every module reference this method requires into `acc`.
    pub fn collect_imports(&self, acc: &mut Vec<ModuleRef>)
        ensures
            refs_view(final(acc)@) == extend_unique(
                refs_view(old(acc)@),
                spec_method_imports(self@),
            ),
    {
        extend_refs(acc, &self.ret.imports);
        collect_args_imports(acc, &self.args);
        proof {
            lemma_extend_unique_concat(
                refs_view(old(acc)@),
                self@.ret.imports,
                args_imports(self@.args),
            );
        }
    }

    /// The module references this method requires, deduplicated in
    /// first-seen order.
    pub fn import(&self) -> (r: Vec<ModuleRef>)
        ensures
            refs_view(r@) == unique(spec_method_imports(self@)),
    {
        let mut acc: Vec<ModuleRef> = Vec::new();
        proof {
            assert(refs_view(acc@) =~= Seq::<ModuleRefV>::empty());
        }
        self.collect_imports(&mut acc);
        acc
    }

    fn append_decorator(&self, out: &mut String)
        ensures
            final(out)@ == old(out)@ + spec_method_decorator(self@),
    {
        if self.is_static {
            out.append(indent_unit());
            out.append("@staticmethod\n");
        } else if self.is_class {
            out.append(indent_unit());
            out.append("@classmethod\n");
        }
        proof {
            assert(out@ =~= old(out)@ + spec_method_decorator(self@));
        }
    }

    fn append_receiver(&self, out: &mut String)
        ensures
            final(out)@ == old(out)@ + spec_method_receiver(self@),
    {
        if self.is_class {
            out.append(double_indent());
            out.append("cls,\n");
        } else if !self.is_static {
            out.append(double_indent());
            out.append("self,\n");
        }
        proof {
            assert(out@ =~= old(out)@ + spec_method_receiver(self@));
        }
    }

    fn append_args_block(&self, out: &mut String)
        ensures
            final(out)@ == old(out)@ + spec_method_args_block(self@),
    {
        if self.args.len() > 0 {
            match &self.signature {
                Some(sig) => {
                    out.append(double_indent());
                    out.append(sig.as_str());
                    out.append("\n");
                },
                None => {
                    append_args_lines(out, &self.args, double_indent());
                },
            }
        }
        proof {
            assert(out@ =~= old(out)@ + spec_method_args_block(self@));
        }
    }

    fn append_header(&self, out: &mut String)
        ensures
            final(out)@ == old(out)@ + spec_method_header(self@),
    {
        if self.is_static && self.args.len() == 0 {
            out.append(indent_unit());
            out.append("def ");
            out.append(self.name.as_str());
            out.append("() -> ");
            out.append(self.ret.text.as_str());
            out.append(":");
            proof {
                assert(out@ =~= old(out)@ + spec_method_header(self@));
            }
        } else {
            out.append(indent_unit());
            out.append("def ");
            out.append(self.name.as_str());
            out.append("(\n");
            self.append_receiver(out);
            self.append_args_block(out);
            out.append(indent_unit());
            out.append(") -> ");
            out.append(self.ret.text.as_str());
            out.append(":");
            proof {
                assert(out@ =~= old(out)@ + spec_method_header(self@));
            }
        }
    }

    fn append_body(&self, out: &mut String)
        ensures
            final(out)@ == old(out)@ + spec_method_body(self@),
    {
        if self.doc.as_str().is_empty() {
            out.append(" ...\n");
        } else {
            out.append("\n");
            out.append(double_indent());
            out.append("r\"\"\"\n");
            let lines = split_lines(self.doc.as_str());
            append_doc_lines(out, &lines, double_indent(), true);
            out.append(double_indent());
            out.append("\"\"\"\n");
            out.append(double_indent());
            out.append("...\n");
        }
        proof {
            assert(out@ =~= old(out)@ + spec_method_body(self@));
        }
    }

    /// Appends the rendered method text.
    pub fn render_into(&self, out: &mut String)
        ensures
            final(out)@ == old(out)@ + spec_render_method(self@),
    {
        self.append_decorator(out);
        self.append_header(out);
        self.append_body(out);
        proof {
            assert(out@ =~= old(out)@ + spec_render_method(self@));
        }
    }

    /// The rendered method text.
    pub fn render(&self) -> (r: String)
        ensures
            r@ == spec_render_method(self@),
    {
        let mut out = String::new();
        self.render_into(&mut out);
        proof {
            assert(Seq::<char>::empty() + spec_render_method(self@) =~= spec_render_method(self@));
        }
        out
    }
}

} // verus!
