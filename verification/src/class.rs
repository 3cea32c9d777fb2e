//! Definition of a class.
//!
//! A class renders as a header line, an optional docstring block (only when
//! the documentation is non-blank after trimming), its members, its
//! constructor, and its methods, in stored order.  A class with neither
//! members nor methods gets a single indented placeholder line as its body.
//!
//! A class-descriptor fragment contributes only name, documentation and
//! members; constructors and methods are declared at separate sites and are
//! attached during aggregation, so conversion from the fragment leaves them
//! empty.

use crate::dedup::{extend_unique, lemma_extend_unique_concat, unique};
use crate::method::{dup_methods, methods_view, spec_method_imports, spec_render_method, MethodDef,
    MethodDefV};
use crate::new::{spec_new_imports, spec_render_new, NewDef, NewDefV};
use crate::text::{append_doc_lines, indent_unit, spec_doc_lines, spec_indent, spec_lines,
    spec_trim, split_lines, trim};
use crate::type_info::{
    append_member, collect_args_imports, collect_members_imports, dup_members, members_imports,
    members_view, refs_view, spec_render_member, MemberDef, MemberInfo, MemberV, ModuleRef,
    ModuleRefV, member_infos_view,
};
use vstd::prelude::*;
use vstd::string::StringExecFns;

verus! {

/// Mathematical content of a [`ClassDef`].
pub struct ClassDefV {
    pub name: Seq<char>,
    pub doc: Seq<char>,
    pub new: Option<NewDefV>,
    pub members: Seq<MemberV>,
    pub methods: Seq<MethodDefV>,
}

/// Definition of a class.
#[derive(Debug, Clone, PartialEq, Eq)]
pub struct ClassDef {
    pub name: String,
    pub doc: String,
    pub new: Option<NewDef>,
    pub members: Vec<MemberDef>,
    pub methods: Vec<MethodDef>,
}

/// The view of an optional constructor.
pub open spec fn opt_new_view(o: Option<NewDef>) -> Option<NewDefV> {
    match o {
        Some(n) => Some(n@),
        None => None,
    }
}

/// An equal optional constructor.
pub fn dup_opt_new(o: &Option<NewDef>) -> (r: Option<NewDef>)
    ensures
        opt_new_view(r) == opt_new_view(*o),
{
    match o {
        Some(n) => Some(n.duplicate()),
        None => None,
    }
}

impl View for ClassDef {
    type V = ClassDefV;

    open spec fn view(&self) -> ClassDefV {
        ClassDefV {
            name: self.name@,
            doc: self.doc@,
            new: opt_new_view(self.new),
            members: members_view(self.members@),
            methods: methods_view(self.methods@),
        }
    }
}

/// Mathematical content of a [`PyClassInfo`].
pub struct PyClassInfoV {
    pub name: Seq<char>,
    pub doc: Seq<char>,
    pub members: Seq<MemberV>,
}

/// Raw fragment describing a class: its name, documentation and field
/// members.  Constructors and methods arrive in separate fragments.
#[derive(Debug, Clone, PartialEq, Eq)]
pub struct PyClassInfo {
    pub name: String,
    pub doc: String,
    pub members: Vec<MemberInfo>,
}

impl View for PyClassInfo {
    type V = PyClassInfoV;

    open spec fn view(&self) -> PyClassInfoV {
        PyClassInfoV {
            name: self.name@,
            doc: self.doc@,
            members: member_infos_view(self.members@),
        }
    }
}

/// Every module reference the class requires: the constructor's arguments',
/// the members', and the methods', with duplicates kept.
pub open spec fn spec_class_imports(c: ClassDefV) -> Seq<ModuleRefV> {
    (match c.new {
        Some(n) => spec_new_imports(n),
        None => Seq::empty(),
    }) + members_imports(c.members) + methods_imports(c.methods)
}

/// Every module reference the methods require, in method order, with
/// duplicates kept.
pub open spec fn methods_imports(methods: Seq<MethodDefV>) -> Seq<ModuleRefV>
    decreases methods.len(),
{
    if methods.len() == 0 {
        Seq::empty()
    } else {
        methods_imports(methods.drop_last()) + spec_method_imports(methods.last())
    }
}

/// The docstring block of the class: present only when the documentation is
/// non-blank after trimming, framed by raw triple-quote markers, with a
/// trailing blank line.
pub open spec fn spec_class_docstring(c: ClassDefV) -> Seq<char> {
    if spec_trim(c.doc).len() == 0 {
        Seq::empty()
    } else {
        spec_indent() + "r\"\"\"\n"@ + spec_doc_lines(
            spec_lines(spec_trim(c.doc)),
            spec_indent(),
            true,
        ) + spec_indent() + "\"\"\"\n"@ + "\n"@
    }
}

/// The rendered members, in order.
pub open spec fn spec_render_members(members: Seq<MemberV>) -> Seq<char>
    decreases members.len(),
{
    if members.len() == 0 {
        Seq::empty()
    } else {
        spec_render_members(members.drop_last()) + spec_render_member(members.last())
    }
}

/// The rendered methods, in order.
pub open spec fn spec_render_methods(methods: Seq<MethodDefV>) -> Seq<char>
    decreases methods.len(),
{
    if methods.len() == 0 {
        Seq::empty()
    } else {
        spec_render_methods(methods.drop_last()) + spec_render_method(methods.last())
    }
}

/// The placeholder body line, present exactly when the class has neither
/// members nor methods.
pub open spec fn spec_class_tail(c: ClassDefV) -> Seq<char> {
    if c.members.len() == 0 && c.methods.len() == 0 {
        spec_indent() + "...\n"@
    } else {
        Seq::empty()
    }
}

/// The rendered class text: header, docstring, members, constructor,
/// methods, placeholder where the body would be empty, and a trailing blank
/// line.
pub open spec fn spec_render_class(c: ClassDefV) -> Seq<char> {
    "class "@ + c.name + ":\n"@ + spec_class_docstring(c) + spec_render_members(c.members)
        + (match c.new {
        Some(n) => spec_render_new(n),
        None => Seq::empty(),
    }) + spec_render_methods(c.methods) + spec_class_tail(c) + "\n"@
}

/// Body elision: a class with no members, no methods and no constructor
/// renders as its header, its docstring block if any, exactly the one-line
/// indented placeholder body, and the trailing blank line - nothing else.
pub proof fn lemma_empty_class_elision(c: ClassDefV)
    requires
        c.members.len() == 0,
        c.methods.len() == 0,
        c.new is None,
    ensures
        spec_render_class(c) == "class "@ + c.name + ":\n"@ + spec_class_docstring(c)
            + spec_indent() + "...\n"@ + "\n"@,
{
    assert(spec_render_members(c.members) == Seq::<char>::empty());
    assert(spec_render_methods(c.methods) == Seq::<char>::empty());
    assert(spec_render_class(c) =~= "class "@ + c.name + ":\n"@ + spec_class_docstring(c)
        + spec_indent() + "...\n"@ + "\n"@);
}

/// Appends every rendered member of `members`.
#[verifier::loop_isolation(false)]
pub fn append_members(out: &mut String, members: &Vec<MemberDef>)
    ensures
        final(out)@ == old(out)@ + spec_render_members(members_view(members@)),
{
    let ghost mv = members_view(members@);
    let mut i: usize = 0;
    while i < members.len()
        invariant
            i <= members.len(),
            out@ == old(out)@ + spec_render_members(mv.take(i as int)),
        decreases members.len() - i,
    {
        append_member(out, &members[i]);
        proof {
            assert(mv.take(i + 1).drop_last() =~= mv.take(i as int));
            assert(mv.take(i + 1).last() == mv[i as int]);
            assert(out@ =~= old(out)@ + spec_render_members(mv.take(i + 1)));
        }
        i = i + 1;
    }
    proof {
        assert(mv.take(members@.len() as int) =~= mv);
    }
}

/// Appends every rendered method of `methods`.
#[verifier::loop_isolation(false)]
pub fn append_methods(out: &mut String, methods: &Vec<MethodDef>)
    ensures
        final(out)@ == old(out)@ + spec_render_methods(methods_view(methods@)),
{
    let ghost mv = methods_view(methods@);
    let mut i: usize = 0;
    while i < methods.len()
        invariant
            i <= methods.len(),
            out@ == old(out)@ + spec_render_methods(mv.take(i as int)),
        decreases methods.len() - i,
    {
        methods[i].render_into(out);
        proof {
            assert(mv.take(i + 1).drop_last() =~= mv.take(i as int));
            assert(mv.take(i + 1).last() == mv[i as int]);
            assert(out@ =~= old(out)@ + spec_render_methods(mv.take(i + 1)));
        }
        i = i + 1;
    }
    proof {
        assert(mv.take(methods@.len() as int) =~= mv);
    }
}

/// Converts every member fragment, preserving order.
#[verifier::loop_isolation(false)]
pub fn members_from_infos(infos: &Vec<MemberInfo>) -> (r: Vec<MemberDef>)
    ensures
        members_view(r@) == member_infos_view(infos@),
{
    let ghost iv = member_infos_view(infos@);
    let mut r: Vec<MemberDef> = Vec::new();
    let mut i: usize = 0;
    while i < infos.len()
        invariant
            i <= infos.len(),
            members_view(r@) == iv.take(i as int),
        decreases infos.len() - i,
    {
        let m = MemberDef::from_info(&infos[i]);
        proof {
            assert(m@ == iv[i as int]);
        }
        r.push(m);
        proof {
            assert(members_view(r@) =~= iv.take(i + 1));
        }
        i = i + 1;
    }
    proof {
        assert(iv.take(infos@.len() as int) =~= iv);
    }
    r
}

impl ClassDef {
    /// Conversion from the class-descriptor fragment: name, documentation
    /// and members are taken over; the constructor and the methods stay
    /// empty until aggregation attaches them.
    pub fn from_info(info: &PyClassInfo) -> (r: ClassDef)
        ensures
            r@ == (ClassDefV {
                name: info@.name,
                doc: info@.doc,
                new: None,
                members: info@.members,
                methods: Seq::empty(),
            }),
    {
        let members = members_from_infos(&info.members);
        proof {
            assert(methods_view(Seq::<MethodDef>::empty()) =~= Seq::<MethodDefV>::empty());
        }
        ClassDef {
            name: info.name.clone(),
            doc: info.doc.clone(),
            new: None,
            members,
            methods: Vec::new(),
        }
    }

    /// An equal class definition.
    pub fn duplicate(&self) -> (r: ClassDef)
        ensures
            r@ == self@,
    {
        ClassDef {
            name: self.name.clone(),
            doc: self.doc.clone(),
            new: dup_opt_new(&self.new),
            members: dup_members(&self.members),
            methods: dup_methods(&self.methods),
        }
    }

    /// Folds every module reference this class requires into `acc`.
    #[verifier::loop_isolation(false)]
    pub fn collect_imports(&self, acc: &mut Vec<ModuleRef>)
        ensures
            refs_view(final(acc)@) == extend_unique(
                refs_view(old(acc)@),
                spec_class_imports(self@),
            ),
    {
        let ghost base = refs_view(old(acc)@);
        let ghost new_part = match self@.new {
            Some(n) => spec_new_imports(n),
            None => Seq::<ModuleRefV>::empty(),
        };
        match &self.new {
            Some(n) => {
                collect_args_imports(acc, &n.args);
            },
            None => {
                proof {
                    assert(extend_unique(base, new_part) == base);
                }
            },
        }
        collect_members_imports(acc, &self.members);
        proof {
            lemma_extend_unique_concat(base, new_part, members_imports(self@.members));
        }
        let ghost mid = new_part + members_imports(self@.members);
        let ghost mv = methods_view(self.methods@);
        let mut i: usize = 0;
        while i < self.methods.len()
            invariant
                i <= self.methods.len(),
                refs_view(acc@) == extend_unique(base, mid + methods_imports(mv.take(i as int))),
            decreases self.methods.len() - i,
        {
            self.methods[i].collect_imports(acc);
            proof {
                assert(mv.take(i + 1).drop_last() =~= mv.take(i as int));
                assert(mv.take(i + 1).last() == mv[i as int]);
                lemma_extend_unique_concat(base, mid, methods_imports(mv.take(i as int)));
                lemma_extend_unique_concat(
                    base,
                    mid + methods_imports(mv.take(i as int)),
                    spec_method_imports(mv[i as int]),
                );
                assert(mid + methods_imports(mv.take(i as int)) + spec_method_imports(
                    mv[i as int],
                ) =~= mid + methods_imports(mv.take(i + 1)));
            }
            i = i + 1;
        }
        proof {
            assert(mv.take(self.methods@.len() as int) =~= mv);
            assert(mid + methods_imports(mv) =~= spec_class_imports(self@));
        }
    }

    /// The module references this class requires, deduplicated in
    /// first-seen order.
    pub fn import(&self) -> (r: Vec<ModuleRef>)
        ensures
            refs_view(r@) == unique(spec_class_imports(self@)),
    {
        let mut acc: Vec<ModuleRef> = Vec::new();
        proof {
            assert(refs_view(acc@) =~= Seq::<ModuleRefV>::empty());
        }
        self.collect_imports(&mut acc);
        acc
    }

    fn append_docstring(&self, out: &mut String)
        ensures
            final(out)@ == old(out)@ + spec_class_docstring(self@),
    {
        let doc = trim(self.doc.as_str());
        if !doc.as_str().is_empty() {
            out.append(indent_unit());
            out.append("r\"\"\"\n");
            let lines = split_lines(doc.as_str());
            append_doc_lines(out, &lines, indent_unit(), true);
            out.append(indent_unit());
            out.append("\"\"\"\n");
            out.append("\n");
        }
        proof {
            assert(out@ =~= old(out)@ + spec_class_docstring(self@));
        }
    }

    /// Appends the rendered class text.
    pub fn render_into(&self, out: &mut String)
        ensures
            final(out)@ == old(out)@ + spec_render_class(self@),
    {
        out.append("class ");
        out.append(self.name.as_str());
        out.append(":\n");
        self.append_docstring(out);
        append_members(out, &self.members);
        match &self.new {
            Some(n) => {
                n.render_into(out);
            },
            None => (),
        }
        proof {
            assert(out@ =~= old(out)@ + ("class "@ + self@.name + ":\n"@)
                + spec_class_docstring(self@) + spec_render_members(self@.members) + (match self@.new {
                Some(n) => spec_render_new(n),
                None => Seq::<char>::empty(),
            }));
        }
        append_methods(out, &self.methods);
        if self.members.len() == 0 && self.methods.len() == 0 {
            out.append(indent_unit());
            out.append("...\n");
        }
        out.append("\n");
        proof {
            assert(out@ =~= old(out)@ + spec_render_class(self@));
        }
    }

    /// The rendered class text.
    pub fn render(&self) -> (r: String)
        ensures
            r@ == spec_render_class(self@),
    {
        let mut out = String::new();
        self.render_into(&mut out);
        proof {
            assert(Seq::<char>::empty() + spec_render_class(self@) =~= spec_render_class(self@));
        }
        out
    }
}

} // verus!
