//! The normalized data carried by every definition: module references, type
//! references, arguments and field members, together with the machinery that
//! collects the module references a definition needs.
//!
//! A `TypeInfo` carries, beside its display text, every module reference
//! required anywhere inside that text; completeness of that set is the
//! producing reflection layer's obligation.  Import resolution is therefore a
//! pure union, kept here as a duplicate-free vector in first-seen order.

use crate::dedup::{extend_unique, insert_unique, lemma_extend_unique_concat, unique};
use vstd::prelude::*;
use vstd::string::StringExecFns;

verus! {

/// Mathematical content of a [`ModuleRef`].
pub struct ModuleRefV {
    pub module: Seq<char>,
    pub symbol: Seq<char>,
}

/// A reference to a module and the symbol imported from it, required for a
/// rendered type annotation to resolve.
#[derive(Debug, Clone, PartialEq, Eq)]
pub struct ModuleRef {
    pub module: String,
    pub symbol: String,
}

impl View for ModuleRef {
    type V = ModuleRefV;

    open spec fn view(&self) -> ModuleRefV {
        ModuleRefV { module: self.module@, symbol: self.symbol@ }
    }
}

impl ModuleRef {
    /// An equal module reference.
    pub fn duplicate(&self) -> (r: ModuleRef)
        ensures
            r@ == self@,
    {
        ModuleRef { module: self.module.clone(), symbol: self.symbol.clone() }
    }

    /// Whether the two references name the same module and symbol.
    pub fn same_as(&self, other: &ModuleRef) -> (r: bool)
        ensures
            r == (self@ == other@),
    {
        self.module == other.module && self.symbol == other.symbol
    }
}

/// The views of a sequence of module references.
pub open spec fn refs_view(s: Seq<ModuleRef>) -> Seq<ModuleRefV> {
    s.map_values(|m: ModuleRef| m@)
}

/// Whether `v` holds a reference with the view `x`.
pub fn contains_ref(v: &Vec<ModuleRef>, x: &ModuleRef) -> (r: bool)
    ensures
        r == refs_view(v@).contains(x@),
{
    let mut i: usize = 0;
    while i < v.len()
        invariant
            i <= v.len(),
            forall|k: int| 0 <= k < i ==> refs_view(v@)[k] != x@,
        decreases v.len() - i,
    {
        if v[i].same_as(x) {
            proof {
                assert(refs_view(v@)[i as int] == x@);
            }
            return true;
        }
        i = i + 1;
    }
    false
}

/// Appends `x` unless an equal reference is already present.
pub fn push_ref(acc: &mut Vec<ModuleRef>, x: &ModuleRef)
    ensures
        refs_view(final(acc)@) == insert_unique(refs_view(old(acc)@), x@),
{
    if !contains_ref(acc, x) {
        let ghost before = refs_view(acc@);
        acc.push(x.duplicate());
        proof {
            assert(refs_view(acc@) =~= before.push(x@));
        }
    }
}

/// Appends every reference of `src` that is not already present, in order.
#[verifier::loop_isolation(false)]
pub fn extend_refs(acc: &mut Vec<ModuleRef>, src: &Vec<ModuleRef>)
    ensures
        refs_view(final(acc)@) == extend_unique(refs_view(old(acc)@), refs_view(src@)),
{
    let mut i: usize = 0;
    let ghost sv = refs_view(src@);
    let ghost base = refs_view(acc@);
    while i < src.len()
        invariant
            i <= src.len(),
            refs_view(acc@) == extend_unique(base, sv.take(i as int)),
        decreases src.len() - i,
    {
        push_ref(acc, &src[i]);
        proof {
            assert(sv.take(i + 1).drop_last() =~= sv.take(i as int));
            assert(sv.take(i + 1).last() == sv[i as int]);
        }
        i = i + 1;
    }
    proof {
        assert(sv.take(src@.len() as int) =~= sv);
    }
}

/// Mathematical content of a [`TypeInfo`].
pub struct TypeInfoV {
    pub text: Seq<char>,
    pub imports: Seq<ModuleRefV>,
}

/// One type reference: its display text, and every module reference that the
/// text - nested and generic parameters included - requires.
#[derive(Debug, Clone, PartialEq, Eq)]
pub struct TypeInfo {
    pub text: String,
    pub imports: Vec<ModuleRef>,
}

impl View for TypeInfo {
    type V = TypeInfoV;

    open spec fn view(&self) -> TypeInfoV {
        TypeInfoV { text: self.text@, imports: refs_view(self.imports@) }
    }
}

impl TypeInfo {
    /// An equal type reference.
    #[verifier::loop_isolation(false)]
    pub fn duplicate(&self) -> (r: TypeInfo)
        ensures
            r@ == self@,
    {
        let mut imports: Vec<ModuleRef> = Vec::new();
        let mut i: usize = 0;
        while i < self.imports.len()
            invariant
                i <= self.imports.len(),
                refs_view(imports@) == refs_view(self.imports@).take(i as int),
            decreases self.imports.len() - i,
        {
            imports.push(self.imports[i].duplicate());
            proof {
                assert(refs_view(imports@) =~= refs_view(self.imports@).take(i + 1));
            }
            i = i + 1;
        }
        proof {
            assert(refs_view(self.imports@).take(self.imports@.len() as int) =~= refs_view(
                self.imports@,
            ));
        }
        TypeInfo { text: self.text.clone(), imports }
    }
}

/// The view of an optional literal text.
pub open spec fn opt_text_view(o: Option<String>) -> Option<Seq<char>> {
    match o {
        Some(t) => Some(t@),
        None => None,
    }
}

/// An equal optional literal text.
pub fn dup_opt_text(o: &Option<String>) -> (r: Option<String>)
    ensures
        opt_text_view(r) == opt_text_view(*o),
{
    match o {
        Some(t) => Some(t.clone()),
        None => None,
    }
}

/// Mathematical content of an [`Arg`].
pub struct ArgV {
    pub name: Seq<char>,
    pub ty: TypeInfoV,
    pub default: Option<Seq<char>>,
}

/// One declared argument, in declaration order: its name, its type, and an
/// optional default-value literal.
#[derive(Debug, Clone, PartialEq, Eq)]
pub struct Arg {
    pub name: String,
    pub ty: TypeInfo,
    pub default: Option<String>,
}

impl View for Arg {
    type V = ArgV;

    open spec fn view(&self) -> ArgV {
        ArgV { name: self.name@, ty: self.ty@, default: opt_text_view(self.default) }
    }
}

impl Arg {
    /// An equal argument.
    pub fn duplicate(&self) -> (r: Arg)
        ensures
            r@ == self@,
    {
        Arg { name: self.name.clone(), ty: self.ty.duplicate(), default: dup_opt_text(&self.default) }
    }
}

/// The views of a sequence of arguments.
pub open spec fn args_view(s: Seq<Arg>) -> Seq<ArgV> {
    s.map_values(|a: Arg| a@)
}

/// An equal argument vector.
#[verifier::loop_isolation(false)]
pub fn dup_args(args: &Vec<Arg>) -> (r: Vec<Arg>)
    ensures
        args_view(r@) == args_view(args@),
{
    let mut r: Vec<Arg> = Vec::new();
    let mut i: usize = 0;
    while i < args.len()
        invariant
            i <= args.len(),
            args_view(r@) == args_view(args@).take(i as int),
        decreases args.len() - i,
    {
        r.push(args[i].duplicate());
        proof {
            assert(args_view(r@) =~= args_view(args@).take(i + 1));
        }
        i = i + 1;
    }
    proof {
        assert(args_view(args@).take(args@.len() as int) =~= args_view(args@));
    }
    r
}

/// Every module reference the arguments require, in argument order, with
/// duplicates kept.
pub open spec fn args_imports(args: Seq<ArgV>) -> Seq<ModuleRefV>
    decreases args.len(),
{
    if args.len() == 0 {
        Seq::empty()
    } else {
        args_imports(args.drop_last()) + args.last().ty.imports
    }
}

/// Folds the module references of every argument into `acc`.
#[verifier::loop_isolation(false)]
pub fn collect_args_imports(acc: &mut Vec<ModuleRef>, args: &Vec<Arg>)
    ensures
        refs_view(final(acc)@) == extend_unique(
            refs_view(old(acc)@),
            args_imports(args_view(args@)),
        ),
{
    let ghost base = refs_view(old(acc)@);
    let ghost av = args_view(args@);
    let mut i: usize = 0;
    while i < args.len()
        invariant
            i <= args.len(),
            refs_view(acc@) == extend_unique(base, args_imports(av.take(i as int))),
        decreases args.len() - i,
    {
        extend_refs(acc, &args[i].ty.imports);
        proof {
            assert(av.take(i + 1).drop_last() =~= av.take(i as int));
            assert(av.take(i + 1).last() == av[i as int]);
            lemma_extend_unique_concat(
                base,
                args_imports(av.take(i as int)),
                av[i as int].ty.imports,
            );
        }
        i = i + 1;
    }
    proof {
        assert(av.take(args@.len() as int) =~= av);
    }
}

/// The rendered form of one argument: name, type text, and the default
/// literal where present.
pub open spec fn spec_render_arg(a: ArgV) -> Seq<char> {
    a.name + ": "@ + a.ty.text + (match a.default {
        Some(d) => " = "@ + d,
        None => Seq::empty(),
    })
}

/// Appends the rendered form of `a`.
pub fn append_arg(out: &mut String, a: &Arg)
    ensures
        final(out)@ == old(out)@ + spec_render_arg(a@),
{
    out.append(a.name.as_str());
    out.append(": ");
    out.append(a.ty.text.as_str());
    match &a.default {
        Some(d) => {
            out.append(" = ");
            out.append(d.as_str());
        },
        None => (),
    }
    proof {
        assert(out@ =~= old(out)@ + spec_render_arg(a@));
    }
}

/// The auto-rendered argument list: every argument on its own line under
/// indentation `ind`, closed by a trailing separator.
pub open spec fn spec_args_lines(args: Seq<ArgV>, ind: Seq<char>) -> Seq<char>
    decreases args.len(),
{
    if args.len() == 0 {
        Seq::empty()
    } else {
        spec_args_lines(args.drop_last(), ind) + ind + spec_render_arg(args.last()) + ",\n"@
    }
}

/// Appends every argument of `args` on its own line under indentation `ind`.
#[verifier::loop_isolation(false)]
pub fn append_args_lines(out: &mut String, args: &Vec<Arg>, ind: &str)
    ensures
        final(out)@ == old(out)@ + spec_args_lines(args_view(args@), ind@),
{
    let ghost av = args_view(args@);
    let mut i: usize = 0;
    while i < args.len()
        invariant
            i <= args.len(),
            out@ == old(out)@ + spec_args_lines(av.take(i as int), ind@),
        decreases args.len() - i,
    {
        out.append(ind);
        append_arg(out, &args[i]);
        out.append(",\n");
        proof {
            assert(av.take(i + 1).drop_last() =~= av.take(i as int));
            assert(av.take(i + 1).last() == av[i as int]);
            assert(out@ =~= old(out)@ + spec_args_lines(av.take(i + 1), ind@));
        }
        i = i + 1;
    }
    proof {
        assert(av.take(args@.len() as int) =~= av);
    }
}

/// Mathematical content of a [`MemberDef`].
pub struct MemberV {
    pub name: Seq<char>,
    pub ty: TypeInfoV,
}

/// One field member of a class: its name and its declared type.
#[derive(Debug, Clone, PartialEq, Eq)]
pub struct MemberDef {
    pub name: String,
    pub ty: TypeInfo,
}

impl View for MemberDef {
    type V = MemberV;

    open spec fn view(&self) -> MemberV {
        MemberV { name: self.name@, ty: self.ty@ }
    }
}

/// Raw fragment describing one field member.
#[derive(Debug, Clone, PartialEq, Eq)]
pub struct MemberInfo {
    pub name: String,
    pub ty: TypeInfo,
}

impl View for MemberInfo {
    type V = MemberV;

    open spec fn view(&self) -> MemberV {
        MemberV { name: self.name@, ty: self.ty@ }
    }
}

impl MemberDef {
    /// Straight field mapping from the raw fragment.
    pub fn from_info(info: &MemberInfo) -> (r: MemberDef)
        ensures
            r@ == info@,
    {
        MemberDef { name: info.name.clone(), ty: info.ty.duplicate() }
    }

    /// An equal member.
    pub fn duplicate(&self) -> (r: MemberDef)
        ensures
            r@ == self@,
    {
        MemberDef { name: self.name.clone(), ty: self.ty.duplicate() }
    }
}

/// The views of a sequence of members.
pub open spec fn members_view(s: Seq<MemberDef>) -> Seq<MemberV> {
    s.map_values(|m: MemberDef| m@)
}

/// An equal member vector.
#[verifier::loop_isolation(false)]
pub fn dup_members(members: &Vec<MemberDef>) -> (r: Vec<MemberDef>)
    ensures
        members_view(r@) == members_view(members@),
{
    let mut r: Vec<MemberDef> = Vec::new();
    let mut i: usize = 0;
    while i < members.len()
        invariant
            i <= members.len(),
            members_view(r@) == members_view(members@).take(i as int),
        decreases members.len() - i,
    {
        r.push(members[i].duplicate());
        proof {
            assert(members_view(r@) =~= members_view(members@).take(i + 1));
        }
        i = i + 1;
    }
    proof {
        assert(members_view(members@).take(members@.len() as int) =~= members_view(members@));
    }
    r
}

/// The views of a sequence of member fragments.
pub open spec fn member_infos_view(s: Seq<MemberInfo>) -> Seq<MemberV> {
    s.map_values(|m: MemberInfo| m@)
}

/// Every module reference the members require, in member order, with
/// duplicates kept.
pub open spec fn members_imports(members: Seq<MemberV>) -> Seq<ModuleRefV>
    decreases members.len(),
{
    if members.len() == 0 {
        Seq::empty()
    } else {
        members_imports(members.drop_last()) + members.last().ty.imports
    }
}

/// Folds the module references of every member into `acc`.
#[verifier::loop_isolation(false)]
pub fn collect_members_imports(acc: &mut Vec<ModuleRef>, members: &Vec<MemberDef>)
    ensures
        refs_view(final(acc)@) == extend_unique(
            refs_view(old(acc)@),
            members_imports(members_view(members@)),
        ),
{
    let ghost base = refs_view(old(acc)@);
    let ghost mv = members_view(members@);
    let mut i: usize = 0;
    while i < members.len()
        invariant
            i <= members.len(),
            refs_view(acc@) == extend_unique(base, members_imports(mv.take(i as int))),
        decreases members.len() - i,
    {
        extend_refs(acc, &members[i].ty.imports);
        proof {
            assert(mv.take(i + 1).drop_last() =~= mv.take(i as int));
            assert(mv.take(i + 1).last() == mv[i as int]);
            lemma_extend_unique_concat(
                base,
                members_imports(mv.take(i as int)),
                mv[i as int].ty.imports,
            );
        }
        i = i + 1;
    }
    proof {
        assert(mv.take(members@.len() as int) =~= mv);
    }
}

/// The rendered form of one member: an indented field declaration line.
pub open spec fn spec_render_member(m: MemberV) -> Seq<char> {
    crate::text::spec_indent() + m.name + ": "@ + m.ty.text + "\n"@
}

/// Appends the rendered form of `m`.
pub fn append_member(out: &mut String, m: &MemberDef)
    ensures
        final(out)@ == old(out)@ + spec_render_member(m@),
{
    out.append(crate::text::indent_unit());
    out.append(m.name.as_str());
    out.append(": ");
    out.append(m.ty.text.as_str());
    out.append("\n");
    proof {
        assert(out@ =~= old(out)@ + spec_render_member(m@));
    }
}

} // verus!
