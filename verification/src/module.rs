//! The module assembler: groups finalized definitions by their target
//! module path and produces one complete declaration document per module.
//!
//! A document consists of the deduplicated import lines of every definition
//! in the module, a blank separator line, and every definition's rendered
//! text in declaration order.  Grouping, import order and declaration order
//! all follow first-seen input order, so equal input collections yield
//! byte-identical documents (`lemma_render_deterministic`), and the import
//! section holds exactly the module references the declarations need
//! (`lemma_import_soundness`).

use crate::class::{spec_class_imports, spec_render_class, ClassDef, ClassDefV};
use crate::dedup::{
    distinct, extend_unique, lemma_contains_concat, lemma_extend_unique_concat,
    lemma_extend_unique_distinct, lemma_extend_unique_membership, unique,
};
use crate::function::{spec_function_imports, spec_render_function, FunctionDef, FunctionDefV};
use crate::text::{name_eq, names_view, push_name};
use crate::type_info::{refs_view, ModuleRef, ModuleRefV};
use vstd::prelude::*;
use vstd::string::StringExecFns;

verus! {

/// Mathematical content of a [`Definition`].
pub enum DefinitionV {
    Class(ClassDefV),
    Function(FunctionDefV),
}

/// A finalized top-level definition: a class or a free function.
#[derive(Debug, Clone, PartialEq, Eq)]
pub enum Definition {
    Class(ClassDef),
    Function(FunctionDef),
}

impl View for Definition {
    type V = DefinitionV;

    open spec fn view(&self) -> DefinitionV {
        match self {
            Definition::Class(c) => DefinitionV::Class(c@),
            Definition::Function(f) => DefinitionV::Function(f@),
        }
    }
}

/// Every module reference the definition requires, with duplicates kept.
pub open spec fn spec_def_imports(d: DefinitionV) -> Seq<ModuleRefV> {
    match d {
        DefinitionV::Class(c) => spec_class_imports(c),
        DefinitionV::Function(f) => spec_function_imports(f),
    }
}

/// The rendered definition text.
pub open spec fn spec_render_def(d: DefinitionV) -> Seq<char> {
    match d {
        DefinitionV::Class(c) => spec_render_class(c),
        DefinitionV::Function(f) => spec_render_function(f),
    }
}

impl Definition {
    /// Folds every module reference this definition requires into `acc`.
    pub fn collect_imports(&self, acc: &mut Vec<ModuleRef>)
        ensures
            refs_view(final(acc)@) == extend_unique(
                refs_view(old(acc)@),
                spec_def_imports(self@),
            ),
    {
        match self {
            Definition::Class(c) => c.collect_imports(acc),
            Definition::Function(f) => f.collect_imports(acc),
        }
    }

    /// Appends the rendered definition text.
    pub fn render_into(&self, out: &mut String)
        ensures
            final(out)@ == old(out)@ + spec_render_def(self@),
    {
        match self {
            Definition::Class(c) => c.render_into(out),
            Definition::Function(f) => f.render_into(out),
        }
    }
}

/// Mathematical content of a [`ModuleEntry`].
pub struct ModuleEntryV {
    pub module: Seq<char>,
    pub def: DefinitionV,
}

/// One finalized definition together with its target module path.
#[derive(Debug, Clone, PartialEq, Eq)]
pub struct ModuleEntry {
    pub module: String,
    pub def: Definition,
}

impl View for ModuleEntry {
    type V = ModuleEntryV;

    open spec fn view(&self) -> ModuleEntryV {
        ModuleEntryV { module: self.module@, def: self.def@ }
    }
}

/// The views of the entries.
pub open spec fn entries_view(s: Seq<ModuleEntry>) -> Seq<ModuleEntryV> {
    s.map_values(|e: ModuleEntry| e@)
}

/// Mathematical content of a [`Document`].
pub struct DocumentV {
    pub module: Seq<char>,
    pub text: Seq<char>,
}

/// One assembled declaration document: the target module path and the
/// complete document text.
#[derive(Debug, Clone, PartialEq, Eq)]
pub struct Document {
    pub module: String,
    pub text: String,
}

impl View for Document {
    type V = DocumentV;

    open spec fn view(&self) -> DocumentV {
        DocumentV { module: self.module@, text: self.text@ }
    }
}

/// The views of the documents.
pub open spec fn docs_view(s: Seq<Document>) -> Seq<DocumentV> {
    s.map_values(|d: Document| d@)
}

/// The target module paths of the entries, in order.
pub open spec fn entry_modules(entries: Seq<ModuleEntryV>) -> Seq<Seq<char>> {
    entries.map_values(|e: ModuleEntryV| e.module)
}

/// Every distinct target module path, in first-seen order.
pub open spec fn module_names(entries: Seq<ModuleEntryV>) -> Seq<Seq<char>> {
    unique(entry_modules(entries))
}

/// The definitions targeted at module `m`, in declaration order.
pub open spec fn defs_for(entries: Seq<ModuleEntryV>, m: Seq<char>) -> Seq<DefinitionV>
    decreases entries.len(),
{
    if entries.len() == 0 {
        Seq::empty()
    } else {
        defs_for(entries.drop_last(), m) + (if entries.last().module == m {
            seq![entries.last().def]
        } else {
            Seq::empty()
        })
    }
}

/// Every module reference the definitions require, in definition order,
/// with duplicates kept.
pub open spec fn defs_imports(defs: Seq<DefinitionV>) -> Seq<ModuleRefV>
    decreases defs.len(),
{
    if defs.len() == 0 {
        Seq::empty()
    } else {
        defs_imports(defs.drop_last()) + spec_def_imports(defs.last())
    }
}

/// The import section of a document over these definitions: their module
/// references, deduplicated in first-seen order.
pub open spec fn document_imports(defs: Seq<DefinitionV>) -> Seq<ModuleRefV> {
    unique(defs_imports(defs))
}

/// One rendered import line.
pub open spec fn spec_import_line(r: ModuleRefV) -> Seq<char> {
    "from "@ + r.module + " import "@ + r.symbol + "\n"@
}

/// The rendered import lines, in order.
pub open spec fn spec_import_lines(refs: Seq<ModuleRefV>) -> Seq<char>
    decreases refs.len(),
{
    if refs.len() == 0 {
        Seq::empty()
    } else {
        spec_import_lines(refs.drop_last()) + spec_import_line(refs.last())
    }
}

/// The rendered definitions, in order.
pub open spec fn spec_render_defs(defs: Seq<DefinitionV>) -> Seq<char>
    decreases defs.len(),
{
    if defs.len() == 0 {
        Seq::empty()
    } else {
        spec_render_defs(defs.drop_last()) + spec_render_def(defs.last())
    }
}

/// The complete document over these definitions: import lines, a blank
/// separator line, then every rendered definition.
pub open spec fn spec_document(defs: Seq<DefinitionV>) -> Seq<char> {
    spec_import_lines(document_imports(defs)) + "\n"@ + spec_render_defs(defs)
}

/// Appends one rendered import line per reference, in order.
#[verifier::loop_isolation(false)]
fn append_import_lines(out: &mut String, refs: &Vec<ModuleRef>)
    ensures
        final(out)@ == old(out)@ + spec_import_lines(refs_view(refs@)),
{
    let ghost rv = refs_view(refs@);
    let mut i: usize = 0;
    while i < refs.len()
        invariant
            i <= refs.len(),
            out@ == old(out)@ + spec_import_lines(rv.take(i as int)),
        decreases refs.len() - i,
    {
        out.append("from ");
        out.append(refs[i].module.as_str());
        out.append(" import ");
        out.append(refs[i].symbol.as_str());
        out.append("\n");
        proof {
            assert(rv.take(i + 1).drop_last() =~= rv.take(i as int));
            assert(rv.take(i + 1).last() == rv[i as int]);
            assert(out@ =~= old(out)@ + spec_import_lines(rv.take(i + 1)));
        }
        i = i + 1;
    }
    proof {
        assert(rv.take(refs@.len() as int) =~= rv);
    }
}

/// The document text for module `name` over the entries: the deduplicated
/// imports of the definitions targeted at `name`, a blank line, then their
/// rendered texts in declaration order.
#[verifier::loop_isolation(false)]
pub fn render_module(entries: &Vec<ModuleEntry>, name: &String) -> (r: String)
    ensures
        r@ == spec_document(defs_for(entries_view(entries@), name@)),
{
    let ghost ev = entries_view(entries@);
    let ghost all = defs_for(ev, name@);
    let mut refs: Vec<ModuleRef> = Vec::new();
    let mut i: usize = 0;
    proof {
        assert(refs_view(refs@) =~= Seq::<ModuleRefV>::empty());
    }
    while i < entries.len()
        invariant
            i <= entries.len(),
            refs_view(refs@) == document_imports(defs_for(ev.take(i as int), name@)),
        decreases entries.len() - i,
    {
        let ghost pre = defs_for(ev.take(i as int), name@);
        if name_eq(&entries[i].module, name) {
            entries[i].def.collect_imports(&mut refs);
            proof {
                assert(ev.take(i + 1).drop_last() =~= ev.take(i as int));
                assert(ev.take(i + 1).last() == ev[i as int]);
                assert(defs_for(ev.take(i + 1), name@) =~= pre + seq![ev[i as int].def]);
                assert((pre + seq![ev[i as int].def]).drop_last() =~= pre);
                assert((pre + seq![ev[i as int].def]).last() == ev[i as int].def);
                assert(defs_imports(defs_for(ev.take(i + 1), name@)) == defs_imports(pre)
                    + spec_def_imports(ev[i as int].def));
                lemma_extend_unique_concat(
                    Seq::<ModuleRefV>::empty(),
                    defs_imports(pre),
                    spec_def_imports(ev[i as int].def),
                );
            }
        } else {
            proof {
                assert(ev.take(i + 1).drop_last() =~= ev.take(i as int));
                assert(ev.take(i + 1).last() == ev[i as int]);
                assert(defs_for(ev.take(i + 1), name@) =~= pre);
                assert(defs_imports(defs_for(ev.take(i + 1), name@)) == defs_imports(pre));
            }
        }
        i = i + 1;
    }
    proof {
        assert(ev.take(entries@.len() as int) =~= ev);
    }
    let mut out = String::new();
    append_import_lines(&mut out, &refs);
    out.append("\n");
    let ghost head = spec_import_lines(document_imports(all)) + "\n"@;
    proof {
        assert(out@ =~= head);
        assert(head + spec_render_defs(Seq::<DefinitionV>::empty()) =~= head);
    }
    let mut j: usize = 0;
    while j < entries.len()
        invariant
            j <= entries.len(),
            out@ == head + spec_render_defs(defs_for(ev.take(j as int), name@)),
        decreases entries.len() - j,
    {
        let ghost pre = defs_for(ev.take(j as int), name@);
        if name_eq(&entries[j].module, name) {
            entries[j].def.render_into(&mut out);
            proof {
                assert(ev.take(j + 1).drop_last() =~= ev.take(j as int));
                assert(ev.take(j + 1).last() == ev[j as int]);
                assert(defs_for(ev.take(j + 1), name@) =~= pre + seq![ev[j as int].def]);
                assert((pre + seq![ev[j as int].def]).drop_last() =~= pre);
                assert((pre + seq![ev[j as int].def]).last() == ev[j as int].def);
                assert(out@ =~= head + spec_render_defs(defs_for(ev.take(j + 1), name@)));
            }
        } else {
            proof {
                assert(ev.take(j + 1).drop_last() =~= ev.take(j as int));
                assert(ev.take(j + 1).last() == ev[j as int]);
                assert(defs_for(ev.take(j + 1), name@) =~= pre);
            }
        }
        j = j + 1;
    }
    proof {
        assert(ev.take(entries@.len() as int) =~= ev);
        assert(out@ =~= spec_document(all));
    }
    out
}

/// Groups the entries by target module path and produces one document per
/// distinct module, in first-seen order of the paths.
#[verifier::loop_isolation(false)]
pub fn assemble(entries: &Vec<ModuleEntry>) -> (r: Vec<Document>)
    ensures
        ({
            let ev = entries_view(entries@);
            let ns = module_names(ev);
            &&& distinct(ns)
            &&& docs_view(r@).len() == ns.len()
            &&& forall|k: int|
                0 <= k < ns.len() ==> {
                    let d = #[trigger] docs_view(r@)[k];
                    &&& d.module == ns[k]
                    &&& d.text == spec_document(defs_for(ev, ns[k]))
                }
        }),
{
    let ghost ev = entries_view(entries@);
    let ghost ns = module_names(ev);
    let ghost mods = entry_modules(ev);
    proof {
        lemma_extend_unique_distinct(Seq::<Seq<char>>::empty(), mods);
    }
    let mut names: Vec<String> = Vec::new();
    let mut i: usize = 0;
    proof {
        assert(names_view(names@) =~= Seq::<Seq<char>>::empty());
        assert(extend_unique(Seq::<Seq<char>>::empty(), mods.take(0)) =~= Seq::<
            Seq<char>,
        >::empty());
    }
    while i < entries.len()
        invariant
            i <= entries.len(),
            names_view(names@) == extend_unique(Seq::<Seq<char>>::empty(), mods.take(i as int)),
        decreases entries.len() - i,
    {
        push_name(&mut names, &entries[i].module);
        proof {
            assert(mods.take(i + 1).drop_last() =~= mods.take(i as int));
            assert(mods.take(i + 1).last() == mods[i as int]);
            assert(mods[i as int] == entries[i as int]@.module);
        }
        i = i + 1;
    }
    proof {
        assert(mods.take(entries@.len() as int) =~= mods);
    }
    let mut r: Vec<Document> = Vec::new();
    let mut k: usize = 0;
    while k < names.len()
        invariant
            k <= names.len(),
            names_view(names@) == ns,
            docs_view(r@).len() == k,
            forall|j: int|
                0 <= j < k ==> {
                    let d = #[trigger] docs_view(r@)[j];
                    &&& d.module == ns[j]
                    &&& d.text == spec_document(defs_for(ev, ns[j]))
                },
        decreases names.len() - k,
    {
        let name = &names[k];
        let text = render_module(entries, name);
        let doc = Document { module: name.clone(), text };
        proof {
            assert(name@ == ns[k as int]);
        }
        let ghost before = docs_view(r@);
        r.push(doc);
        proof {
            assert(docs_view(r@) =~= before.push(doc@));
        }
        k = k + 1;
    }
    r
}

proof fn lemma_defs_imports_membership(defs: Seq<DefinitionV>)
    ensures
        forall|x: ModuleRefV|
            defs_imports(defs).contains(x) <==> exists|k: int|
                0 <= k < defs.len() && #[trigger] spec_def_imports(defs[k]).contains(x),
    decreases defs.len(),
{
    if defs.len() == 0 {
    } else {
        lemma_defs_imports_membership(defs.drop_last());
        lemma_contains_concat(defs_imports(defs.drop_last()), spec_def_imports(defs.last()));
        assert forall|x: ModuleRefV|
            defs_imports(defs).contains(x) <==> exists|k: int|
                0 <= k < defs.len() && #[trigger] spec_def_imports(defs[k]).contains(x) by {
            if defs_imports(defs).contains(x) {
                if defs_imports(defs.drop_last()).contains(x) {
                    let k = choose|k: int|
                        0 <= k < defs.drop_last().len() && #[trigger] spec_def_imports(
                            defs.drop_last()[k],
                        ).contains(x);
                    assert(defs[k] == defs.drop_last()[k]);
                    assert(spec_def_imports(defs[k]).contains(x));
                } else {
                    assert(spec_def_imports(defs[defs.len() - 1]).contains(x));
                }
            }
            if exists|k: int|
                0 <= k < defs.len() && #[trigger] spec_def_imports(defs[k]).contains(x) {
                let k = choose|k: int|
                    0 <= k < defs.len() && #[trigger] spec_def_imports(defs[k]).contains(x);
                if k < defs.len() - 1 {
                    assert(defs.drop_last()[k] == defs[k]);
                    assert(spec_def_imports(defs.drop_last()[k]).contains(x));
                    assert(defs_imports(defs.drop_last()).contains(x));
                } else {
                    assert(defs.last() == defs[k]);
                }
            }
        }
    }
}

/// Import soundness: a document's import section holds a module reference
/// if and only if some definition in the document requires it, and holds it
/// exactly once.
pub proof fn lemma_import_soundness(defs: Seq<DefinitionV>)
    ensures
        forall|x: ModuleRefV|
            document_imports(defs).contains(x) <==> exists|k: int|
                0 <= k < defs.len() && #[trigger] spec_def_imports(defs[k]).contains(x),
        distinct(document_imports(defs)),
{
    lemma_extend_unique_membership(Seq::<ModuleRefV>::empty(), defs_imports(defs));
    lemma_defs_imports_membership(defs);
    lemma_extend_unique_distinct(Seq::<ModuleRefV>::empty(), defs_imports(defs));
    assert forall|x: ModuleRefV|
        document_imports(defs).contains(x) <==> exists|k: int|
            0 <= k < defs.len() && #[trigger] spec_def_imports(defs[k]).contains(x) by {
        assert(extend_unique(Seq::<ModuleRefV>::empty(), defs_imports(defs)).contains(x)
            <==> Seq::<ModuleRefV>::empty().contains(x) || defs_imports(defs).contains(x));
        assert(!Seq::<ModuleRefV>::empty().contains(x));
    }
}

/// Determinism: the assembled document is a mathematical function of the
/// definition collection alone, so rendering the same finalized collection
/// twice - in the same run or in another - yields byte-identical text.
pub proof fn lemma_render_deterministic(a: Seq<DefinitionV>, b: Seq<DefinitionV>)
    requires
        a == b,
    ensures
        spec_document(a) == spec_document(b),
{
}

} // verus!
