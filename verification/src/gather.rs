//! The aggregator: collapses the full collection of class-descriptor
//! fragments and method-bearing fragments into exactly one finalized
//! [`ClassDef`] per distinct class name.
//!
//! Contributions are grouped by class name.  Within one name, members come
//! from every class-descriptor fragment in contribution order, methods come
//! from every method-bearing fragment in contribution order (duplicates are
//! kept, in the order contributed), the documentation comes from the first
//! class-descriptor fragment, and the first contributed constructor wins.
//! Merging is a superset union: no member, method or constructor
//! contribution is dropped, which `lemma_merge_completeness` states.

use crate::class::{opt_new_view, ClassDef, ClassDefV, PyClassInfo, PyClassInfoV};
use crate::dedup::{extend_unique, lemma_extend_unique_concat, unique};
use crate::method::{method_infos_view, methods_view, MethodDef, MethodDefV, MethodInfo};
use crate::new::{NewDef, NewDefV, NewInfo};
use crate::text::{name_eq, names_view, push_name};
use crate::type_info::{members_view, MemberDef, MemberV};
use vstd::prelude::*;

verus! {

/// The view of an optional constructor fragment.
pub open spec fn opt_new_info_view(o: Option<NewInfo>) -> Option<NewDefV> {
    match o {
        Some(n) => Some(n@),
        None => None,
    }
}

/// Mathematical content of a [`PyMethodsInfo`].
pub struct PyMethodsInfoV {
    pub class_name: Seq<char>,
    pub methods: Seq<MethodDefV>,
    pub new: Option<NewDefV>,
}

/// Raw fragment contributed by one method-bearing declaration site: the
/// owning class's name, the methods declared there, and optionally the
/// constructor.
#[derive(Debug, Clone, PartialEq, Eq)]
pub struct PyMethodsInfo {
    pub class_name: String,
    pub methods: Vec<MethodInfo>,
    pub new: Option<NewInfo>,
}

impl View for PyMethodsInfo {
    type V = PyMethodsInfoV;

    open spec fn view(&self) -> PyMethodsInfoV {
        PyMethodsInfoV {
            class_name: self.class_name@,
            methods: method_infos_view(self.methods@),
            new: opt_new_info_view(self.new),
        }
    }
}

/// The views of the class-descriptor fragments.
pub open spec fn class_infos_view(s: Seq<PyClassInfo>) -> Seq<PyClassInfoV> {
    s.map_values(|c: PyClassInfo| c@)
}

/// The views of the method-bearing fragments.
pub open spec fn methods_infos_view(s: Seq<PyMethodsInfo>) -> Seq<PyMethodsInfoV> {
    s.map_values(|m: PyMethodsInfo| m@)
}

/// The views of the finalized definitions.
pub open spec fn class_defs_view(s: Seq<ClassDef>) -> Seq<ClassDefV> {
    s.map_values(|c: ClassDef| c@)
}

/// The names of the class-descriptor fragments, in order.
pub open spec fn class_names(classes: Seq<PyClassInfoV>) -> Seq<Seq<char>> {
    classes.map_values(|c: PyClassInfoV| c.name)
}

/// The owning class names of the method-bearing fragments, in order.
pub open spec fn owner_names(minfos: Seq<PyMethodsInfoV>) -> Seq<Seq<char>> {
    minfos.map_values(|m: PyMethodsInfoV| m.class_name)
}

/// Every distinct contributed class name, in first-seen order:
/// class-descriptor contributions first, then method-bearing ones.
pub open spec fn gather_names(classes: Seq<PyClassInfoV>, minfos: Seq<PyMethodsInfoV>) -> Seq<
    Seq<char>,
> {
    unique(class_names(classes) + owner_names(minfos))
}

/// Every member contributed for `name`, in contribution order.
pub open spec fn members_for(classes: Seq<PyClassInfoV>, name: Seq<char>) -> Seq<MemberV>
    decreases classes.len(),
{
    if classes.len() == 0 {
        Seq::empty()
    } else {
        members_for(classes.drop_last(), name) + (if classes.last().name == name {
            classes.last().members
        } else {
            Seq::empty()
        })
    }
}

/// Every method contributed for `name`, in contribution order.
pub open spec fn methods_for(minfos: Seq<PyMethodsInfoV>, name: Seq<char>) -> Seq<MethodDefV>
    decreases minfos.len(),
{
    if minfos.len() == 0 {
        Seq::empty()
    } else {
        methods_for(minfos.drop_last(), name) + (if minfos.last().class_name == name {
            minfos.last().methods
        } else {
            Seq::empty()
        })
    }
}

/// Whether some class-descriptor fragment contributes to `name`.
pub open spec fn has_class(classes: Seq<PyClassInfoV>, name: Seq<char>) -> bool {
    exists|k: int| 0 <= k < classes.len() && classes[k].name == name
}

/// The documentation of the first class-descriptor fragment for `name`,
/// empty if there is none.
pub open spec fn doc_for(classes: Seq<PyClassInfoV>, name: Seq<char>) -> Seq<char>
    decreases classes.len(),
{
    if classes.len() == 0 {
        Seq::empty()
    } else if classes[0].name == name {
        classes[0].doc
    } else {
        doc_for(classes.drop_first(), name)
    }
}

/// Whether some method-bearing fragment contributes a constructor for `name`.
pub open spec fn has_new(minfos: Seq<PyMethodsInfoV>, name: Seq<char>) -> bool {
    exists|k: int| 0 <= k < minfos.len() && minfos[k].class_name == name && minfos[k].new is Some
}

/// The first constructor contributed for `name`, if any.
pub open spec fn new_for(minfos: Seq<PyMethodsInfoV>, name: Seq<char>) -> Option<NewDefV>
    decreases minfos.len(),
{
    if minfos.len() == 0 {
        None
    } else if minfos[0].class_name == name && minfos[0].new is Some {
        minfos[0].new
    } else {
        new_for(minfos.drop_first(), name)
    }
}

proof fn lemma_has_class_push(s: Seq<PyClassInfoV>, c: PyClassInfoV, name: Seq<char>)
    ensures
        has_class(s.push(c), name) <==> has_class(s, name) || c.name == name,
{
    if has_class(s, name) {
        let k = choose|k: int| 0 <= k < s.len() && s[k].name == name;
        assert(s.push(c)[k].name == name);
    }
    if c.name == name {
        assert(s.push(c)[s.len() as int].name == name);
    }
    if has_class(s.push(c), name) {
        let k = choose|k: int| 0 <= k < s.push(c).len() && s.push(c)[k].name == name;
        if k < s.len() {
            assert(s[k].name == name);
        }
    }
}

proof fn lemma_doc_for_push(s: Seq<PyClassInfoV>, c: PyClassInfoV, name: Seq<char>)
    ensures
        doc_for(s.push(c), name) == (if has_class(s, name) {
            doc_for(s, name)
        } else if c.name == name {
            c.doc
        } else {
            doc_for(s, name)
        }),
    decreases s.len(),
{
    if s.len() == 0 {
        assert(s.push(c)[0] == c);
        assert(s.push(c).drop_first() =~= Seq::<PyClassInfoV>::empty());
        assert(!has_class(s, name));
        assert(doc_for(s, name) == Seq::<char>::empty());
        if c.name == name {
            assert(doc_for(s.push(c), name) == c.doc);
        } else {
            assert(doc_for(s.push(c), name) == doc_for(Seq::<PyClassInfoV>::empty(), name));
        }
    } else {
        assert(s.push(c)[0] == s[0]);
        assert(s.push(c).drop_first() =~= s.drop_first().push(c));
        assert(doc_for(s.push(c).drop_first(), name) == doc_for(s.drop_first().push(c), name));
        lemma_doc_for_push(s.drop_first(), c, name);
        if s[0].name == name {
            assert(0 <= 0 < s.len() && s[0].name == name);
            assert(has_class(s, name));
        } else {
            assert(has_class(s, name) <==> has_class(s.drop_first(), name)) by {
                if has_class(s, name) {
                    let k = choose|k: int| 0 <= k < s.len() && s[k].name == name;
                    assert(k > 0);
                    assert(s.drop_first()[k - 1].name == name);
                }
                if has_class(s.drop_first(), name) {
                    let k = choose|k: int|
                        0 <= k < s.drop_first().len() && s.drop_first()[k].name == name;
                    assert(s[k + 1].name == name);
                }
            }
        }
    }
}

proof fn lemma_has_new_push(s: Seq<PyMethodsInfoV>, m: PyMethodsInfoV, name: Seq<char>)
    ensures
        has_new(s.push(m), name) <==> has_new(s, name) || (m.class_name == name && m.new is Some),
{
    if has_new(s, name) {
        let k = choose|k: int| 0 <= k < s.len() && s[k].class_name == name && s[k].new is Some;
        assert(s.push(m)[k] == s[k]);
    }
    if m.class_name == name && m.new is Some {
        assert(s.push(m)[s.len() as int] == m);
    }
    if has_new(s.push(m), name) {
        let k = choose|k: int|
            0 <= k < s.push(m).len() && s.push(m)[k].class_name == name && s.push(m)[k].new
                is Some;
        if k < s.len() {
            assert(s[k] == s.push(m)[k]);
        }
    }
}

proof fn lemma_new_for_push(s: Seq<PyMethodsInfoV>, m: PyMethodsInfoV, name: Seq<char>)
    ensures
        new_for(s.push(m), name) == (if has_new(s, name) {
            new_for(s, name)
        } else if m.class_name == name && m.new is Some {
            m.new
        } else {
            new_for(s, name)
        }),
    decreases s.len(),
{
    if s.len() == 0 {
        assert(s.push(m)[0] == m);
        assert(s.push(m).drop_first() =~= Seq::<PyMethodsInfoV>::empty());
        assert(!has_new(s, name));
        if m.class_name == name && m.new is Some {
            assert(new_for(s.push(m), name) == m.new);
        } else {
            assert(new_for(s.push(m), name) == new_for(Seq::<PyMethodsInfoV>::empty(), name));
        }
    } else {
        assert(s.push(m)[0] == s[0]);
        assert(s.push(m).drop_first() =~= s.drop_first().push(m));
        assert(new_for(s.push(m).drop_first(), name) == new_for(s.drop_first().push(m), name));
        lemma_new_for_push(s.drop_first(), m, name);
        if s[0].class_name == name && s[0].new is Some {
            assert(0 <= 0 < s.len() && s[0].class_name == name && s[0].new is Some);
            assert(has_new(s, name));
        } else {
            assert(has_new(s, name) <==> has_new(s.drop_first(), name)) by {
                if has_new(s, name) {
                    let k = choose|k: int|
                        0 <= k < s.len() && s[k].class_name == name && s[k].new is Some;
                    assert(k > 0);
                    assert(s.drop_first()[k - 1] == s[k]);
                }
                if has_new(s.drop_first(), name) {
                    let k = choose|k: int|
                        0 <= k < s.drop_first().len() && s.drop_first()[k].class_name == name
                            && s.drop_first()[k].new is Some;
                    assert(s[k + 1] == s.drop_first()[k]);
                }
            }
        }
    }
}

/// Every distinct contributed class name, in first-seen order.
#[verifier::loop_isolation(false)]
fn collect_names(classes: &Vec<PyClassInfo>, minfos: &Vec<PyMethodsInfo>) -> (r: Vec<String>)
    ensures
        names_view(r@) == gather_names(class_infos_view(classes@), methods_infos_view(minfos@)),
{
    let ghost cn = class_names(class_infos_view(classes@));
    let ghost mn = owner_names(methods_infos_view(minfos@));
    let mut names: Vec<String> = Vec::new();
    let mut i: usize = 0;
    proof {
        assert(names_view(names@) =~= Seq::<Seq<char>>::empty());
        assert(extend_unique(Seq::<Seq<char>>::empty(), cn.take(0)) =~= Seq::<Seq<char>>::empty());
    }
    while i < classes.len()
        invariant
            i <= classes.len(),
            names_view(names@) == extend_unique(Seq::<Seq<char>>::empty(), cn.take(i as int)),
        decreases classes.len() - i,
    {
        push_name(&mut names, &classes[i].name);
        proof {
            assert(cn.take(i + 1).drop_last() =~= cn.take(i as int));
            assert(cn.take(i + 1).last() == cn[i as int]);
            assert(cn[i as int] == classes[i as int]@.name);
        }
        i = i + 1;
    }
    proof {
        assert(cn.take(classes@.len() as int) =~= cn);
    }
    let mut j: usize = 0;
    while j < minfos.len()
        invariant
            j <= minfos.len(),
            names_view(names@) == extend_unique(
                extend_unique(Seq::<Seq<char>>::empty(), cn),
                mn.take(j as int),
            ),
        decreases minfos.len() - j,
    {
        push_name(&mut names, &minfos[j].class_name);
        proof {
            assert(mn.take(j + 1).drop_last() =~= mn.take(j as int));
            assert(mn.take(j + 1).last() == mn[j as int]);
            assert(mn[j as int] == minfos[j as int]@.class_name);
        }
        j = j + 1;
    }
    proof {
        assert(mn.take(minfos@.len() as int) =~= mn);
        lemma_extend_unique_concat(Seq::<Seq<char>>::empty(), cn, mn);
    }
    names
}

/// Every member contributed for `name`, converted, in contribution order.
#[verifier::loop_isolation(false)]
fn collect_members(classes: &Vec<PyClassInfo>, name: &String) -> (r: Vec<MemberDef>)
    ensures
        members_view(r@) == members_for(class_infos_view(classes@), name@),
{
    let ghost cv = class_infos_view(classes@);
    let mut r: Vec<MemberDef> = Vec::new();
    let mut i: usize = 0;
    proof {
        assert(members_view(r@) =~= Seq::<MemberV>::empty());
    }
    while i < classes.len()
        invariant
            i <= classes.len(),
            members_view(r@) == members_for(cv.take(i as int), name@),
        decreases classes.len() - i,
    {
        let ghost before = members_view(r@);
        if name_eq(&classes[i].name, name) {
            let mut conv = crate::class::members_from_infos(&classes[i].members);
            r.append(&mut conv);
            proof {
                assert(members_view(r@) =~= before + cv[i as int].members);
            }
        }
        proof {
            assert(cv.take(i + 1).drop_last() =~= cv.take(i as int));
            assert(cv.take(i + 1).last() == cv[i as int]);
            if cv[i as int].name != name@ {
                assert(members_view(r@) =~= members_for(cv.take(i as int), name@)
                    + Seq::<MemberV>::empty());
            }
        }
        i = i + 1;
    }
    proof {
        assert(cv.take(classes@.len() as int) =~= cv);
    }
    r
}

/// Converts every method fragment, preserving order.
#[verifier::loop_isolation(false)]
pub fn methods_from_infos(infos: &Vec<MethodInfo>) -> (r: Vec<MethodDef>)
    ensures
        methods_view(r@) == method_infos_view(infos@),
{
    let ghost iv = method_infos_view(infos@);
    let mut r: Vec<MethodDef> = Vec::new();
    let mut i: usize = 0;
    while i < infos.len()
        invariant
            i <= infos.len(),
            methods_view(r@) == iv.take(i as int),
        decreases infos.len() - i,
    {
        let m = MethodDef::from_info(&infos[i]);
        proof {
            assert(m@ == iv[i as int]);
        }
        r.push(m);
        proof {
            assert(methods_view(r@) =~= iv.take(i + 1));
        }
        i = i + 1;
    }
    proof {
        assert(iv.take(infos@.len() as int) =~= iv);
    }
    r
}

/// Every method contributed for `name`, converted, in contribution order.
#[verifier::loop_isolation(false)]
fn collect_methods(minfos: &Vec<PyMethodsInfo>, name: &String) -> (r: Vec<MethodDef>)
    ensures
        methods_view(r@) == methods_for(methods_infos_view(minfos@), name@),
{
    let ghost mv = methods_infos_view(minfos@);
    let mut r: Vec<MethodDef> = Vec::new();
    let mut i: usize = 0;
    proof {
        assert(methods_view(r@) =~= Seq::<MethodDefV>::empty());
    }
    while i < minfos.len()
        invariant
            i <= minfos.len(),
            methods_view(r@) == methods_for(mv.take(i as int), name@),
        decreases minfos.len() - i,
    {
        let ghost before = methods_view(r@);
        if name_eq(&minfos[i].class_name, name) {
            let mut conv = methods_from_infos(&minfos[i].methods);
            r.append(&mut conv);
            proof {
                assert(methods_view(r@) =~= before + mv[i as int].methods);
            }
        }
        proof {
            assert(mv.take(i + 1).drop_last() =~= mv.take(i as int));
            assert(mv.take(i + 1).last() == mv[i as int]);
            if mv[i as int].class_name != name@ {
                assert(methods_view(r@) =~= methods_for(mv.take(i as int), name@)
                    + Seq::<MethodDefV>::empty());
            }
        }
        i = i + 1;
    }
    proof {
        assert(mv.take(minfos@.len() as int) =~= mv);
    }
    r
}

/// The documentation of the first class-descriptor fragment for `name`.
#[verifier::loop_isolation(false)]
fn collect_doc(classes: &Vec<PyClassInfo>, name: &String) -> (r: String)
    ensures
        r@ == doc_for(class_infos_view(classes@), name@),
{
    let ghost cv = class_infos_view(classes@);
    let mut doc = String::new();
    let mut found = false;
    let mut i: usize = 0;
    while i < classes.len()
        invariant
            i <= classes.len(),
            found == has_class(cv.take(i as int), name@),
            doc@ == doc_for(cv.take(i as int), name@),
        decreases classes.len() - i,
    {
        proof {
            assert(cv.take(i + 1) =~= cv.take(i as int).push(cv[i as int]));
            lemma_has_class_push(cv.take(i as int), cv[i as int], name@);
            lemma_doc_for_push(cv.take(i as int), cv[i as int], name@);
        }
        if !found && name_eq(&classes[i].name, name) {
            doc = classes[i].doc.clone();
            found = true;
        }
        i = i + 1;
    }
    proof {
        assert(cv.take(classes@.len() as int) =~= cv);
    }
    doc
}

/// The first constructor contributed for `name`, converted, if any.
#[verifier::loop_isolation(false)]
fn collect_new(minfos: &Vec<PyMethodsInfo>, name: &String) -> (r: Option<NewDef>)
    ensures
        opt_new_view(r) == new_for(methods_infos_view(minfos@), name@),
{
    let ghost mv = methods_infos_view(minfos@);
    let mut r: Option<NewDef> = None;
    let mut found = false;
    let mut i: usize = 0;
    while i < minfos.len()
        invariant
            i <= minfos.len(),
            found == has_new(mv.take(i as int), name@),
            opt_new_view(r) == new_for(mv.take(i as int), name@),
        decreases minfos.len() - i,
    {
        proof {
            assert(mv.take(i + 1) =~= mv.take(i as int).push(mv[i as int]));
            lemma_has_new_push(mv.take(i as int), mv[i as int], name@);
            lemma_new_for_push(mv.take(i as int), mv[i as int], name@);
        }
        if !found && name_eq(&minfos[i].class_name, name) {
            match &minfos[i].new {
                Some(n) => {
                    r = Some(NewDef::from_info(n));
                    found = true;
                },
                None => (),
            }
        }
        i = i + 1;
    }
    proof {
        assert(mv.take(minfos@.len() as int) =~= mv);
    }
    r
}

/// Collapses all contributions into one finalized definition per distinct
/// class name, in first-seen order of the names.  For each name, the merged
/// definition carries the union of every contribution: all contributed
/// members and methods in contribution order, the documentation of the
/// first class-descriptor fragment, and the first contributed constructor.
#[verifier::loop_isolation(false)]
pub fn gather(classes: &Vec<PyClassInfo>, minfos: &Vec<PyMethodsInfo>) -> (r: Vec<ClassDef>)
    ensures
        ({
            let cv = class_infos_view(classes@);
            let mv = methods_infos_view(minfos@);
            let ns = gather_names(cv, mv);
            &&& crate::dedup::distinct(ns)
            &&& class_defs_view(r@).len() == ns.len()
            &&& forall|k: int|
                0 <= k < ns.len() ==> {
                    let c = #[trigger] class_defs_view(r@)[k];
                    &&& c.name == ns[k]
                    &&& c.doc == doc_for(cv, ns[k])
                    &&& c.members == members_for(cv, ns[k])
                    &&& c.new == new_for(mv, ns[k])
                    &&& c.methods == methods_for(mv, ns[k])
                }
        }),
{
    let ghost cv = class_infos_view(classes@);
    let ghost mv = methods_infos_view(minfos@);
    let ghost ns = gather_names(cv, mv);
    proof {
        crate::dedup::lemma_extend_unique_distinct(
            Seq::<Seq<char>>::empty(),
            class_names(cv) + owner_names(mv),
        );
    }
    let names = collect_names(classes, minfos);
    let mut r: Vec<ClassDef> = Vec::new();
    let mut k: usize = 0;
    while k < names.len()
        invariant
            k <= names.len(),
            names_view(names@) == ns,
            class_defs_view(r@).len() == k,
            forall|j: int|
                0 <= j < k ==> {
                    let c = #[trigger] class_defs_view(r@)[j];
                    &&& c.name == ns[j]
                    &&& c.doc == doc_for(cv, ns[j])
                    &&& c.members == members_for(cv, ns[j])
                    &&& c.new == new_for(mv, ns[j])
                    &&& c.methods == methods_for(mv, ns[j])
                },
        decreases names.len() - k,
    {
        let name = &names[k];
        let def = ClassDef {
            name: name.clone(),
            doc: collect_doc(classes, name),
            new: collect_new(minfos, name),
            members: collect_members(classes, name),
            methods: collect_methods(minfos, name),
        };
        proof {
            assert(name@ == ns[k as int]);
            assert(def@.name == ns[k as int]);
        }
        let ghost before = class_defs_view(r@);
        r.push(def);
        proof {
            assert(class_defs_view(r@) =~= before.push(def@));
        }
        k = k + 1;
    }
    r
}

/// Number of members contributed for `name` across all fragments.
pub open spec fn contributed_members(classes: Seq<PyClassInfoV>, name: Seq<char>) -> nat
    decreases classes.len(),
{
    if classes.len() == 0 {
        0
    } else {
        contributed_members(classes.drop_last(), name) + (if classes.last().name == name {
            classes.last().members.len()
        } else {
            0
        })
    }
}

/// Number of methods contributed for `name` across all fragments.
pub open spec fn contributed_methods(minfos: Seq<PyMethodsInfoV>, name: Seq<char>) -> nat
    decreases minfos.len(),
{
    if minfos.len() == 0 {
        0
    } else {
        contributed_methods(minfos.drop_last(), name) + (if minfos.last().class_name == name {
            minfos.last().methods.len()
        } else {
            0
        })
    }
}

/// Merge completeness: for any class name, the merged definition's member
/// count and method count equal the sums of what every fragment contributed
/// for that name, and it carries a constructor exactly when some fragment
/// contributed one.  Nothing is silently dropped.
pub proof fn lemma_merge_completeness(
    classes: Seq<PyClassInfoV>,
    minfos: Seq<PyMethodsInfoV>,
    name: Seq<char>,
)
    ensures
        members_for(classes, name).len() == contributed_members(classes, name),
        methods_for(minfos, name).len() == contributed_methods(minfos, name),
        new_for(minfos, name) is Some <==> has_new(minfos, name),
    decreases classes.len() + minfos.len(),
{
    if classes.len() > 0 {
        lemma_merge_completeness(classes.drop_last(), minfos, name);
    } else if minfos.len() > 0 {
        lemma_merge_completeness(classes, minfos.drop_last(), name);
        lemma_new_for_push(minfos.drop_last(), minfos.last(), name);
        assert(minfos.drop_last().push(minfos.last()) =~= minfos);
        lemma_has_new_push(minfos.drop_last(), minfos.last(), name);
    }
}

} // verus!
