//! Definition of a class constructor.
//!
//! A constructor is an implicit-receiver class-level method: it has no name
//! of its own, no documentation and no return annotation, and always receives
//! a synthesized class-bound first parameter.  A literal signature override,
//! where present, replaces the auto-rendered argument list; its line breaks
//! are normalized to single spaces so the override stays on one line.

use crate::dedup::{extend_unique, unique};
use crate::text::{double_indent, indent_unit, nl_to_space, newlines_to_spaces, spec_indent};
use crate::type_info::{
    append_args_lines, args_imports, args_view, collect_args_imports, dup_args, dup_opt_text,
    opt_text_view, refs_view, spec_args_lines, Arg, ArgV, ModuleRef, ModuleRefV,
};
use vstd::prelude::*;
use vstd::string::StringExecFns;

verus! {

/// Mathematical content of a [`NewDef`].
pub struct NewDefV {
    pub args: Seq<ArgV>,
    pub signature: Option<Seq<char>>,
}

/// Definition of a class constructor.
#[derive(Debug, Clone, PartialEq, Eq)]
pub struct NewDef {
    pub args: Vec<Arg>,
    pub signature: Option<String>,
}

impl View for NewDef {
    type V = NewDefV;

    open spec fn view(&self) -> NewDefV {
        NewDefV { args: args_view(self.args@), signature: opt_text_view(self.signature) }
    }
}

/// Raw fragment describing a constructor.
#[derive(Debug, Clone, PartialEq, Eq)]
pub struct NewInfo {
    pub args: Vec<Arg>,
    pub signature: Option<String>,
}

impl View for NewInfo {
    type V = NewDefV;

    open spec fn view(&self) -> NewDefV {
        NewDefV { args: args_view(self.args@), signature: opt_text_view(self.signature) }
    }
}

/// Every module reference the constructor requires, with duplicates kept.
pub open spec fn spec_new_imports(n: NewDefV) -> Seq<ModuleRefV> {
    args_imports(n.args)
}

/// The rendered constructor: header, synthesized class-bound receiver,
/// argument lines or the one-line override, and the placeholder body.
pub open spec fn spec_render_new(n: NewDefV) -> Seq<char> {
    spec_indent() + "def __new__(\n"@ + spec_indent() + spec_indent() + "cls,\n"@ + (match n.signature {
        Some(sig) => spec_indent() + spec_indent() + nl_to_space(sig) + "\n"@,
        None => spec_args_lines(n.args, spec_indent() + spec_indent()),
    }) + spec_indent() + "): ...\n"@
}

impl NewDef {
    /// Straight field mapping from the raw fragment.
    pub fn from_info(info: &NewInfo) -> (r: NewDef)
        ensures
            r@ == info@,
    {
        NewDef { args: dup_args(&info.args), signature: dup_opt_text(&info.signature) }
    }

    /// An equal constructor definition.
    pub fn duplicate(&self) -> (r: NewDef)
        ensures
            r@ == self@,
    {
        NewDef { args: dup_args(&self.args), signature: dup_opt_text(&self.signature) }
    }

    /// Folds every module reference this constructor requires into `acc`.
    pub fn collect_imports(&self, acc: &mut Vec<ModuleRef>)
        ensures
            refs_view(final(acc)@) == extend_unique(
                refs_view(old(acc)@),
                spec_new_imports(self@),
            ),
    {
        collect_args_imports(acc, &self.args);
    }

    /// The module references this constructor requires, deduplicated in
    /// first-seen order.
    pub fn import(&self) -> (r: Vec<ModuleRef>)
        ensures
            refs_view(r@) == unique(spec_new_imports(self@)),
    {
        let mut acc: Vec<ModuleRef> = Vec::new();
        proof {
            assert(refs_view(acc@) =~= Seq::<ModuleRefV>::empty());
        }
        self.collect_imports(&mut acc);
        acc
    }

    /// Appends the rendered constructor.
    pub fn render_into(&self, out: &mut String)
        ensures
            final(out)@ == old(out)@ + spec_render_new(self@),
    {
        out.append(indent_unit());
        out.append("def __new__(\n");
        out.append(double_indent());
        out.append("cls,\n");
        match &self.signature {
            Some(sig) => {
                out.append(double_indent());
                let joined = newlines_to_spaces(sig.as_str());
                out.append(joined.as_str());
                out.append("\n");
            },
            None => {
                append_args_lines(out, &self.args, double_indent());
            },
        }
        out.append(indent_unit());
        out.append("): ...\n");
        proof {
            assert(out@ =~= old(out)@ + spec_render_new(self@));
        }
    }

    /// The rendered constructor text.
    pub fn render(&self) -> (r: String)
        ensures
            r@ == spec_render_new(self@),
    {
        let mut out = String::new();
        self.render_into(&mut out);
        proof {
            assert(Seq::<char>::empty() + spec_render_new(self@) =~= spec_render_new(self@));
        }
        out
    }
}

} // verus!
