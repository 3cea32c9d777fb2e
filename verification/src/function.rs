//! Definition of a free function.
//!
//! A function renders as a `def` header, an auto-rendered argument list (or
//! the literal signature override, verbatim), the return annotation, and
//! either a placeholder on the header line (empty documentation) or a
//! docstring block followed by the placeholder line.

use crate::dedup::{extend_unique, lemma_extend_unique_concat, unique};
use crate::text::{append_doc_lines, indent_unit, spec_doc_lines, spec_indent, spec_lines,
    split_lines};
use crate::type_info::{
    append_args_lines, args_imports, args_view, collect_args_imports, dup_args, dup_opt_text,
    extend_refs, opt_text_view, refs_view, spec_args_lines, Arg, ArgV, ModuleRef, ModuleRefV,
    TypeInfo, TypeInfoV,
};
use vstd::prelude::*;
use vstd::string::StringExecFns;

verus! {

/// Mathematical content of a [`FunctionDef`].
pub struct FunctionDefV {
    pub name: Seq<char>,
    pub args: Seq<ArgV>,
    pub ret: TypeInfoV,
    pub signature: Option<Seq<char>>,
    pub doc: Seq<char>,
}

/// Definition of a free function.
#[derive(Debug, Clone, PartialEq, Eq)]
pub struct FunctionDef {
    pub name: String,
    pub args: Vec<Arg>,
    pub ret: TypeInfo,
    pub signature: Option<String>,
    pub doc: String,
}

impl View for FunctionDef {
    type V = FunctionDefV;

    open spec fn view(&self) -> FunctionDefV {
        FunctionDefV {
            name: self.name@,
            args: args_view(self.args@),
            ret: self.ret@,
            signature: opt_text_view(self.signature),
            doc: self.doc@,
        }
    }
}

/// Raw fragment describing a free function, with its return type already
/// evaluated.
#[derive(Debug, Clone, PartialEq, Eq)]
pub struct PyFunctionInfo {
    pub name: String,
    pub args: Vec<Arg>,
    pub ret: TypeInfo,
    pub signature: Option<String>,
    pub doc: String,
}

impl View for PyFunctionInfo {
    type V = FunctionDefV;

    open spec fn view(&self) -> FunctionDefV {
        FunctionDefV {
            name: self.name@,
            args: args_view(self.args@),
            ret: self.ret@,
            signature: opt_text_view(self.signature),
            doc: self.doc@,
        }
    }
}

/// Every module reference the function requires: its return type's, then
/// each argument's, with duplicates kept.
pub open spec fn spec_function_imports(f: FunctionDefV) -> Seq<ModuleRefV> {
    f.ret.imports + args_imports(f.args)
}

/// The argument part of the rendered signature: empty in the zero-argument
/// case, else the override line or the auto-rendered argument lines.
pub open spec fn spec_function_args_block(f: FunctionDefV) -> Seq<char> {
    if f.args.len() > 0 {
        "\n"@ + (match f.signature {
            Some(sig) => spec_indent() + sig + "\n"@,
            None => spec_args_lines(f.args, spec_indent()),
        })
    } else {
        Seq::empty()
    }
}

/// The rendered signature, up to and including the colon.
pub open spec fn spec_function_header(f: FunctionDefV) -> Seq<char> {
    "def "@ + f.name + "("@ + spec_function_args_block(f) + ") -> "@ + f.ret.text + ":"@
}

/// The rendered body: the placeholder on the header line when there is no
/// documentation, else the docstring block followed by the placeholder line.
pub open spec fn spec_function_body(f: FunctionDefV) -> Seq<char> {
    if f.doc.len() == 0 {
        " ...\n"@
    } else {
        "\n"@ + spec_indent() + "r\"\"\"\n"@ + spec_doc_lines(
            spec_lines(f.doc),
            spec_indent(),
            false,
        ) + spec_indent() + "\"\"\"\n"@ + spec_indent() + "...\n"@ + "\n"@
    }
}

/// The rendered function text.
pub open spec fn spec_render_function(f: FunctionDefV) -> Seq<char> {
    spec_function_header(f) + spec_function_body(f)
}

/// Inline placeholder: a function with empty documentation renders its
/// placeholder on the same line as its signature, never on a separate line.
pub proof fn lemma_empty_doc_inline_placeholder(f: FunctionDefV)
    requires
        f.doc.len() == 0,
    ensures
        spec_render_function(f) == spec_function_header(f) + " ...\n"@,
{
}

impl FunctionDef {
    /// Straight field mapping from the raw fragment.
    pub fn from_info(info: &PyFunctionInfo) -> (r: FunctionDef)
        ensures
            r@ == info@,
    {
        FunctionDef {
            name: info.name.clone(),
            args: dup_args(&info.args),
            ret: info.ret.duplicate(),
            signature: dup_opt_text(&info.signature),
            doc: info.doc.clone(),
        }
    }

    /// An equal function definition.
    pub fn duplicate(&self) -> (r: FunctionDef)
        ensures
            r@ == self@,
    {
        FunctionDef {
            name: self.name.clone(),
            args: dup_args(&self.args),
            ret: self.ret.duplicate(),
            signature: dup_opt_text(&self.signature),
            doc: self.doc.clone(),
        }
    }

    /// Folds every module reference this function requires into `acc`.
    pub fn collect_imports(&self, acc: &mut Vec<ModuleRef>)
        ensures
            refs_view(final(acc)@) == extend_unique(
                refs_view(old(acc)@),
                spec_function_imports(self@),
            ),
    {
        extend_refs(acc, &self.ret.imports);
        collect_args_imports(acc, &self.args);
        proof {
            lemma_extend_unique_concat(
                refs_view(old(acc)@),
                self@.ret.imports,
                args_imports(self@.args),
            );
        }
    }

    /// The module references this function requires, deduplicated in
    /// first-seen order.
    pub fn import(&self) -> (r: Vec<ModuleRef>)
        ensures
            refs_view(r@) == unique(spec_function_imports(self@)),
    {
        let mut acc: Vec<ModuleRef> = Vec::new();
        proof {
            assert(refs_view(acc@) =~= Seq::<ModuleRefV>::empty());
        }
        self.collect_imports(&mut acc);
        acc
    }

    /// Appends the rendered function text.
    pub fn render_into(&self, out: &mut String)
        ensures
            final(out)@ == old(out)@ + spec_render_function(self@),
    {
        out.append("def ");
        out.append(self.name.as_str());
        out.append("(");
        if self.args.len() > 0 {
            out.append("\n");
            match &self.signature {
                Some(sig) => {
                    out.append(indent_unit());
                    out.append(sig.as_str());
                    out.append("\n");
                },
                None => {
                    append_args_lines(out, &self.args, indent_unit());
                },
            }
        }
        proof {
            assert(out@ =~= old(out)@ + ("def "@ + self@.name + "("@) + spec_function_args_block(
                self@,
            ));
        }
        out.append(") -> ");
        out.append(self.ret.text.as_str());
        out.append(":");
        proof {
            assert(out@ =~= old(out)@ + spec_function_header(self@));
        }
        if self.doc.as_str().is_empty() {
            out.append(" ...\n");
        } else {
            out.append("\n");
            out.append(indent_unit());
            out.append("r\"\"\"\n");
            let lines = split_lines(self.doc.as_str());
            append_doc_lines(out, &lines, indent_unit(), false);
            out.append(indent_unit());
            out.append("\"\"\"\n");
            out.append(indent_unit());
            out.append("...\n");
            out.append("\n");
        }
        proof {
            assert(out@ =~= old(out)@ + spec_function_header(self@) + spec_function_body(self@));
        }
    }

    /// The rendered function text.
    pub fn render(&self) -> (r: String)
        ensures
            r@ == spec_render_function(self@),
    {
        let mut out = String::new();
        self.render_into(&mut out);
        proof {
            assert(Seq::<char>::empty() + spec_render_function(self@) =~= spec_render_function(
                self@,
            ));
        }
        out
    }
}

} // verus!
