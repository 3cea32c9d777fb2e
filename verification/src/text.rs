//! Text primitives of the renderer: the indentation unit, whitespace
//! trimming, splitting documentation into lines, and the framing of
//! documentation lines inside a docstring block.
//!
//! Every executable function is specified against a spec function over
//! `Seq<char>`, so that callers can state the exact text they produce.

use vstd::prelude::*;
use vstd::string::StrSliceExecFns;
use vstd::string::StringExecFns;

verus! {

/// One indentation unit, applied cumulatively per nesting depth.
pub open spec fn spec_indent() -> Seq<char> {
    "    "@
}

/// The indentation unit as text.
pub fn indent_unit() -> (r: &'static str)
    ensures
        r@ == spec_indent(),
{
    "    "
}

/// Two indentation units, for the body of a method.
pub fn double_indent() -> (r: &'static str)
    ensures
        r@ == spec_indent() + spec_indent(),
{
    proof {
        reveal_strlit("    ");
        reveal_strlit("        ");
        assert("        "@ =~= spec_indent() + spec_indent());
    }
    "        "
}

/// The views of a vector of owned names.
pub open spec fn names_view(s: Seq<String>) -> Seq<Seq<char>> {
    s.map_values(|n: String| n@)
}

/// Whether the two names are equal text.
pub fn name_eq(a: &String, b: &String) -> (r: bool)
    ensures
        r == (a@ == b@),
{
    *a == *b
}

/// Whether `names` holds `n`.
pub fn contains_name(names: &Vec<String>, n: &String) -> (r: bool)
    ensures
        r == names_view(names@).contains(n@),
{
    let mut i: usize = 0;
    while i < names.len()
        invariant
            i <= names.len(),
            forall|k: int| 0 <= k < i ==> names_view(names@)[k] != n@,
        decreases names.len() - i,
    {
        if name_eq(&names[i], n) {
            proof {
                assert(names_view(names@)[i as int] == n@);
            }
            return true;
        }
        i = i + 1;
    }
    false
}

/// Appends `n` unless an equal name is already present.
pub fn push_name(names: &mut Vec<String>, n: &String)
    ensures
        names_view(final(names)@) == crate::dedup::insert_unique(names_view(old(names)@), n@),
{
    if !contains_name(names, n) {
        let ghost before = names_view(names@);
        names.push(n.clone());
        proof {
            assert(names_view(names@) =~= before.push(n@));
        }
    }
}

/// The characters stripped by trimming: blank space and line structure.
pub open spec fn is_space(c: char) -> bool {
    c == ' ' || c == '\n' || c == '\t' || c == '\r'
}

fn is_space_char(c: char) -> (r: bool)
    ensures
        r == is_space(c),
{
    c == ' ' || c == '\n' || c == '\t' || c == '\r'
}

/// `s` without its leading whitespace.
pub open spec fn trim_start(s: Seq<char>) -> Seq<char>
    decreases s.len(),
{
    if s.len() > 0 && is_space(s[0]) {
        trim_start(s.drop_first())
    } else {
        s
    }
}

/// `s` without its trailing whitespace.
pub open spec fn trim_end(s: Seq<char>) -> Seq<char>
    decreases s.len(),
{
    if s.len() > 0 && is_space(s[s.len() - 1]) {
        trim_end(s.drop_last())
    } else {
        s
    }
}

/// `s` without leading and trailing whitespace.
pub open spec fn spec_trim(s: Seq<char>) -> Seq<char> {
    trim_end(trim_start(s))
}

proof fn lemma_trim_start_at(s: Seq<char>, i: int)
    requires
        0 <= i <= s.len(),
        forall|k: int| 0 <= k < i ==> is_space(s[k]),
        i < s.len() ==> !is_space(s[i]),
    ensures
        trim_start(s) == s.subrange(i, s.len() as int),
    decreases i,
{
    if i == 0 {
        assert(s.subrange(0, s.len() as int) =~= s);
    } else {
        let t = s.drop_first();
        assert(forall|k: int| 0 <= k < i - 1 ==> is_space(#[trigger] t[k]));
        lemma_trim_start_at(t, i - 1);
        assert(t.subrange(i - 1, t.len() as int) =~= s.subrange(i, s.len() as int));
    }
}

proof fn lemma_trim_end_at(s: Seq<char>, j: int)
    requires
        0 <= j <= s.len(),
        forall|k: int| j <= k < s.len() ==> is_space(s[k]),
        j > 0 ==> !is_space(s[j - 1]),
    ensures
        trim_end(s) == s.subrange(0, j),
    decreases s.len() - j,
{
    if j == s.len() {
        if s.len() > 0 && is_space(s[s.len() - 1]) {
            assert(false);
        }
        assert(s.subrange(0, j) =~= s);
    } else {
        let t = s.drop_last();
        assert(is_space(s[s.len() - 1]));
        assert(forall|k: int| j <= k < t.len() ==> is_space(#[trigger] t[k]));
        lemma_trim_end_at(t, j);
        assert(t.subrange(0, j) =~= s.subrange(0, j));
    }
}

/// `s` with leading and trailing whitespace removed.
pub fn trim(s: &str) -> (r: String)
    ensures
        r@ == spec_trim(s@),
{
    let n = s.unicode_len();
    let mut i: usize = 0;
    loop
        invariant
            n == s@.len(),
            i <= n,
            forall|k: int| 0 <= k < i ==> is_space(s@[k]),
        ensures
            i <= n,
            forall|k: int| 0 <= k < i ==> is_space(s@[k]),
            i < n ==> !is_space(s@[i as int]),
        decreases n - i,
    {
        if i >= n {
            break ;
        }
        if !is_space_char(s.get_char(i)) {
            break ;
        }
        i = i + 1;
    }
    let mut j: usize = n;
    loop
        invariant
            n == s@.len(),
            i <= j <= n,
            forall|k: int| j <= k < n ==> is_space(s@[k]),
        ensures
            i <= j <= n,
            forall|k: int| j <= k < n ==> is_space(s@[k]),
            j > i ==> !is_space(s@[j - 1]),
        decreases j,
    {
        if j <= i {
            break ;
        }
        if !is_space_char(s.get_char(j - 1)) {
            break ;
        }
        j = j - 1;
    }
    let part = s.substring_char(i, j);
    proof {
        if i == j {
            // everything from i on is whitespace, so trimming ends at i
            lemma_trim_start_at(s@, i as int);
            lemma_trim_end_at(s@.subrange(i as int, n as int), 0);
        } else {
            lemma_trim_start_at(s@, i as int);
            lemma_trim_end_at(s@.subrange(i as int, n as int), j - i);
        }
        assert(s@.subrange(i as int, n as int).subrange(0, j - i) =~= s@.subrange(
            i as int,
            j as int,
        ));
    }
    part.to_owned()
}

/// Index of the first line break in `s`, or its length if there is none.
pub open spec fn line_break(s: Seq<char>) -> nat
    decreases s.len(),
{
    if s.len() == 0 {
        0
    } else if s[0] == '\n' {
        0
    } else {
        1 + line_break(s.drop_first())
    }
}

proof fn lemma_line_break_at(s: Seq<char>, j: int)
    requires
        0 <= j <= s.len(),
        forall|k: int| 0 <= k < j ==> s[k] != '\n',
        j < s.len() ==> s[j] == '\n',
    ensures
        line_break(s) == j,
    decreases j,
{
    if j == 0 {
    } else {
        let t = s.drop_first();
        assert(forall|k: int| 0 <= k < j - 1 ==> #[trigger] t[k] != '\n');
        lemma_line_break_at(t, j - 1);
    }
}

/// The lines of `s`: maximal runs between line breaks.  A trailing line
/// break closes the last line rather than opening an empty one, and empty
/// text has no lines.
pub open spec fn spec_lines(s: Seq<char>) -> Seq<Seq<char>>
    decreases s.len(),
{
    if s.len() == 0 {
        Seq::empty()
    } else {
        let b = line_break(s);
        if b >= s.len() {
            seq![s]
        } else {
            seq![s.subrange(0, b as int)] + spec_lines(
                s.subrange(b as int + 1, s.len() as int),
            )
        }
    }
}

/// The views of a sequence of owned lines.
pub open spec fn lines_view(v: Seq<String>) -> Seq<Seq<char>> {
    v.map_values(|l: String| l@)
}

/// Splits text into its lines.
#[verifier::loop_isolation(false)]
pub fn split_lines(s: &str) -> (r: Vec<String>)
    ensures
        lines_view(r@) == spec_lines(s@),
{
    let n = s.unicode_len();
    let mut r: Vec<String> = Vec::new();
    let mut start: usize = 0;
    let mut i: usize = 0;
    proof {
        assert(s@.subrange(0, n as int) =~= s@);
        assert(lines_view(r@) + spec_lines(s@) =~= spec_lines(s@));
    }
    while i < n
        invariant
            start <= i <= n,
            forall|k: int| start <= k < i ==> s@[k] != '\n',
            spec_lines(s@) == lines_view(r@) + spec_lines(s@.subrange(start as int, n as int)),
        decreases n - i,
    {
        if s.get_char(i) == '\n' {
            let line = s.substring_char(start, i).to_owned();
            proof {
                let rest = s@.subrange(start as int, n as int);
                assert(forall|k: int|
                    0 <= k < i - start ==> #[trigger] rest[k] != '\n');
                lemma_line_break_at(rest, i - start);
                assert(rest.subrange(0, i - start) =~= s@.subrange(start as int, i as int));
                assert(rest.subrange(i - start + 1, rest.len() as int) =~= s@.subrange(
                    i + 1,
                    n as int,
                ));
                assert(lines_view(r@.push(line)) =~= lines_view(r@).push(line@));
                assert(lines_view(r@) + (seq![line@] + spec_lines(
                    s@.subrange(i + 1, n as int),
                )) =~= lines_view(r@.push(line)) + spec_lines(s@.subrange(i + 1, n as int)));
            }
            r.push(line);
            start = i + 1;
        }
        i = i + 1;
    }
    if start < n {
        let line = s.substring_char(start, n).to_owned();
        proof {
            let rest = s@.subrange(start as int, n as int);
            assert(forall|k: int| 0 <= k < rest.len() ==> #[trigger] rest[k] != '\n');
            lemma_line_break_at(rest, rest.len() as int);
            assert(lines_view(r@.push(line)) =~= lines_view(r@).push(line@));
            assert(lines_view(r@) + seq![rest] =~= lines_view(r@.push(line)));
        }
        r.push(line);
    } else {
        proof {
            assert(s@.subrange(start as int, n as int).len() == 0);
            assert(lines_view(r@) + spec_lines(s@.subrange(start as int, n as int)) =~= lines_view(
                r@,
            ));
        }
    }
    r
}

/// `s` with every line break replaced by a single space.
pub open spec fn nl_to_space(s: Seq<char>) -> Seq<char> {
    s.map_values(|c: char| if c == '\n' { ' ' } else { c })
}

/// Replaces every line break of `s` by a single space.
#[verifier::loop_isolation(false)]
pub fn newlines_to_spaces(s: &str) -> (r: String)
    ensures
        r@ == nl_to_space(s@),
{
    let n = s.unicode_len();
    let mut r = String::new();
    let mut start: usize = 0;
    let mut i: usize = 0;
    while i < n
        invariant
            start <= i <= n,
            forall|k: int| start <= k < i ==> s@[k] != '\n',
            r@ == nl_to_space(s@.subrange(0, start as int)),
        decreases n - i,
    {
        if s.get_char(i) == '\n' {
            r.append(s.substring_char(start, i));
            r.append(" ");
            proof {
                reveal_strlit(" ");
                assert(r@ =~= nl_to_space(s@.subrange(0, i + 1)));
            }
            start = i + 1;
        }
        i = i + 1;
    }
    r.append(s.substring_char(start, n));
    proof {
        assert(r@ =~= nl_to_space(s@));
    }
    r
}

/// One rendered documentation line: indented and closed by a line break,
/// except that with `bare_blank` an empty line stays a bare line break.
pub open spec fn spec_doc_line(line: Seq<char>, ind: Seq<char>, bare_blank: bool) -> Seq<char> {
    if bare_blank && line.len() == 0 {
        "\n"@
    } else {
        ind + line + "\n"@
    }
}

/// The rendered documentation lines, in order.
pub open spec fn spec_doc_lines(lines: Seq<Seq<char>>, ind: Seq<char>, bare_blank: bool) -> Seq<
    char,
>
    decreases lines.len(),
{
    if lines.len() == 0 {
        Seq::empty()
    } else {
        spec_doc_lines(lines.drop_last(), ind, bare_blank) + spec_doc_line(
            lines.last(),
            ind,
            bare_blank,
        )
    }
}

/// Appends every line of `lines`, rendered as a documentation line under
/// indentation `ind`.
#[verifier::loop_isolation(false)]
pub fn append_doc_lines(out: &mut String, lines: &Vec<String>, ind: &str, bare_blank: bool)
    ensures
        final(out)@ == old(out)@ + spec_doc_lines(lines_view(lines@), ind@, bare_blank),
{
    let ghost lv = lines_view(lines@);
    let mut i: usize = 0;
    proof {
        assert(old(out)@ + spec_doc_lines(lv.take(0), ind@, bare_blank) =~= old(out)@);
    }
    while i < lines.len()
        invariant
            i <= lines.len(),
            out@ == old(out)@ + spec_doc_lines(lv.take(i as int), ind@, bare_blank),
        decreases lines.len() - i,
    {
        let line = &lines[i];
        if bare_blank && line.as_str().is_empty() {
            out.append("\n");
        } else {
            out.append(ind);
            out.append(line.as_str());
            out.append("\n");
        }
        proof {
            assert(lv.take(i + 1).drop_last() =~= lv.take(i as int));
            assert(lv.take(i + 1).last() == line@);
            assert(out@ =~= old(out)@ + spec_doc_lines(lv.take(i + 1), ind@, bare_blank));
        }
        i = i + 1;
    }
    proof {
        assert(lv.take(lines@.len() as int) =~= lv);
    }
}

} // verus!
