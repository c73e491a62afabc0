//! The marker rule: which lines carry an annotation, and what it says.

use vstd::prelude::*;

verus! {

/// Characters with the Unicode `White_Space` property.
pub open spec fn is_ws(c: char) -> bool {
    ('\u{9}' <= c && c <= '\u{d}') || c == ' ' || c == '\u{85}' || c == '\u{a0}' || c
        == '\u{1680}' || ('\u{2000}' <= c && c <= '\u{200a}') || c == '\u{2028}' || c
        == '\u{2029}' || c == '\u{202f}' || c == '\u{205f}' || c == '\u{3000}'
}

/// `s` without its leading whitespace.
pub open spec fn trim_start(s: Seq<char>) -> Seq<char>
    decreases s.len(),
{
    if s.len() > 0 && is_ws(s[0]) {
        trim_start(s.drop_first())
    } else {
        s
    }
}

/// `s` without its trailing whitespace.
pub open spec fn trim_end(s: Seq<char>) -> Seq<char>
    decreases s.len(),
{
    if s.len() > 0 && is_ws(s.last()) {
        trim_end(s.drop_last())
    } else {
        s
    }
}

/// `s` without surrounding whitespace.
pub open spec fn trim(s: Seq<char>) -> Seq<char> {
    trim_end(trim_start(s))
}

/// The literal marker `// TODO`.
pub open spec fn marker() -> Seq<char> {
    seq!['/', '/', ' ', 'T', 'O', 'D', 'O']
}

/// `s` without one leading colon, if it has one.
pub open spec fn drop_colon(s: Seq<char>) -> Seq<char> {
    if s.len() > 0 && s[0] == ':' {
        s.drop_first()
    } else {
        s
    }
}

/// A marker line is one that, ignoring leading whitespace, begins with the
/// marker.
pub open spec fn is_marker_line(line: Seq<char>) -> bool {
    marker().is_prefix_of(trim_start(line))
}

/// The annotation of a line: for a marker line, what follows the marker and
/// an optional colon, with surrounding whitespace removed; for any other
/// line, none.
pub open spec fn annotation(line: Seq<char>) -> Option<Seq<char>> {
    let t = trim(line);
    if marker().is_prefix_of(t) {
        Some(trim(drop_colon(t.skip(marker().len() as int))))
    } else {
        None
    }
}

proof fn lemma_trim_end_is_prefix(s: Seq<char>)
    ensures
        trim_end(s).is_prefix_of(s),
    decreases s.len(),
{
    if s.len() > 0 && is_ws(s.last()) {
        lemma_trim_end_is_prefix(s.drop_last());
        assert(trim_end(s.drop_last()) =~= s.subrange(0, trim_end(s).len() as int));
    } else {
        assert(s =~= s.subrange(0, s.len() as int));
    }
}

proof fn lemma_trim_end_keeps_prefix(p: Seq<char>, s: Seq<char>)
    requires
        p.len() > 0,
        p.is_prefix_of(s),
        !is_ws(p.last()),
    ensures
        p.is_prefix_of(trim_end(s)),
    decreases s.len(),
{
    if s.len() > 0 && is_ws(s.last()) {
        assert(s[p.len() - 1] == p.last());
        assert(p =~= s.drop_last().subrange(0, p.len() as int));
        lemma_trim_end_keeps_prefix(p, s.drop_last());
    }
}

/// A line that, ignoring leading whitespace, begins with the marker has an
/// annotation: the text after the marker and an optional colon, with
/// surrounding whitespace removed.
pub proof fn lemma_marker_line_annotation(line: Seq<char>)
    requires
        is_marker_line(line),
    ensures
        annotation(line) == Some(trim(drop_colon(trim(line).skip(marker().len() as int)))),
{
    lemma_trim_end_keeps_prefix(marker(), trim_start(line));
}

/// A line that does not begin with the marker after its leading whitespace
/// has no annotation, wherever else the marker may stand in it.
pub proof fn lemma_other_line_no_annotation(line: Seq<char>)
    requires
        !is_marker_line(line),
    ensures
        annotation(line) is None,
{
    let u = trim_start(line);
    lemma_trim_end_is_prefix(u);
    if marker().is_prefix_of(trim_end(u)) {
        assert(marker() =~= u.subrange(0, marker().len() as int));
    }
}

/// Relies on `str::trim`: the result is `s` without leading and trailing
/// characters that have the Unicode `White_Space` property.
#[verifier::external_body]
fn trim_str<'a>(s: &'a str) -> (r: &'a str)
    ensures
        r@ == trim(s@),
{
    s.trim()
}

/// Relies on `str::strip_prefix`: the rest of `s` after `prefix` when `s`
/// starts with `prefix`, and `None` otherwise.
#[verifier::external_body]
fn strip_prefix_str<'a>(s: &'a str, prefix: &str) -> (r: Option<&'a str>)
    ensures
        match r {
            Some(t) => prefix@.is_prefix_of(s@) && t@ == s@.skip(prefix@.len() as int),
            None => !prefix@.is_prefix_of(s@),
        },
{
    s.strip_prefix(prefix)
}

/// The annotation that `line` carries, if it is a marker line.
pub fn annotation_of_line(line: &str) -> (r: Option<String>)
    ensures
        match r {
            Some(a) => annotation(line@) == Some(a@),
            None => annotation(line@) is None,
        },
{
    let t = trim_str(line);
    proof {
        reveal_strlit("// TODO");
        reveal_strlit(":");
    }
    assert("// TODO"@ =~= marker());
    match strip_prefix_str(t, "// TODO") {
        None => None,
        Some(rest) => {
            assert(":"@ =~= seq![':']);
            let body = match strip_prefix_str(rest, ":") {
                Some(after) => {
                    assert(rest@[0] == ":"@[0]);
                    after
                },
                None => {
                    assert(rest@.len() > 0 && rest@[0] == ':' ==> ":"@ =~= rest@.subrange(0, 1));
                    rest
                },
            };
            assert(body@ =~= drop_colon(rest@));
            Some(trim_str(body).to_owned())
        },
    }
}

} // verus!
