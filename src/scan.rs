//! Extraction of annotations from file contents, through grep's searcher.

use vstd::prelude::*;
use crate::marker::{annotation, annotation_of_line};
use grep::regex::RegexMatcher;
use grep::searcher::sinks::UTF8;
use grep::searcher::{BinaryDetection, SearcherBuilder};

verus! {

/// The regular expression that selects marker lines: the marker after
/// nothing but whitespace at the start of a line.
pub const MARKER_PATTERN: &'static str = "^\\s*// TODO";

/// The marker pattern as characters.
pub open spec fn marker_pattern() -> Seq<char> {
    MARKER_PATTERN@
}

/// The byte whose presence marks content as binary.
pub const BINARY_BYTE: u8 = 0;

/// What grep's line searcher reports for `pattern` over `content` when it
/// quits at `quit_byte`: the matching lines in order (each as handed to the
/// sink, line terminator included), or `None` when the pattern does not
/// compile or the search fails.
pub uninterp spec fn search_outcome(pattern: Seq<char>, quit_byte: u8, content: Seq<u8>) -> Option<
    Seq<Seq<char>>,
>;

/// Appends one reported line to `lines`.
fn push_line(lines: &mut Vec<String>, line: &str)
    ensures
        final(lines).deep_view() == old(lines).deep_view().push(line@),
{
    let ghost prev = lines.deep_view();
    lines.push(line.to_owned());
    assert(lines.deep_view() =~= prev.push(line@));
}

/// Relies on `RegexMatcher::new_line_matcher`, `SearcherBuilder` (quit on
/// `quit_byte`, line numbers on, as the UTF-8 sink needs) and
/// `Searcher::search_slice` with the `UTF8` sink: the lines of `content`
/// that match `pattern`, in order, or the error's text.
#[verifier::external_body]
fn search_lines(pattern: &str, quit_byte: u8, content: &[u8]) -> (r: Result<Vec<String>, String>)
    ensures
        match r {
            Ok(lines) => search_outcome(pattern@, quit_byte, content@) == Some(lines.deep_view()),
            Err(_) => search_outcome(pattern@, quit_byte, content@) is None,
        },
{
    let matcher = RegexMatcher::new_line_matcher(pattern).map_err(|e| e.to_string())?;
    let mut searcher = SearcherBuilder::new()
        .binary_detection(BinaryDetection::quit(quit_byte))
        .line_number(true)
        .build();
    let mut lines: Vec<String> = Vec::new();
    searcher.search_slice(&matcher, content, UTF8(|_lnum, line| {
        push_line(&mut lines, line);
        Ok(true)
    })).map_err(|e| e.to_string())?;
    Ok(lines)
}

/// The annotations of `lines`, in order, skipping lines that carry none.
pub open spec fn annotations(lines: Seq<Seq<char>>) -> Seq<Seq<char>>
    decreases lines.len(),
{
    if lines.len() == 0 {
        seq![]
    } else {
        let rest = annotations(lines.drop_last());
        match annotation(lines.last()) {
            Some(a) => rest.push(a),
            None => rest,
        }
    }
}

/// What one file adds to the annotation list: the annotations of the lines
/// that the search reports, or nothing when the search fails.
pub open spec fn file_annotations_of(content: Seq<u8>) -> Seq<Seq<char>> {
    match search_outcome(marker_pattern(), BINARY_BYTE, content) {
        Some(lines) => annotations(lines),
        None => seq![],
    }
}

/// The annotations that `lines` carry, in order.
pub fn annotations_of_lines(lines: &Vec<String>) -> (r: Vec<String>)
    ensures
        r.deep_view() == annotations(lines.deep_view()),
{
    let mut out: Vec<String> = Vec::new();
    let mut i: usize = 0;
    while i < lines.len()
        invariant
            i <= lines.len(),
            out.deep_view() == annotations(lines.deep_view().take(i as int)),
        decreases lines.len() - i,
    {
        assert(lines.deep_view().take(i + 1).drop_last() =~= lines.deep_view().take(i as int));
        match annotation_of_line(lines[i].as_str()) {
            Some(a) => {
                out.push(a);
            },
            None => {},
        }
        assert(out.deep_view() =~= annotations(lines.deep_view().take(i + 1)));
        i = i + 1;
    }
    assert(lines.deep_view().take(i as int) =~= lines.deep_view());
    out
}

/// Searches `content` for marker lines and returns their annotations in
/// line order; an error holds the search's message.
pub fn file_annotations(content: &[u8]) -> (r: Result<Vec<String>, String>)
    ensures
        r is Ok <==> search_outcome(marker_pattern(), BINARY_BYTE, content@) is Some,
        match r {
            Ok(v) => v.deep_view() == file_annotations_of(content@),
            Err(_) => search_outcome(marker_pattern(), BINARY_BYTE, content@) is None,
        },
{
    match search_lines(MARKER_PATTERN, BINARY_BYTE, content) {
        Ok(lines) => Ok(annotations_of_lines(&lines)),
        Err(e) => Err(e),
    }
}

/// Checks, before any file is searched, that the marker pattern compiles:
/// a search of empty content fails only when it does not.
pub fn check_marker_pattern() -> (r: Result<(), String>)
    ensures
        r is Ok <==> search_outcome(marker_pattern(), BINARY_BYTE, Seq::<u8>::empty()) is Some,
{
    let empty: Vec<u8> = Vec::new();
    assert(empty@ =~= Seq::<u8>::empty());
    match file_annotations(empty.as_slice()) {
        Ok(_) => Ok(()),
        Err(e) => Err(e),
    }
}

} // verus!
