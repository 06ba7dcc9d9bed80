//! Extraction of tag attributes and element text from catalog lines.
//!
//! A line is scanned for an opening marker; the text up to the next closing
//! marker after it is the extracted value. `extract_id` reads the value of
//! an `id="..."` attribute, `extract_message` the text content between the
//! first `>` and the following `<`.

use vstd::prelude::*;
use crate::strfind::{find_first, find_sub, lemma_find_first};

verus! {

/// The text between the first occurrence of `opening` and the next
/// occurrence of `closing` after it, if both are present.
pub open spec fn between_spec(line: Seq<char>, opening: Seq<char>, closing: Seq<char>) -> Option<
    Seq<char>,
> {
    match find_first(line, opening) {
        None => None,
        Some(i) => {
            let start = i + opening.len();
            match find_first(line.subrange(start, line.len() as int), closing) {
                None => None,
                Some(j) => Some(line.subrange(start, start + j)),
            }
        },
    }
}

/// The value of the first `id="..."` attribute of the line.
pub open spec fn extract_id_spec(line: Seq<char>) -> Option<Seq<char>> {
    between_spec(line, "id=\""@, "\""@)
}

/// The text content after the first `>` of the line, up to the next `<`.
pub open spec fn extract_message_spec(line: Seq<char>) -> Option<Seq<char>> {
    between_spec(line, ">"@, "<"@)
}

/// The slice of `line` between the first `opening` marker and the next
/// `closing` marker after it.
fn extract_between<'a>(line: &'a str, opening: &str, closing: &str) -> (r: Option<&'a str>)
    ensures
        match r {
            Some(text) => between_spec(line@, opening@, closing@) == Some(text@),
            None => between_spec(line@, opening@, closing@) is None,
        },
{
    let n = line.unicode_len();
    let i = match find_sub(line, opening) {
        Some(i) => i,
        None => {
            return None;
        },
    };
    proof {
        lemma_find_first(line@, opening@);
    }
    let m = opening.unicode_len();
    let start = i + m;
    let rest = line.substring_char(start, n);
    let j = match find_sub(rest, closing) {
        Some(j) => j,
        None => {
            return None;
        },
    };
    proof {
        lemma_find_first(rest@, closing@);
    }
    Some(line.substring_char(start, start + j))
}

/// The value of the first `id="..."` attribute of the line.
pub fn extract_id<'a>(line: &'a str) -> (r: Option<&'a str>)
    ensures
        match r {
            Some(id) => extract_id_spec(line@) == Some(id@),
            None => extract_id_spec(line@) is None,
        },
{
    extract_between(line, "id=\"", "\"")
}

/// The text content after the first `>` of the line, up to the next `<`.
pub fn extract_message<'a>(line: &'a str) -> (r: Option<&'a str>)
    ensures
        match r {
            Some(text) => extract_message_spec(line@) == Some(text@),
            None => extract_message_spec(line@) is None,
        },
{
    extract_between(line, ">", "<")
}

} // verus!
