//! Splitting a string at every occurrence of a separator.
//!
//! The pieces between consecutive, leftmost-first occurrences of the
//! separator are kept, the separators themselves are dropped; a string
//! without the separator yields itself as the single piece.

use vstd::prelude::*;
use crate::strfind::{find_first, find_sub, lemma_find_first};

verus! {

/// The pieces of `s` between consecutive occurrences of `sep`.
pub open spec fn split_spec(s: Seq<char>, sep: Seq<char>) -> Seq<Seq<char>>
    decreases s.len(),
        when sep.len() >= 1
        via split_spec_decreases
{
    match find_first(s, sep) {
        None => seq![s],
        Some(i) => seq![s.subrange(0, i)] + split_spec(
            s.subrange(i + sep.len(), s.len() as int),
            sep,
        ),
    }
}

#[via_fn]
proof fn split_spec_decreases(s: Seq<char>, sep: Seq<char>) {
    lemma_find_first(s, sep);
}

/// Appends the pieces of `s` to `parts`.
fn split_push(s: &str, sep: &str, parts: &mut Vec<String>)
    requires
        sep@.len() >= 1,
    ensures
        final(parts).deep_view() == old(parts).deep_view() + split_spec(s@, sep@),
    decreases s@.len(),
{
    let ghost pre = parts.deep_view();
    match find_sub(s, sep) {
        None => {
            parts.push(s.to_owned());
            assert(parts.deep_view() =~= pre + split_spec(s@, sep@));
        },
        Some(i) => {
            proof {
                lemma_find_first(s@, sep@);
            }
            let n = s.unicode_len();
            let m = sep.unicode_len();
            let piece = s.substring_char(0, i);
            parts.push(piece.to_owned());
            assert(parts.deep_view() =~= pre.push(s@.subrange(0, i as int)));
            let rest = s.substring_char(i + m, n);
            split_push(rest, sep, parts);
            assert(parts.deep_view() =~= pre + split_spec(s@, sep@));
        },
    }
}

/// The pieces of `s` between consecutive occurrences of `sep`.
pub fn split_by(s: &str, sep: &str) -> (parts: Vec<String>)
    requires
        sep@.len() >= 1,
    ensures
        parts.deep_view() == split_spec(s@, sep@),
{
    let mut parts: Vec<String> = Vec::new();
    split_push(s, sep, &mut parts);
    assert(parts.deep_view() =~= split_spec(s@, sep@));
    parts
}

} // verus!
