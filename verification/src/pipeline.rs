//! The three filter passes over the classified resource files.
//!
//! The first pass collects the `id="..."` values of catalog lines that
//! contain the search string. The second splits an English-locale catalog
//! at `<translation` and extracts the element text of every piece that
//! contains one of the collected ids. The third splits a resource
//! definition at `<message` and keeps every piece that contains one of the
//! extracted message texts.

use vstd::prelude::*;
use crate::extract::{extract_id, extract_id_spec, extract_message, extract_message_spec};
use crate::split::{split_by, split_spec};
use crate::strfind::{contains_seq, contains_sub};

verus! {

/// The ids contributed by one catalog line: the extracted id, where the
/// line contains the search string and carries an id attribute.
pub open spec fn line_ids(line: Seq<char>, search: Seq<char>) -> Seq<Seq<char>> {
    if contains_seq(line, search) {
        match extract_id_spec(line) {
            Some(id) => seq![id],
            None => Seq::empty(),
        }
    } else {
        Seq::empty()
    }
}

/// The ids collected over a catalog's lines, in line order.
pub open spec fn ids_of_lines(lines: Seq<Seq<char>>, search: Seq<char>) -> Seq<Seq<char>>
    decreases lines.len(),
{
    if lines.len() == 0 {
        Seq::empty()
    } else {
        ids_of_lines(lines.drop_last(), search) + line_ids(lines.last(), search)
    }
}

/// One of the needles occurs in `item`.
pub open spec fn contains_any_spec(item: Seq<char>, needles: Seq<Seq<char>>) -> bool {
    exists|k: int| 0 <= k < needles.len() && contains_seq(item, needles[k])
}

/// The message texts contributed by one `<translation` piece: its element
/// text, where the piece contains one of the ids.
pub open spec fn item_messages(item: Seq<char>, ids: Seq<Seq<char>>) -> Seq<Seq<char>> {
    if contains_any_spec(item, ids) {
        match extract_message_spec(item) {
            Some(text) => seq![text],
            None => Seq::empty(),
        }
    } else {
        Seq::empty()
    }
}

/// The message texts collected over the pieces, in piece order.
pub open spec fn messages_of_items(items: Seq<Seq<char>>, ids: Seq<Seq<char>>) -> Seq<Seq<char>>
    decreases items.len(),
{
    if items.len() == 0 {
        Seq::empty()
    } else {
        messages_of_items(items.drop_last(), ids) + item_messages(items.last(), ids)
    }
}

/// The message texts of a catalog: the catalog is split at `<translation`,
/// and each piece that contains one of the ids contributes its element text.
pub open spec fn messages_of_content(content: Seq<char>, ids: Seq<Seq<char>>) -> Seq<Seq<char>> {
    messages_of_items(split_spec(content, "<translation"@), ids)
}

/// The pieces that contain one of the needles, in piece order.
pub open spec fn matching_items(items: Seq<Seq<char>>, needles: Seq<Seq<char>>) -> Seq<Seq<char>>
    decreases items.len(),
{
    if items.len() == 0 {
        Seq::empty()
    } else {
        matching_items(items.drop_last(), needles) + (if contains_any_spec(
            items.last(),
            needles,
        ) {
            seq![items.last()]
        } else {
            Seq::empty()
        })
    }
}

/// The `<message` pieces of a resource definition that contain one of the
/// message texts.
pub open spec fn message_items_of_content(content: Seq<char>, messages: Seq<Seq<char>>) -> Seq<
    Seq<char>,
> {
    matching_items(split_spec(content, "<message"@), messages)
}

/// Whether one of the needles occurs in `item`.
pub fn contains_any(item: &str, needles: &Vec<String>) -> (r: bool)
    ensures
        r == contains_any_spec(item@, needles.deep_view()),
{
    let mut k: usize = 0;
    while k < needles.len()
        invariant
            k <= needles@.len(),
            forall|j: int| 0 <= j < k ==> !contains_seq(item@, needles.deep_view()[j]),
        decreases needles@.len() - k,
    {
        if contains_sub(item, needles[k].as_str()) {
            assert(contains_seq(item@, needles.deep_view()[k as int]));
            return true;
        }
        k += 1;
    }
    false
}

/// The `id="..."` values of the catalog lines that contain the search
/// string, in line order.
pub fn ids_from_lines(lines: &Vec<String>, search: &str) -> (ids: Vec<String>)
    ensures
        ids.deep_view() == ids_of_lines(lines.deep_view(), search@),
{
    let mut ids: Vec<String> = Vec::new();
    let mut k: usize = 0;
    while k < lines.len()
        invariant
            k <= lines@.len(),
            ids.deep_view() == ids_of_lines(lines.deep_view().take(k as int), search@),
        decreases lines@.len() - k,
    {
        let line = lines[k].as_str();
        assert(line@ == lines.deep_view()[k as int]);
        let ghost pre = ids.deep_view();
        if contains_sub(line, search) {
            match extract_id(line) {
                Some(id) => {
                    ids.push(id.to_owned());
                    assert(ids.deep_view() =~= pre.push(id@));
                },
                None => {},
            }
        }
        proof {
            let dv = lines.deep_view();
            assert(dv.take(k as int + 1).drop_last() =~= dv.take(k as int));
            assert(dv.take(k as int + 1).last() == dv[k as int]);
            assert(ids.deep_view() =~= pre + line_ids(dv[k as int], search@));
        }
        k += 1;
    }
    proof {
        assert(lines.deep_view().take(lines@.len() as int) =~= lines.deep_view());
    }
    ids
}

/// The message texts of an English-locale catalog: the pieces of the
/// catalog split at `<translation` that contain one of the ids each
/// contribute their element text, in piece order.
pub fn messages_from_content(content: &str, ids: &Vec<String>) -> (msgs: Vec<String>)
    ensures
        msgs.deep_view() == messages_of_content(content@, ids.deep_view()),
{
    proof {
        reveal_strlit("<translation");
    }
    let items = split_by(content, "<translation");
    let mut msgs: Vec<String> = Vec::new();
    let mut k: usize = 0;
    while k < items.len()
        invariant
            k <= items@.len(),
            msgs.deep_view() == messages_of_items(items.deep_view().take(k as int), ids.deep_view()),
        decreases items@.len() - k,
    {
        let item = items[k].as_str();
        assert(item@ == items.deep_view()[k as int]);
        let ghost pre = msgs.deep_view();
        if contains_any(item, ids) {
            match extract_message(item) {
                Some(text) => {
                    msgs.push(text.to_owned());
                    assert(msgs.deep_view() =~= pre.push(text@));
                },
                None => {},
            }
        }
        proof {
            let dv = items.deep_view();
            assert(dv.take(k as int + 1).drop_last() =~= dv.take(k as int));
            assert(dv.take(k as int + 1).last() == dv[k as int]);
            assert(msgs.deep_view() =~= pre + item_messages(dv[k as int], ids.deep_view()));
        }
        k += 1;
    }
    proof {
        assert(items.deep_view().take(items@.len() as int) =~= items.deep_view());
    }
    msgs
}

/// The `<message` pieces of a resource definition that contain one of the
/// message texts, in piece order.
pub fn matching_message_items(content: &str, messages: &Vec<String>) -> (found: Vec<String>)
    ensures
        found.deep_view() == message_items_of_content(content@, messages.deep_view()),
{
    proof {
        reveal_strlit("<message");
    }
    let items = split_by(content, "<message");
    let mut found: Vec<String> = Vec::new();
    let mut k: usize = 0;
    while k < items.len()
        invariant
            k <= items@.len(),
            found.deep_view() == matching_items(
                items.deep_view().take(k as int),
                messages.deep_view(),
            ),
        decreases items@.len() - k,
    {
        let item = items[k].as_str();
        assert(item@ == items.deep_view()[k as int]);
        let ghost pre = found.deep_view();
        if contains_any(item, messages) {
            found.push(item.to_owned());
            assert(found.deep_view() =~= pre.push(item@));
        }
        proof {
            let dv = items.deep_view();
            assert(dv.take(k as int + 1).drop_last() =~= dv.take(k as int));
            assert(dv.take(k as int + 1).last() == dv[k as int]);
        }
        k += 1;
    }
    proof {
        assert(items.deep_view().take(items@.len() as int) =~= items.deep_view());
    }
    found
}

} // verus!
