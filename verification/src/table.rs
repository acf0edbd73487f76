//! Tables that give a text its icon.
//!
//! A table is written down as a list of entries, each a text and its icon.
//! What it means is a map from texts to icons. The lists that are kept here
//! are written in ASCII and stand in the order of a dictionary: such a list
//! names no text twice, and [`lookup`] finds a text in it by halving.

use crate::text::{
    compare_ascii, lemma_precedes_is_strict, lemma_precedes_is_transitive, lemma_standing,
    precedes, Standing,
};
use vstd::prelude::*;
use vstd::utf8::is_ascii_chars;

verus! {

/// True when `entries` has an entry for `key`.
pub open spec fn lists(entries: Seq<(&'static str, char)>, key: Seq<char>) -> bool {
    exists|i: int| 0 <= i < entries.len() && (#[trigger] entries[i]).0@ == key
}

/// True when entry `i` is for `key` and no entry before it is.
pub open spec fn is_first_for(entries: Seq<(&'static str, char)>, key: Seq<char>, i: int) -> bool {
    &&& 0 <= i < entries.len()
    &&& entries[i].0@ == key
    &&& forall|j: int| 0 <= j < i ==> (#[trigger] entries[j]).0@ != key
}

/// The place of the first entry for `key`, where `entries` has one.
pub open spec fn first_for(entries: Seq<(&'static str, char)>, key: Seq<char>) -> int {
    choose|i: int| is_first_for(entries, key, i)
}

/// The table that `entries` stands for: each text that it lists, with the
/// icon of the first entry for that text.
pub open spec fn icons_of(entries: Seq<(&'static str, char)>) -> Map<Seq<char>, char> {
    Map::new(
        |key: Seq<char>| lists(entries, key),
        |key: Seq<char>| entries[first_for(entries, key)].1,
    )
}

/// True when no two entries are for the same text.
pub open spec fn has_distinct_keys(entries: Seq<(&'static str, char)>) -> bool {
    forall|i: int, j: int|
        0 <= i < j < entries.len() ==> (#[trigger] entries[i]).0@ != (#[trigger] entries[j]).0@
}

/// True when the text of each entry comes before the text of the next.
pub open spec fn in_order(entries: Seq<(&'static str, char)>) -> bool {
    forall|i: int|
        0 <= i < entries.len() - 1 ==> precedes((#[trigger] entries[i]).0@, entries[i + 1].0@)
}

/// True when the text of each entry is written in ASCII.
pub open spec fn in_ascii(entries: Seq<(&'static str, char)>) -> bool {
    forall|i: int| 0 <= i < entries.len() ==> is_ascii_chars((#[trigger] entries[i]).0@)
}

/// In a list that is in order every entry comes before every later one, not
/// only before the next.
pub proof fn lemma_in_order_spans(entries: Seq<(&'static str, char)>, i: int, j: int)
    requires
        in_order(entries),
        0 <= i < j < entries.len(),
    ensures
        precedes(entries[i].0@, entries[j].0@),
    decreases j - i,
{
    if i + 1 < j {
        lemma_in_order_spans(entries, i, j - 1);
        lemma_precedes_is_transitive(entries[i].0@, entries[j - 1].0@, entries[j].0@);
    }
}

/// A list that is in order lists no text twice.
pub proof fn lemma_in_order_is_distinct(entries: Seq<(&'static str, char)>)
    requires
        in_order(entries),
    ensures
        has_distinct_keys(entries),
{
    assert forall|i: int, j: int| 0 <= i < j < entries.len() implies (#[trigger] entries[i]).0@ != (
    #[trigger] entries[j]).0@ by {
        lemma_in_order_spans(entries, i, j);
        lemma_precedes_is_strict(entries[i].0@);
    }
}

/// Where no text is listed twice, the table goes by every entry.
pub proof fn lemma_every_entry_counts(entries: Seq<(&'static str, char)>, i: int)
    requires
        has_distinct_keys(entries),
        0 <= i < entries.len(),
    ensures
        icons_of(entries).get(entries[i].0@) == Some(entries[i].1),
{
    assert(is_first_for(entries, entries[i].0@, i));
}

/// A list that is in order has no entry for a text that falls between two
/// of its neighbours, before its first entry or after its last. Here `i` is
/// the place where an entry for `key` would have to stand.
pub proof fn lemma_gap_is_unlisted(entries: Seq<(&'static str, char)>, key: Seq<char>, i: int)
    requires
        in_order(entries),
        0 <= i <= entries.len(),
        i > 0 ==> precedes(entries[i - 1].0@, key),
        i < entries.len() ==> precedes(key, entries[i].0@),
    ensures
        icons_of(entries).get(key) == None::<char>,
{
    assert forall|j: int| 0 <= j < entries.len() implies (#[trigger] entries[j]).0@ != key by {
        lemma_precedes_is_strict(key);
        if j < i - 1 {
            lemma_in_order_spans(entries, j, i - 1);
            lemma_precedes_is_transitive(entries[j].0@, entries[i - 1].0@, key);
        } else if j > i {
            lemma_in_order_spans(entries, i, j);
            lemma_precedes_is_transitive(key, entries[i].0@, entries[j].0@);
        }
    }
}

/// Looks `key` up in the table that `entries` stands for.
///
/// A key that is not written in ASCII is in no such table. Any other key is
/// looked for between two ends that close in on the one place where its
/// entry would have to stand.
pub(crate) fn lookup(entries: &[(&'static str, char)], key: &str) -> (icon: Option<char>)
    requires
        in_order(entries@),
        in_ascii(entries@),
    ensures
        icon == icons_of(entries@).get(key@),
{
    if !key.is_ascii() {
        return None;
    }
    let mut low: usize = 0;
    let mut high: usize = entries.len();
    while low < high
        invariant
            in_order(entries@),
            in_ascii(entries@),
            is_ascii_chars(key@),
            low <= high <= entries@.len(),
            low > 0 ==> precedes(entries@[low - 1].0@, key@),
            high < entries@.len() ==> precedes(key@, entries@[high as int].0@),
        decreases high - low,
    {
        let middle = low + (high - low) / 2;
        proof {
            lemma_standing(entries@[middle as int].0@, key@);
        }
        match compare_ascii(entries[middle].0, key) {
            Standing::Before => {
                low = middle + 1;
            },
            Standing::Same => {
                proof {
                    lemma_in_order_is_distinct(entries@);
                    lemma_every_entry_counts(entries@, middle as int);
                }
                return Some(entries[middle].1);
            },
            Standing::After => {
                high = middle;
            },
        }
    }
    proof {
        lemma_gap_is_unlisted(entries@, key@, low as int);
    }
    None
}

} // verus!
