//! The options a caller configured the formatter with.

use crate::text::text_eq;
use vstd::prelude::*;

verus! {

/// Texts by key.
pub type TextMap = Map<Seq<char>, Seq<char>>;

/// What a set of options holds: the text given under each key, and the
/// number of fractional digits, if one was given.
pub struct OptionsView {
    pub text: TextMap,
    pub fractional_digits: Option<i64>,
}

/// The options as the caller gave them, before any is read: text under a key
/// such as `style`, `hours` or `hoursDisplay`, and the number of fractional
/// digits as an integer.
#[derive(Debug)]
pub struct Options {
    entries: Vec<(String, String)>,
    fractional_digits: Option<i64>,
}

/// The text under each key of a list of entries. Where a key occurs twice,
/// the later entry counts.
pub open spec fn entries_text(entries: Seq<(String, String)>) -> TextMap
    decreases entries.len(),
{
    if entries.len() == 0 {
        Map::empty()
    } else {
        entries_text(entries.drop_last()).insert(entries.last().0@, entries.last().1@)
    }
}

/// The text under a key, if the key is there.
pub open spec fn lookup(text: TextMap, key: Seq<char>) -> Option<Seq<char>> {
    if text.contains_key(key) {
        Some(text[key])
    } else {
        None
    }
}

/// Looking a key up among the first `n` entries: the last of them decides
/// where it has that key, and the ones before it where it does not.
proof fn lemma_lookup_prefix(entries: Seq<(String, String)>, n: int, key: Seq<char>)
    requires
        0 < n <= entries.len(),
    ensures
        entries[n - 1].0@ == key ==> lookup(entries_text(entries.take(n)), key) == Some(
            entries[n - 1].1@,
        ),
        entries[n - 1].0@ != key ==> lookup(entries_text(entries.take(n)), key) == lookup(
            entries_text(entries.take(n - 1)),
            key,
        ),
{
    let prefix = entries.take(n);
    assert(prefix.last() == entries[n - 1]);
    assert(prefix.drop_last() =~= entries.take(n - 1));
}

impl View for Options {
    type V = OptionsView;

    closed spec fn view(&self) -> OptionsView {
        OptionsView {
            text: entries_text(self.entries@),
            fractional_digits: self.fractional_digits,
        }
    }
}

impl Options {
    /// Options in which nothing is set.
    pub fn new() -> (options: Self)
        ensures
            options@.text == TextMap::empty(),
            options@.fractional_digits is None,
    {
        Options { entries: Vec::new(), fractional_digits: None }
    }

    /// Puts a text under a key. An earlier text under that key is replaced.
    pub fn set(&mut self, key: &str, value: &str)
        ensures
            final(self)@.text == old(self)@.text.insert(key@, value@),
            final(self)@.fractional_digits == old(self)@.fractional_digits,
    {
        let ghost before = self.entries@;
        self.entries.push((key.to_owned(), value.to_owned()));
        proof {
            assert(self.entries@.drop_last() =~= before);
        }
    }

    /// Sets the number of fractional digits.
    pub fn set_fractional_digits(&mut self, digits: i64)
        ensures
            final(self)@.text == old(self)@.text,
            final(self)@.fractional_digits == Some(digits),
    {
        self.fractional_digits = Some(digits);
    }

    /// The text under a key, if the key was set.
    pub fn get(&self, key: &str) -> (found: Option<&str>)
        ensures
            match found {
                Some(value) => lookup(self@.text, key@) == Some(value@),
                None => lookup(self@.text, key@) is None,
            },
    {
        let mut i: usize = self.entries.len();
        assert(self.entries@.take(i as int) =~= self.entries@);
        while i > 0
            invariant
                i <= self.entries.len(),
                lookup(entries_text(self.entries@), key@) == lookup(
                    entries_text(self.entries@.take(i as int)),
                    key@,
                ),
            decreases i,
        {
            proof {
                lemma_lookup_prefix(self.entries@, i as int, key@);
            }
            i -= 1;
            if text_eq(self.entries[i].0.as_str(), key) {
                return Some(self.entries[i].1.as_str());
            }
        }
        None
    }

    /// The number of fractional digits as it was given, if it was.
    pub fn fractional_digits(&self) -> (digits: Option<i64>)
        ensures
            digits == self@.fractional_digits,
    {
        self.fractional_digits
    }
}

} // verus!
