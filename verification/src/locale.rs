//! The locale of a formatter and the numbering system it carries.
//!
//! Locales and the values of their keywords are those of `icu_locid`. What
//! this module says of them is taken on trust from that crate: a locale is
//! seen through its Unicode extension keywords, its Unicode extension
//! attributes, and the rest of it written out; a keyword value through the
//! text it is written as.

use crate::error::Error;
use crate::options::{lookup, Options, TextMap};
use icu_locid::extensions::unicode::{Key, Value};
use icu_locid::{Locale, ParserError};
use vstd::prelude::*;

verus! {

/// `icu_locid::Locale`, a locale identifier with its extensions.
#[verifier::external_type_specification]
#[verifier::external_body]
pub struct ExLocale(Locale);

/// `icu_locid::extensions::unicode::Value`, the value of a Unicode
/// extension keyword: a list of subtags.
#[verifier::external_type_specification]
#[verifier::external_body]
pub struct ExValue(Value);

/// `icu_locid::ParserError`, why a piece of text was not accepted.
#[verifier::external_type_specification]
#[verifier::external_body]
pub struct ExParserError(ParserError);

/// The text a keyword value is written as: its subtags, joined by `-`.
pub uninterp spec fn value_text(value: Value) -> Seq<char>;

/// The text of the value that `Value::try_from_bytes` makes of a text it
/// accepts.
pub uninterp spec fn canonical_value(text: Seq<char>) -> Seq<char>;

/// The Unicode extension keywords of a locale: the text of each key with
/// the text of its value.
pub uninterp spec fn keywords(locale: Locale) -> TextMap;

/// The Unicode extension attributes of a locale, in order.
pub uninterp spec fn attributes(locale: Locale) -> Seq<Seq<char>>;

/// A locale written out without its Unicode extension: its language
/// identifier, then its other extensions.
pub uninterp spec fn outside_unicode(locale: Locale) -> Seq<char>;

/// A letter or a digit of ASCII.
pub open spec fn is_alphanumeric(c: char) -> bool {
    ('a' <= c && c <= 'z') || ('A' <= c && c <= 'Z') || ('0' <= c && c <= '9')
}

/// `-` or `_`, which part the subtags of a value.
pub open spec fn is_separator(c: char) -> bool {
    c == '-' || c == '_'
}

/// Whether a text is made of subtags of three to eight letters and digits
/// each, parted by single separators, where `run` characters of the first
/// subtag have been read before the text begins.
pub open spec fn is_subtags(text: Seq<char>, run: nat) -> bool
    decreases text.len(),
{
    if text.len() == 0 {
        3 <= run <= 8
    } else if is_separator(text[0]) {
        3 <= run <= 8 && is_subtags(text.skip(1), 0)
    } else {
        is_alphanumeric(text[0]) && is_subtags(text.skip(1), run + 1)
    }
}

/// Whether a text is accepted as a keyword value: it is empty, or made of
/// subtags of three to eight letters and digits, parted by `-` or `_`.
pub open spec fn is_value(text: Seq<char>) -> bool {
    text.len() == 0 || is_subtags(text, 0)
}

/// Whether a text is the key of a keyword as a locale holds it: a lower
/// case letter or a digit, then a lower case letter.
pub open spec fn is_key(text: Seq<char>) -> bool {
    &&& text.len() == 2
    &&& ('a' <= text[0] && text[0] <= 'z') || ('0' <= text[0] && text[0] <= '9')
    &&& 'a' <= text[1] && text[1] <= 'z'
}

/// The key of the numbering system keyword.
pub open spec fn numbering_key() -> Seq<char> {
    "nu"@
}

/// `Value::try_from_bytes`: reads a keyword value. It accepts the empty
/// text and any text made of subtags of three to eight ASCII letters and
/// digits parted by `-` or `_`, and nothing else.
#[verifier::external_body]
pub(crate) fn parse_value(text: &str) -> (parsed: Result<Value, ParserError>)
    ensures
        parsed is Ok <==> is_value(text@),
        parsed matches Ok(value) ==> value_text(value) == canonical_value(text@),
{
    Value::try_from_bytes(text.as_bytes())
}

/// `Value::clone`: the copy is the same value.
#[verifier::external_body]
pub(crate) fn clone_value(value: &Value) -> (copy: Value)
    ensures
        copy == *value,
{
    value.clone()
}

/// `Keywords::get` on the Unicode extension of a locale: a copy of the
/// value under a key, if the locale has that key.
#[verifier::external_body]
pub(crate) fn keyword(locale: &Locale, key: &str) -> (found: Option<Value>)
    requires
        is_key(key@),
    ensures
        match found {
            Some(value) => lookup(keywords(*locale), key@) == Some(value_text(value)),
            None => lookup(keywords(*locale), key@) is None,
        },
{
    let key = Key::try_from_bytes(key.as_bytes()).ok()?;
    locale.extensions.unicode.keywords.get(&key).cloned()
}

/// `Unicode::clear` on the Unicode extension of a locale: it removes every
/// keyword and every attribute of that extension and leaves the rest of the
/// locale as it was.
#[verifier::external_body]
pub(crate) fn clear_unicode(locale: &mut Locale)
    ensures
        keywords(*final(locale)) == TextMap::empty(),
        attributes(*final(locale)) == Seq::<Seq<char>>::empty(),
        outside_unicode(*final(locale)) == outside_unicode(*old(locale)),
{
    locale.extensions.unicode.clear();
}

/// `Keywords::set` on the Unicode extension of a locale: it puts a value
/// under a key, in place of an earlier one, and leaves the rest of the
/// locale as it was.
#[verifier::external_body]
pub(crate) fn set_keyword(locale: &mut Locale, key: &str, value: Value)
    requires
        is_key(key@),
    ensures
        keywords(*final(locale)) == keywords(*old(locale)).insert(key@, value_text(value)),
        attributes(*final(locale)) == attributes(*old(locale)),
        outside_unicode(*final(locale)) == outside_unicode(*old(locale)),
{
    if let Ok(key) = Key::try_from_bytes(key.as_bytes()) {
        locale.extensions.unicode.keywords.set(key, value);
    }
}

/// The numbering system asked for in the options: none where the key
/// `numberingSystem` is not set, an error where the text under it is not
/// written as a keyword value, else that value's text.
pub open spec fn requested_numbering_system(text: TextMap) -> Result<Option<Seq<char>>, Error> {
    match lookup(text, "numberingSystem"@) {
        None => Ok(None),
        Some(given) => if is_value(given) {
            Ok(Some(canonical_value(given)))
        } else {
            Err(Error::InvalidNumberingSystem)
        },
    }
}

/// Reads the numbering system asked for.
pub fn numbering_system_from_options(options: &Options) -> (asked: Result<Option<Value>, Error>)
    ensures
        match requested_numbering_system(options@.text) {
            Err(error) => asked matches Err(e) && e == error,
            Ok(None) => asked matches Ok(None),
            Ok(Some(text)) => asked matches Ok(Some(value)) && value_text(value) == text,
        },
{
    match options.get("numberingSystem") {
        None => Ok(None),
        Some(given) => match parse_value(given) {
            Err(_) => Err(Error::InvalidNumberingSystem),
            Ok(value) => Ok(Some(value)),
        },
    }
}

/// What a caller asked of the locale beyond its identifier.
#[derive(Debug)]
pub struct DurationFormatLocaleOptions {
    pub numbering_system: Option<Value>,
}

impl DurationFormatLocaleOptions {
    /// The text of the numbering system, if one is held.
    pub open spec fn text(self) -> Option<Seq<char>> {
        match self.numbering_system {
            Some(value) => Some(value_text(value)),
            None => None,
        }
    }
}

/// Which numbering system is kept: the one asked for where it is
/// supported; else the one the locale carries where that one is supported;
/// else none.
pub open spec fn chosen<T>(
    asked: Option<T>,
    asked_supported: bool,
    carried: Option<T>,
    carried_supported: bool,
) -> Option<T> {
    if asked is Some && asked_supported {
        asked
    } else if carried is Some && carried_supported {
        carried
    } else {
        None
    }
}

/// Keeps the numbering system asked for where it is supported, else the one
/// the locale carries where that one is supported, else none.
pub fn select_numbering_system(
    asked: Option<Value>,
    asked_supported: bool,
    carried: Option<Value>,
    carried_supported: bool,
) -> (kept: Option<Value>)
    ensures
        kept == chosen(asked, asked_supported, carried, carried_supported),
{
    if asked.is_some() && asked_supported {
        asked
    } else if carried.is_some() && carried_supported {
        carried
    } else {
        None
    }
}

/// Whether the oracle may give `answer` when it is asked, for a locale,
/// about a value that is written as `text`.
pub open spec fn may_answer<F: Fn(&Locale, &Value) -> bool>(
    is_supported: F,
    locale: Locale,
    text: Seq<char>,
    answer: bool,
) -> bool {
    exists|value: Value| #[trigger]
        value_text(value) == text && call_ensures(is_supported, (&locale, &value), answer)
}

/// Whether the oracle may have accepted a numbering system: there is one,
/// and the oracle may say yes to it.
pub open spec fn accepted<F: Fn(&Locale, &Value) -> bool>(
    is_supported: F,
    locale: Locale,
    candidate: Option<Seq<char>>,
) -> bool {
    candidate matches Some(text) && may_answer(is_supported, locale, text, true)
}

/// Whether the oracle may have refused a numbering system: there is none,
/// or the oracle may say no to it.
pub open spec fn refused<F: Fn(&Locale, &Value) -> bool>(
    is_supported: F,
    locale: Locale,
    candidate: Option<Seq<char>>,
) -> bool {
    candidate matches Some(text) ==> may_answer(is_supported, locale, text, false)
}

/// What the oracle's answers allow to be kept of two numbering systems, the
/// one asked for and the one the locale carries. The one asked for is kept
/// where the oracle accepted it. Else the one carried is kept where the
/// oracle accepted that one. Else none is kept.
pub open spec fn negotiated<F: Fn(&Locale, &Value) -> bool>(
    is_supported: F,
    locale: Locale,
    asked: Option<Seq<char>>,
    carried: Option<Seq<char>>,
    kept: Option<Seq<char>>,
) -> bool {
    ||| accepted(is_supported, locale, asked) && kept == asked
    ||| refused(is_supported, locale, asked) && accepted(is_supported, locale, carried) && kept
        == carried
    ||| refused(is_supported, locale, asked) && refused(is_supported, locale, carried)
        && kept is None
}

/// Whether the Unicode extension of a locale holds the numbering system
/// that was kept and nothing else: that keyword and no other, and no
/// attribute.
pub open spec fn carries_only(locale: Locale, kept: Option<Seq<char>>) -> bool {
    &&& keywords(locale) == match kept {
        Some(text) => TextMap::empty().insert(numbering_key(), text),
        None => TextMap::empty(),
    }
    &&& attributes(locale) == Seq::<Seq<char>>::empty()
}

/// Whether `after` is `before` with its Unicode extension replaced by the
/// numbering system that was kept, and the rest of it as it was.
pub open spec fn rewritten(before: Locale, after: Locale, kept: Option<Seq<char>>) -> bool {
    carries_only(after, kept) && outside_unicode(after) == outside_unicode(before)
}

/// Where the oracle has one answer for each numbering system, what is kept
/// is what `chosen` says for those answers.
pub proof fn lemma_one_answer_decides<F: Fn(&Locale, &Value) -> bool>(
    is_supported: F,
    locale: Locale,
    asked: Option<Seq<char>>,
    asked_supported: bool,
    carried: Option<Seq<char>>,
    carried_supported: bool,
    kept: Option<Seq<char>>,
)
    requires
        negotiated(is_supported, locale, asked, carried, kept),
        asked matches Some(text) ==> !may_answer(is_supported, locale, text, !asked_supported),
        carried matches Some(text) ==> !may_answer(is_supported, locale, text, !carried_supported),
    ensures
        kept == chosen(asked, asked_supported, carried, carried_supported),
{
}

/// A numbering system that the oracle does not support is left out, and
/// nothing fails: where the oracle accepts neither the one asked for nor
/// the one the locale carries, none is kept.
pub proof fn lemma_unsupported_is_left_out<F: Fn(&Locale, &Value) -> bool>(
    is_supported: F,
    locale: Locale,
    asked: Option<Seq<char>>,
    carried: Option<Seq<char>>,
    kept: Option<Seq<char>>,
)
    requires
        negotiated(is_supported, locale, asked, carried, kept),
        asked matches Some(text) ==> !may_answer(is_supported, locale, text, true),
        carried matches Some(text) ==> !may_answer(is_supported, locale, text, true),
    ensures
        kept is None,
{
}

} // verus!
