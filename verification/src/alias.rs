//! The display alias of a record: context path, identifier, title.

use vstd::prelude::*;
use vstd::string::*;
use crate::text::{decimal, decimal_string, lemma_decimal_nonempty};

verus! {

/// The characters of an optional text.
pub open spec fn text_of(text: Option<&str>) -> Option<Seq<char>> {
    match text {
        Some(t) => Some(t@),
        None => None,
    }
}

/// The characters of an optional owned text.
pub open spec fn owned_text_of(text: Option<String>) -> Option<Seq<char>> {
    match text {
        Some(t) => Some(t@),
        None => None,
    }
}

/// An alias reads `/<prefix>/<id>/<suffix>`; without a prefix it starts at
/// the identifier, and without a suffix it ends after the second slash.
pub open spec fn alias_text(prefix: Option<Seq<char>>, id: int, suffix: Option<Seq<char>>) -> Seq<
    char,
> {
    let head = match prefix {
        Some(p) => seq!['/'] + p,
        None => Seq::<char>::empty(),
    };
    let tail = match suffix {
        Some(s) => s,
        None => Seq::<char>::empty(),
    };
    head + seq!['/'] + decimal(id) + seq!['/'] + tail
}

/// Builds the alias of the record `id` from its context path and its title.
pub fn format_alias(prefix: Option<&str>, id: i32, suffix: Option<&str>) -> (alias: String)
    ensures
        alias@ == alias_text(text_of(prefix), id as int, text_of(suffix)),
{
    let mut alias = String::new();
    if let Some(p) = prefix {
        alias.push('/');
        alias.append(p);
    }
    alias.push('/');
    let number = decimal_string(id);
    alias.append(number.as_str());
    alias.push('/');
    if let Some(s) = suffix {
        alias.append(s);
    }
    assert(alias@ =~= alias_text(text_of(prefix), id as int, text_of(suffix)));
    alias
}

/// An alias is never empty: it holds at least two slashes and the identifier.
pub proof fn lemma_alias_nonempty(prefix: Option<Seq<char>>, id: int, suffix: Option<Seq<char>>)
    ensures
        alias_text(prefix, id, suffix).len() >= 3,
{
    lemma_decimal_nonempty(id);
}

/// Whether `text` ends with `tail`.
pub open spec fn ends_with(text: Seq<char>, tail: Seq<char>) -> bool {
    text.len() >= tail.len() && text.subrange(text.len() - tail.len(), text.len() as int) == tail
}

/// An alias ends with its suffix, character for character.
pub proof fn lemma_alias_ends_with_suffix(prefix: Option<Seq<char>>, id: int, suffix: Seq<char>)
    ensures
        ends_with(alias_text(prefix, id, Some(suffix)), suffix),
{
    let whole = alias_text(prefix, id, Some(suffix));
    assert(whole.subrange(whole.len() - suffix.len(), whole.len() as int) =~= suffix);
}

/// Without a prefix an alias starts with a slash and the identifier.
pub proof fn lemma_alias_holds_id(id: int, suffix: Option<Seq<char>>)
    ensures
        alias_text(None, id, suffix).len() >= 1 + decimal(id).len(),
        alias_text(None, id, suffix).subrange(1, 1 + decimal(id).len() as int) == decimal(id),
{
    let whole = alias_text(None, id, suffix);
    assert(whole.subrange(1, 1 + decimal(id).len() as int) =~= decimal(id));
}

} // verus!
