//! Slugs: the normalized identifiers under which materials and log entries
//! are filed.
//!
//! One scheme is used throughout: lowercase ASCII letters and digits in runs
//! separated by single hyphens. Everything else in the input either
//! transliterates to such characters or becomes a separator.

use vstd::prelude::*;
use crate::text::{int_decimal, push_int};

verus! {

/// The slug of `input`: a function of the text alone.
pub uninterp spec fn slug_text(input: Seq<char>) -> Seq<char>;

/// The characters a slug is made of.
pub open spec fn is_slug_char(c: char) -> bool {
    ('a' <= c && c <= 'z') || ('0' <= c && c <= '9') || c == '-'
}

/// The shape of every slug: slug characters only, no hyphen at either end
/// and never two hyphens in a row. The empty text is a slug.
pub open spec fn is_slug(s: Seq<char>) -> bool {
    &&& forall|i: int| 0 <= i < s.len() ==> is_slug_char(#[trigger] s[i])
    &&& s.len() > 0 ==> s[0] != '-' && s[s.len() - 1] != '-'
    &&& forall|i: int| 0 <= i < s.len() - 1 ==> !(#[trigger] s[i] == '-' && s[i + 1] == '-')
}

/// The text from which a log entry's key is derived: the user, an
/// underscore, and the submitted timestamp in decimal.
pub open spec fn entry_label(user: Seq<char>, timestamp: int) -> Seq<char> {
    user + seq!['_'] + int_decimal(timestamp)
}

/// Calls `slug::slugify`. Trusted: the result depends on the input text
/// alone, and, as the crate documents, consists of `a-z`, `0-9` and `-`,
/// neither starts nor ends with `-`, and never holds two `-` in a row.
#[verifier::external_body]
fn slugify(input: &str) -> (r: String)
    ensures
        r@ == slug_text(input@),
        is_slug(r@),
{
    slug::slugify(input)
}

/// The slug of a free-text name.
pub fn slug(input: &str) -> (r: String)
    ensures
        r@ == slug_text(input@),
        is_slug(r@),
{
    slugify(input)
}

/// The key under which an entry by `user`, submitted at `timestamp`, is
/// logged.
pub fn entry_key(user: &str, timestamp: i64) -> (r: String)
    ensures
        r@ == slug_text(entry_label(user@, timestamp as int)),
        is_slug(r@),
{
    let mut label = user.to_owned();
    proof {
        reveal_strlit("_");
    }
    label.append("_");
    push_int(&mut label, timestamp);
    assert(label@ =~= entry_label(user@, timestamp as int));
    slugify(label.as_str())
}

/// Equal names have equal slugs, whenever and wherever they are computed.
pub proof fn lemma_slug_deterministic(a: Seq<char>, b: Seq<char>)
    requires
        a == b,
    ensures
        slug_text(a) == slug_text(b),
{
}

} // verus!
