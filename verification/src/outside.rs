//! The trusted boundary to outside crates and to the parts of std that vstd
//! does not specify: declarations of their types and wrappers around the
//! calls the registry makes. Nothing here is proved; every contract below is
//! what the outside source or documentation shows.

use vstd::prelude::*;

verus! {

/// `serde_json::Value`, carried through tool records as an opaque schema.
#[verifier::external_type_specification]
#[verifier::external_body]
pub struct ExJsonValue(serde_json::Value);

/// Reads the system clock through `chrono::Utc::now` and hands back the
/// instant as whole seconds since the Unix epoch and the nanoseconds past
/// that second (`DateTime::timestamp`, `DateTime::timestamp_subsec_nanos`).
/// The result depends on the clock, so nothing is promised of it; chrono's
/// `now` panics only when the clock reads a time before the epoch.
#[verifier::external_body]
pub(crate) fn clock_now() -> (t: (i64, u32)) {
    let t = chrono::Utc::now();
    (t.timestamp(), t.timestamp_subsec_nanos())
}

/// A lowercase hexadecimal digit, `0`-`9` or `a`-`f`.
pub open spec fn is_lower_hex_digit(c: char) -> bool {
    ('0' <= c && c <= '9') || ('a' <= c && c <= 'f')
}

/// Draws a random version-4 UUID with `uuid::Uuid::new_v4` and renders it
/// with `Uuid::simple`. The `Simple` formatter writes the 16 bytes as 32
/// lowercase hexadecimal digits (`format_simple` in uuid's `fmt.rs`); which
/// digits come out is chance, so nothing more is promised.
#[verifier::external_body]
pub(crate) fn random_uuid_simple() -> (s: String)
    ensures
        s@.len() == 32,
        forall|i: int| 0 <= i < 32 ==> is_lower_hex_digit(#[trigger] s@[i]),
{
    uuid::Uuid::new_v4().simple().to_string()
}

/// What std's `str::to_lowercase` returns for a string: each character
/// mapped by the Unicode lowercase mapping (which can change the length).
pub uninterp spec fn lowercase(s: Seq<char>) -> Seq<char>;

/// Every character is ASCII.
pub open spec fn is_ascii_text(s: Seq<char>) -> bool {
    forall|i: int| 0 <= i < s.len() ==> (#[trigger] s[i] as u32) < 128
}

/// The ASCII lowercase of a character: `A`-`Z` become `a`-`z`, every
/// other character stays.
pub open spec fn ascii_lower(c: char) -> char {
    if 'A' <= c && c <= 'Z' {
        ((c as u32) + 32) as char
    } else {
        c
    }
}

/// Calls std's `str::to_lowercase`; its result depends on the string alone.
/// The Unicode lowercase mapping that std documents takes the ASCII letters
/// `A`-`Z` to `a`-`z` and leaves every other ASCII character as it is, so
/// an ASCII string comes back with just its capitals lowered.
#[verifier::external_body]
pub(crate) fn to_lowercase(s: &str) -> (r: String)
    ensures
        r@ == lowercase(s@),
        is_ascii_text(s@) ==> r@ == s@.map_values(|c: char| ascii_lower(c)),
{
    s.to_lowercase()
}

/// Clones a JSON value with serde_json's derived `Clone`, which copies every
/// variant field by field, so the copy is the same value.
#[verifier::external_body]
pub(crate) fn clone_json(v: &serde_json::Value) -> (r: serde_json::Value)
    ensures
        r == *v,
{
    v.clone()
}

} // verus!
