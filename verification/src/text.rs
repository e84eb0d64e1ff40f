//! Text helpers over `str` and `String`, specified on their character
//! sequences.

use vstd::prelude::*;
use crate::outside::{
    ascii_lower, is_ascii_text, is_lower_hex_digit, lowercase, random_uuid_simple, to_lowercase,
};

verus! {

/// `needle` stands in `hay` at position `i`.
pub open spec fn occurs_at(hay: Seq<char>, needle: Seq<char>, i: int) -> bool {
    0 <= i && i + needle.len() <= hay.len() && hay.subrange(i, i + needle.len()) == needle
}

/// `needle` occurs in `hay` as a contiguous run of characters (the empty
/// text occurs in every text).
pub open spec fn contains_text(hay: Seq<char>, needle: Seq<char>) -> bool {
    exists|i: int| #[trigger] occurs_at(hay, needle, i)
}

/// Whether `a` and `b` hold the same characters.
pub fn same_text(a: &String, b: &str) -> (r: bool)
    ensures
        r == (a@ == b@),
{
    let t = b.to_string();
    *a == t
}

/// Whether two string slices hold the same characters.
pub fn same_str(a: &str, b: &str) -> (r: bool)
    ensures
        r == (a@ == b@),
{
    let t = a.to_string();
    same_text(&t, b)
}

/// Whether `needle` occurs in `hay`.
pub fn text_contains(hay: &str, needle: &str) -> (r: bool)
    ensures
        r == contains_text(hay@, needle@),
{
    let h = hay.unicode_len();
    let n = needle.unicode_len();
    if n > h {
        assert forall|i: int| !#[trigger] occurs_at(hay@, needle@, i) by {}
        return false;
    }
    let mut i: usize = 0;
    while i <= h - n
        invariant
            h == hay@.len(),
            n == needle@.len(),
            n <= h,
            i <= h - n + 1,
            forall|j: int| 0 <= j < i ==> !#[trigger] occurs_at(hay@, needle@, j),
        decreases h - n + 1 - i,
    {
        let mut k: usize = 0;
        let mut same = true;
        while k < n
            invariant_except_break
                same,
                forall|m: int| 0 <= m < k ==> hay@[i + m] == needle@[m],
            invariant
                h == hay@.len(),
                n == needle@.len(),
                i + n <= h,
                k <= n,
            ensures
                same ==> k == n,
                same ==> forall|m: int| 0 <= m < n ==> hay@[i + m] == needle@[m],
                !same ==> k < n && hay@[i + k] != needle@[k as int],
            decreases n - k,
        {
            if hay.get_char(i + k) != needle.get_char(k) {
                same = false;
                break;
            }
            k += 1;
        }
        if same {
            assert(hay@.subrange(i as int, i + n) =~= needle@);
            assert(occurs_at(hay@, needle@, i as int));
            return true;
        }
        assert(!occurs_at(hay@, needle@, i as int)) by {
            if hay@.subrange(i as int, i + n) == needle@ {
                assert(hay@.subrange(i as int, i + n)[k as int] == hay@[i + k]);
            }
        }
        i += 1;
    }
    assert forall|j: int| !#[trigger] occurs_at(hay@, needle@, j) by {
        if 0 <= j && j + n <= h {
            assert(j < i);
        }
    }
    false
}

/// The name with every `-` and every space turned into `_`.
pub open spec fn underscore_separators(s: Seq<char>) -> Seq<char> {
    s.map_values(|c: char| if c == '-' || c == ' ' { '_' } else { c })
}

/// Turns every `-` and every space of `name` into `_`.
pub fn underscore_separators_of(name: &str) -> (r: String)
    ensures
        r@ == underscore_separators(name@),
{
    let n = name.unicode_len();
    let mut out = String::new();
    let mut i: usize = 0;
    while i < n
        invariant
            n == name@.len(),
            i <= n,
            out@ == underscore_separators(name@.take(i as int)),
        decreases n - i,
    {
        let c = name.get_char(i);
        let ghost before = out@;
        if c == '-' || c == ' ' {
            out.append("_");
            proof {
                reveal_strlit("_");
            }
            assert(out@ =~= before.push('_'));
        } else {
            let piece = name.substring_char(i, i + 1);
            assert(piece@ =~= seq![c]);
            out.append(piece);
            assert(out@ =~= before.push(c));
        }
        assert(name@.take(i + 1) =~= name@.take(i as int).push(c));
        assert(underscore_separators(name@.take(i + 1)) =~= underscore_separators(
            name@.take(i as int),
        ).push(if c == '-' || c == ' ' { '_' } else { c }));
        i += 1;
    }
    assert(name@.take(n as int) =~= name@);
    out
}

/// The first `k` characters of `s`, or all of `s` when it is shorter.
pub open spec fn first_chars(s: Seq<char>, k: nat) -> Seq<char> {
    if s.len() <= k {
        s
    } else {
        s.subrange(0, k as int)
    }
}

/// The id that a server of this name gets in this environment, from its
/// lowercased name: `mcp_`, the name, `_`, and the first three characters
/// of the environment.
pub open spec fn server_id_from(lowered_name: Seq<char>, environment: Seq<char>) -> Seq<char> {
    "mcp_"@ + lowered_name + "_"@ + first_chars(environment, 3)
}

/// The id that a server of this name gets in this environment.
pub open spec fn server_id_spec(name: Seq<char>, environment: Seq<char>) -> Seq<char> {
    server_id_from(lowercase(underscore_separators(name)), environment)
}

/// The id that a server with an ASCII name gets in this environment: its
/// separators turned into `_` and its capitals lowered.
pub open spec fn ascii_server_id(name: Seq<char>, environment: Seq<char>) -> Seq<char> {
    server_id_from(underscore_separators(name).map_values(|c: char| ascii_lower(c)), environment)
}

/// Builds a server id from the already lowercased name.
pub fn compose_server_id(lowered_name: &str, environment: &str) -> (id: String)
    ensures
        id@ == server_id_from(lowered_name@, environment@),
{
    let len = environment.unicode_len();
    let take = if len < 3 {
        len
    } else {
        3
    };
    let prefix = environment.substring_char(0, take);
    assert(prefix@ =~= first_chars(environment@, 3));
    let mut id = String::from_str("mcp_");
    id.append(lowered_name);
    id.append("_");
    id.append(prefix);
    id
}

/// The id of a server: its name with separators turned into `_` and
/// lowercased, after `mcp_`, then `_` and the first three characters of
/// its environment.
pub fn server_id_for(name: &str, environment: &str) -> (id: String)
    ensures
        id@ == server_id_spec(name@, environment@),
        is_ascii_text(name@) ==> id@ == ascii_server_id(name@, environment@),
{
    let spaced = underscore_separators_of(name);
    proof {
        reveal_strlit("_");
        if is_ascii_text(name@) {
            assert forall|i: int| 0 <= i < spaced@.len() implies (#[trigger] spaced@[i] as u32) < 128 by {
                assert((name@[i] as u32) < 128);
            }
        }
    }
    let lowered = to_lowercase(spaced.as_str());
    compose_server_id(lowered.as_str(), environment)
}

/// `id` is `prefix` followed by 32 lowercase hexadecimal digits.
pub open spec fn is_generated_id(id: Seq<char>, prefix: Seq<char>) -> bool {
    &&& id.len() == prefix.len() + 32
    &&& id.subrange(0, prefix.len() as int) == prefix
    &&& forall|i: int| prefix.len() <= i < id.len() ==> is_lower_hex_digit(#[trigger] id[i])
}

/// A fresh random id: `prefix` followed by a version-4 UUID in its 32-digit
/// form.
pub fn generated_id(prefix: &str) -> (id: String)
    ensures
        is_generated_id(id@, prefix@),
{
    let suffix = random_uuid_simple();
    let mut id = String::from_str(prefix);
    id.append(suffix.as_str());
    assert(id@.subrange(0, prefix@.len() as int) =~= prefix@);
    assert forall|i: int| prefix@.len() <= i < id@.len() implies is_lower_hex_digit(
        #[trigger] id@[i],
    ) by {
        assert(id@[i] == suffix@[i - prefix@.len()]);
    }
    id
}

} // verus!
