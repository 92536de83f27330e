//! The window-control command: `set_window_size:` followed by a JSON object
//! with unsigned `width` and `height` members, in physical pixels.
use vstd::prelude::*;

verus! {

/// What serde_json reads for the member `key` of the JSON text `text`:
/// `None` when the text is not JSON, `Some(None)` when it has no such member
/// or the member is not a `u64`.
pub uninterp spec fn json_u64_member(text: Seq<char>, key: Seq<char>) -> Option<Option<u64>>;

/// Relies on serde_json::from_str into a `serde_json::Value`, then
/// `Value::get` and `Value::as_u64`: the result depends on the two texts
/// alone.
#[verifier::external_body]
fn u64_member(text: &str, key: &str) -> (r: Option<Option<u64>>)
    ensures
        r == json_u64_member(text@, key@),
{
    match serde_json::from_str::<serde_json::Value>(text) {
        Ok(v) => Some(v.get(key).and_then(|m| m.as_u64())),
        Err(_) => None,
    }
}

/// The size that the JSON text after the command prefix asks for: both
/// `width` and `height` must read as `u64`, each cut to its low 32 bits.
pub open spec fn requested_size(rest: Seq<char>) -> Option<(u32, u32)> {
    match (json_u64_member(rest, "width"@), json_u64_member(rest, "height"@)) {
        (Some(Some(w)), Some(Some(h))) => Some(
            ((w % 0x1_0000_0000) as u32, (h % 0x1_0000_0000) as u32),
        ),
        _ => None,
    }
}

/// Whether `prefix` starts `s`.
pub open spec fn starts_with(s: Seq<char>, prefix: Seq<char>) -> bool {
    prefix.len() <= s.len() && s.subrange(0, prefix.len() as int) == prefix
}

/// The text after `prefix` in `s`, if `s` starts with it.
pub fn strip_prefix<'a>(s: &'a str, prefix: &str) -> (r: Option<&'a str>)
    ensures
        r is Some <==> starts_with(s@, prefix@),
        r matches Some(rest) ==> rest@ == s@.subrange(prefix@.len() as int, s@.len() as int),
{
    let n = s.unicode_len();
    let m = prefix.unicode_len();
    if m > n {
        return None;
    }
    let mut i: usize = 0;
    while i < m
        invariant
            i <= m <= n,
            n == s@.len(),
            m == prefix@.len(),
            forall|j: int| 0 <= j < i ==> s@[j] == prefix@[j],
        decreases m - i,
    {
        if s.get_char(i) != prefix.get_char(i) {
            assert(s@.subrange(0, m as int)[i as int] != prefix@[i as int]);
            return None;
        }
        i = i + 1;
    }
    assert(s@.subrange(0, m as int) =~= prefix@);
    Some(s.substring_char(m, n))
}

/// The size a window-control command asks for, as `(width, height)`, each
/// cut to 32 bits. Any command that does not start with `set_window_size:`
/// asks for none; after it, a JSON object whose `width` and `height` are
/// unsigned integers gives the size, and anything else (text that is not
/// JSON, a missing or non-integer member) gives none.
pub fn window_size(cmd: &str) -> (r: Option<(u32, u32)>)
    ensures
        !starts_with(cmd@, "set_window_size:"@) ==> r is None,
        starts_with(cmd@, "set_window_size:"@) ==> r == requested_size(
            cmd@.subrange("set_window_size:"@.len() as int, cmd@.len() as int),
        ),
{
    let rest = match strip_prefix(cmd, "set_window_size:") {
        Some(rest) => rest,
        None => return None,
    };
    let width = match u64_member(rest, "width") {
        Some(w) => w,
        None => None,
    };
    let height = match u64_member(rest, "height") {
        Some(h) => h,
        None => None,
    };
    size_from_members(width, height)
}

/// The size given by the `width` and `height` members as read: both must
/// be unsigned integers, and each is cut to its low 32 bits.
pub fn size_from_members(width: Option<u64>, height: Option<u64>) -> (r: Option<(u32, u32)>)
    ensures
        r is Some <==> (width is Some && height is Some),
        r matches Some(size) ==> size.0 == width.unwrap() % 0x1_0000_0000 && size.1
            == height.unwrap() % 0x1_0000_0000,
{
    match (width, height) {
        (Some(w), Some(h)) => {
            let size = ((w % 0x1_0000_0000) as u32, (h % 0x1_0000_0000) as u32);
            Some(size)
        },
        _ => None,
    }
}

} // verus!
