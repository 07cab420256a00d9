//! The display-size query of the Wayland backend: the compositor is asked
//! over its own protocol by the caller that owns the connection, and the
//! reply bytes are parsed here: the first width and height fields of the
//! reply give the size of the first output.

use vstd::prelude::*;

use crate::rdev::DisplayError;

verus! {

/// Whether the pattern occurs in the data at exactly position `i`.
pub open spec fn spec_match_at(data: Seq<u8>, pat: Seq<u8>, i: int) -> bool {
    &&& 0 <= i
    &&& i + pat.len() <= data.len()
    &&& data.subrange(i, i + pat.len()) == pat
}

/// The first position at or after `start` where the pattern occurs, if any.
pub open spec fn spec_find_from(data: Seq<u8>, pat: Seq<u8>, start: int) -> Option<int>
    decreases data.len() + 1 - start,
{
    if start < 0 || start + pat.len() > data.len() {
        None
    } else if spec_match_at(data, pat, start) {
        Some(start)
    } else {
        spec_find_from(data, pat, start + 1)
    }
}

/// Whether a byte is a decimal digit.
pub open spec fn spec_is_digit(b: u8) -> bool {
    48 <= b <= 57
}

/// The first position at or after `i` that holds no digit.
pub open spec fn spec_digits_end(data: Seq<u8>, i: int) -> int
    decreases data.len() - i,
{
    if i < 0 || i >= data.len() || !spec_is_digit(data[i]) {
        i
    } else {
        spec_digits_end(data, i + 1)
    }
}

/// The first position at or after `i` that holds no space.
pub open spec fn spec_skip_spaces(data: Seq<u8>, i: int) -> int
    decreases data.len() - i,
{
    if i < 0 || i >= data.len() || data[i] != 32 {
        i
    } else {
        spec_skip_spaces(data, i + 1)
    }
}

/// The decimal value of the digits of positions `i` up to `j`.
pub open spec fn spec_digits_value(data: Seq<u8>, i: int, j: int) -> int
    decreases j - i,
{
    if j <= i {
        0
    } else {
        spec_digits_value(data, i, j - 1) * 10 + (data[j - 1] - 48)
    }
}

/// The number the digit run starting at `i` denotes: at least one digit,
/// and a value within the 64-bit range.
pub open spec fn spec_parse_u64(data: Seq<u8>, i: int) -> Option<u64> {
    let end = spec_digits_end(data, i);
    if end == i {
        None
    } else if spec_digits_value(data, i, end) <= u64::MAX {
        Some(spec_digits_value(data, i, end) as u64)
    } else {
        None
    }
}

/// The value of the first field of the given key in a reply: the first
/// occurrence of the key pattern, spaces skipped, then a digit run.
pub open spec fn spec_field_u64(data: Seq<u8>, key: Seq<u8>) -> Option<u64> {
    match spec_find_from(data, key, 0) {
        Some(i) => spec_parse_u64(data, spec_skip_spaces(data, i + key.len())),
        None => None,
    }
}

/// The width key of a compositor reply.
pub open spec fn spec_width_key() -> Seq<u8> {
    seq![34u8, 119u8, 105u8, 100u8, 116u8, 104u8, 34u8, 58u8]
}

/// The height key of a compositor reply.
pub open spec fn spec_height_key() -> Seq<u8> {
    seq![34u8, 104u8, 101u8, 105u8, 103u8, 104u8, 116u8, 34u8, 58u8]
}

/// The size a compositor reply reports: its first width and first height
/// fields.
pub open spec fn spec_get_size(data: Seq<u8>) -> Option<(u64, u64)> {
    match (spec_field_u64(data, spec_width_key()), spec_field_u64(data, spec_height_key())) {
        (Some(w), Some(h)) => Some((w, h)),
        _ => None,
    }
}

/// A found position really carries the pattern and lies at or after the
/// start.
proof fn lemma_find_from_match(data: Seq<u8>, pat: Seq<u8>, start: int)
    requires
        spec_find_from(data, pat, start) is Some,
    ensures
        spec_match_at(data, pat, spec_find_from(data, pat, start)->0),
        spec_find_from(data, pat, start)->0 >= start,
    decreases data.len() + 1 - start,
{
    if !(start < 0 || start + pat.len() > data.len()) && !spec_match_at(data, pat, start) {
        lemma_find_from_match(data, pat, start + 1);
    }
}

/// Checks whether the pattern occurs in the data at exactly position `i`.
fn match_at(data: &[u8], pat: &[u8], i: usize) -> (r: bool)
    requires
        i + pat@.len() <= data@.len(),
    ensures
        r == spec_match_at(data@, pat@, i as int),
{
    let n = data.len();
    let mut k: usize = 0;
    while k < pat.len()
        invariant
            k <= pat@.len(),
            i + pat@.len() <= data@.len(),
            n == data@.len(),
            forall|m: int| 0 <= m < k ==> data@[i + m] == pat@[m],
        decreases pat@.len() - k,
    {
        if data[i + k] != pat[k] {
            proof {
                assert(data@.subrange(i as int, i + pat@.len())[k as int] != pat@[k as int]);
            }
            return false;
        }
        k += 1;
    }
    proof {
        assert(data@.subrange(i as int, i + pat@.len()) =~= pat@);
    }
    true
}

/// Finds the first occurrence of the pattern at or after `start`.
fn find_from(data: &[u8], pat: &[u8], start: usize) -> (r: Option<usize>)
    ensures
        match r {
            Some(i) => Some(i as int) == spec_find_from(data@, pat@, start as int),
            None => spec_find_from(data@, pat@, start as int) is None,
        },
{
    let n = data.len();
    let m = pat.len();
    if m > n {
        return None;
    }
    if start > n - m {
        return None;
    }
    if m == 0 {
        proof {
            assert(data@.subrange(start as int, start as int) =~= pat@);
        }
        return Some(start);
    }
    let limit = n - m;
    let mut i: usize = start;
    while i <= limit
        invariant
            n == data@.len(),
            m == pat@.len(),
            1 <= m <= n,
            limit == n - m,
            start <= i <= limit + 1,
            spec_find_from(data@, pat@, start as int) == spec_find_from(data@, pat@, i as int),
        decreases limit + 1 - i,
    {
        if match_at(data, pat, i) {
            return Some(i);
        }
        i += 1;
    }
    None
}

/// Skips spaces from `i` on.
fn skip_spaces(data: &[u8], i: usize) -> (r: usize)
    requires
        i <= data@.len(),
    ensures
        r == spec_skip_spaces(data@, i as int),
        i <= r <= data@.len(),
{
    let mut k: usize = i;
    while k < data.len() && data[k] == 32
        invariant
            i <= k <= data@.len(),
            spec_skip_spaces(data@, i as int) == spec_skip_spaces(data@, k as int),
        decreases data@.len() - k,
    {
        k += 1;
    }
    k
}

/// Parses the digit run starting at `start` into its value, if there is a
/// run and the value fits.
fn parse_u64_at(data: &[u8], start: usize) -> (r: Option<u64>)
    requires
        start <= data@.len(),
    ensures
        r == spec_parse_u64(data@, start as int),
{
    let mut k: usize = start;
    let mut acc: u64 = 0;
    let mut overflow = false;
    while k < data.len() && 48 <= data[k] && data[k] <= 57
        invariant
            start <= k <= data@.len(),
            spec_digits_end(data@, start as int) == spec_digits_end(data@, k as int),
            !overflow ==> acc == spec_digits_value(data@, start as int, k as int),
            overflow ==> spec_digits_value(data@, start as int, k as int) > u64::MAX,
        decreases data@.len() - k,
    {
        let d = data[k] - 48;
        if overflow {
        } else {
            let wide: u128 = acc as u128 * 10 + d as u128;
            if wide > u64::MAX as u128 {
                overflow = true;
            } else {
                acc = wide as u64;
            }
        }
        k += 1;
    }
    proof {
        assert(spec_digits_end(data@, k as int) == k as int);
    }
    if k == start {
        None
    } else if overflow {
        None
    } else {
        Some(acc)
    }
}

/// Reads the value of the first field of the given key in a reply.
fn field_u64(data: &[u8], key: &[u8]) -> (r: Option<u64>)
    ensures
        r == spec_field_u64(data@, key@),
{
    let n = data.len();
    match find_from(data, key, 0) {
        Some(i) => {
            proof {
                lemma_find_from_match(data@, key@, 0);
            }
            let after = skip_spaces(data, i + key.len());
            parse_u64_at(data, after)
        },
        None => None,
    }
}

/// A handle on the compositor's display information. Opening it costs
/// nothing; the size is read from a compositor reply handed in by the
/// caller that owns the connection.
#[derive(Debug)]
pub struct Display {}

impl Display {
    pub fn new() -> (r: Option<Display>)
        ensures
            r is Some,
    {
        Some(Display {  })
    }

    /// The size the compositor reply reports: its first width and height
    /// fields, in pixels.
    pub fn get_size(&self, reply: &[u8]) -> (r: Option<(u64, u64)>)
        ensures
            r == spec_get_size(reply@),
    {
        let width_key: Vec<u8> = vec![34, 119, 105, 100, 116, 104, 34, 58];
        let height_key: Vec<u8> = vec![34, 104, 101, 105, 103, 104, 116, 34, 58];
        proof {
            assert(width_key@ =~= spec_width_key());
            assert(height_key@ =~= spec_height_key());
        }
        let w = field_u64(reply, width_key.as_slice());
        let h = field_u64(reply, height_key.as_slice());
        match (w, h) {
            (Some(w), Some(h)) => Some((w, h)),
            _ => None,
        }
    }

    /// The pointer position; the compositor does not expose one, so the
    /// origin stands in for it.
    pub fn get_mouse_pos(&self) -> (r: Option<(u64, u64)>)
        ensures
            r == Some((0u64, 0u64)),
    {
        Some((0, 0))
    }
}

/// The size of the main screen, read out of a compositor reply: the reply's
/// first width and height fields, or the no-display error where the reply
/// holds none.
pub fn display_size(reply: &[u8]) -> (r: Result<(u64, u64), DisplayError>)
    ensures
        spec_get_size(reply@) matches Some(size) ==> r == Ok::<(u64, u64), DisplayError>(size),
        spec_get_size(reply@) is None ==> (r matches Err(e) && e is NoDisplay),
{
    let display = match Display::new() {
        Some(d) => d,
        None => {
            return Err(DisplayError::NoDisplay);
        },
    };
    match display.get_size(reply) {
        Some(size) => Ok(size),
        None => Err(DisplayError::NoDisplay),
    }
}

} // verus!
