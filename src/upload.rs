//! Decisions of the upload endpoints: naming stored files, reading a
//! requested resolution, and whether an image is resized to it.
use vstd::prelude::*;
use crate::render::join;
use crate::text::chars_of;

verus! {

/// The answer to an upload.
pub struct UploadResponse {
    pub code: u16,
    pub message: String,
    pub url: String,
}

/// The resolution an uploaded image is resized to, as `WIDTHxHEIGHT`.
pub struct ResolutionInfo {
    pub resolution: Option<String>,
}

pub open spec fn is_digit(c: char) -> bool {
    '0' <= c && c <= '9'
}

/// The number that the decimal digits `s` spell.
pub open spec fn digits_value(s: Seq<char>) -> int
    decreases s.len(),
{
    if s.len() == 0 {
        0
    } else {
        digits_value(s.drop_last()) * 10 + (s.last() as int - '0' as int)
    }
}

pub open spec fn all_digits(d: Seq<char>) -> bool {
    forall|i: int| 0 <= i < d.len() ==> is_digit(#[trigger] d[i])
}

/// `s` without the `+` it may start with.
pub open spec fn unsigned_digits(s: Seq<char>) -> Seq<char> {
    if s.len() > 0 && s[0] == '+' {
        s.drop_first()
    } else {
        s
    }
}

/// `s` read as an unsigned 32-bit number: an optional `+`, then one or more
/// decimal digits whose value fits.
pub open spec fn parse_u32(s: Seq<char>) -> Option<u32> {
    let d = unsigned_digits(s);
    if d.len() > 0 && all_digits(d) && digits_value(d) <= u32::MAX {
        Some(digits_value(d) as u32)
    } else {
        None
    }
}

/// Reads `s` as an unsigned 32-bit number.
pub fn read_u32(s: &Vec<char>) -> (r: Option<u32>)
    ensures
        r == parse_u32(s@),
{
    let start: usize = if s.len() > 0 && s[0] == '+' {
        1
    } else {
        0
    };
    let ghost d = unsigned_digits(s@);
    assert(d =~= s@.subrange(start as int, s@.len() as int));
    if start >= s.len() {
        return None;
    }
    let mut value: u64 = 0;
    let mut overflow = false;
    let mut i: usize = start;
    while i < s.len()
        invariant
            start <= i <= s@.len(),
            start < s@.len(),
            d == s@.subrange(start as int, s@.len() as int),
            d == unsigned_digits(s@),
            forall|j: int| start <= j < i ==> is_digit(#[trigger] s@[j]),
            digits_value(s@.subrange(start as int, i as int)) >= 0,
            overflow ==> digits_value(s@.subrange(start as int, i as int)) > u32::MAX,
            !overflow ==> value as int == digits_value(s@.subrange(start as int, i as int)),
            value <= u32::MAX,
        decreases s@.len() - i,
    {
        let c = s[i];
        if !('0' <= c && c <= '9') {
            assert(d[i - start] == c);
            assert(!is_digit(d[i - start]));
            assert(!all_digits(d));
            return None;
        }
        assert(s@.subrange(start as int, i + 1).drop_last() =~= s@.subrange(start as int, i as int));
        if !overflow {
            let next: u64 = value * 10 + (c as u64 - '0' as u64);
            if next > 4294967295u64 {
                overflow = true;
            } else {
                value = next;
            }
        }
        i = i + 1;
    }
    assert(s@.subrange(start as int, s@.len() as int) =~= d);
    assert(forall|j: int| 0 <= j < d.len() ==> is_digit(#[trigger] d[j])) by {
        assert forall|j: int| 0 <= j < d.len() implies is_digit(#[trigger] d[j]) by {
            assert(d[j] == s@[start + j]);
        }
    }
    if overflow {
        return None;
    }
    Some(value as u32)
}

/// The parts of a requested resolution: exactly one `x`, a width before it
/// and a height after it, each read as an unsigned 32-bit number.
pub open spec fn resolution_of(s: Seq<char>) -> Option<(u32, u32)> {
    if exists|i: int| 0 <= i < s.len() && s[i] == 'x' && (forall|j: int|
        0 <= j < s.len() && s[j] == 'x' ==> j == i) {
        let i = choose|i: int| 0 <= i < s.len() && s[i] == 'x' && (forall|j: int|
            0 <= j < s.len() && s[j] == 'x' ==> j == i);
        match (parse_u32(s.subrange(0, i)), parse_u32(s.subrange(i + 1, s.len() as int))) {
            (Some(w), Some(h)) => Some((w, h)),
            _ => None,
        }
    } else {
        None
    }
}

/// Reads a requested resolution such as `800x600`.
pub fn parse_resolution(text: &str) -> (r: Option<(u32, u32)>)
    ensures
        r == resolution_of(text@),
{
    let s = chars_of(text);
    let mut found: Option<usize> = None;
    let mut k: usize = 0;
    while k < s.len()
        invariant
            k <= s@.len(),
            s@ == text@,
            match found {
                Some(i) => i < k && s@[i as int] == 'x' && forall|j: int|
                    0 <= j < k && s@[j] == 'x' ==> j == i,
                None => forall|j: int| 0 <= j < k ==> s@[j] != 'x',
            },
        decreases s@.len() - k,
    {
        if s[k] == 'x' {
            if found.is_some() {
                assert(!(exists|i: int| 0 <= i < s@.len() && s@[i] == 'x' && (forall|j: int|
                    0 <= j < s@.len() && s@[j] == 'x' ==> j == i)));
                return None;
            }
            found = Some(k);
        }
        k = k + 1;
    }
    match found {
        None => None,
        Some(i) => {
            let w = read_u32(&crate::text::slice_chars(&s, 0, i));
            let h = read_u32(&crate::text::slice_chars(&s, i + 1, s.len()));
            let ghost c = choose|c: int| 0 <= c < s@.len() && s@[c] == 'x' && (forall|j: int|
                0 <= j < s@.len() && s@[j] == 'x' ==> j == c);
            assert(c == i);
            match (w, h) {
                (Some(w), Some(h)) => Some((w, h)),
                _ => None,
            }
        },
    }
}

/// An image is resized only when it is at least as large as the requested
/// resolution in both dimensions.
pub fn should_resize(width: u32, height: u32, target_width: u32, target_height: u32) -> (r: bool)
    ensures
        r == (width >= target_width && height >= target_height),
{
    !(width < target_width || height < target_height)
}

/// The name an upload is stored under: its identifier, `_`, its own name.
pub fn stored_name(id: &str, original: &str) -> (r: String)
    ensures
        r@ == id@ + "_"@ + original@,
{
    join(join(id, "_").as_str(), original)
}

} // verus!
