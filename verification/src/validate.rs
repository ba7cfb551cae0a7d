use vstd::prelude::*;

use crate::error::Error;

verus! {

/// True when some byte of `s` is nul. A buffer with an interior nul cannot
/// be handed to the native API, which takes nul-terminated strings.
pub open spec fn has_nul_byte(s: Seq<u8>) -> bool {
    exists|i: int| 0 <= i < s.len() && s[i] == 0u8
}

/// True when `b` is a UTF-8 continuation byte (of the form `10xxxxxx`).
pub open spec fn is_continuation(b: u8) -> bool {
    0x80 <= b <= 0xBF
}

/// Number of bytes in the encoded scalar value whose leading byte is `b`.
/// Meaningful only for leading bytes that `well_formed_at` accepts; other
/// bytes are given length 1 so that the measure below always decreases.
pub open spec fn encoded_len(b: u8) -> int {
    if b < 0x80 {
        1
    } else if 0xC2 <= b <= 0xDF {
        2
    } else if 0xE0 <= b <= 0xEF {
        3
    } else if 0xF0 <= b <= 0xF4 {
        4
    } else {
        1
    }
}

/// The bytes of `s` starting at position `i` begin a well-formed UTF-8
/// encoded scalar value that lies entirely within `s`. The ranges follow
/// the UTF-8 table: they exclude overlong forms, surrogate code points and
/// values above the last scalar value.
pub open spec fn well_formed_at(s: Seq<u8>, i: int) -> bool {
    let b0 = s[i];
    if b0 < 0x80 {
        true
    } else if 0xC2 <= b0 <= 0xDF {
        i + 2 <= s.len() && is_continuation(s[i + 1])
    } else if b0 == 0xE0 {
        i + 3 <= s.len() && 0xA0 <= s[i + 1] <= 0xBF && is_continuation(s[i + 2])
    } else if 0xE1 <= b0 <= 0xEC || 0xEE <= b0 <= 0xEF {
        i + 3 <= s.len() && is_continuation(s[i + 1]) && is_continuation(s[i + 2])
    } else if b0 == 0xED {
        i + 3 <= s.len() && 0x80 <= s[i + 1] <= 0x9F && is_continuation(s[i + 2])
    } else if b0 == 0xF0 {
        i + 4 <= s.len() && 0x90 <= s[i + 1] <= 0xBF && is_continuation(s[i + 2])
            && is_continuation(s[i + 3])
    } else if 0xF1 <= b0 <= 0xF3 {
        i + 4 <= s.len() && is_continuation(s[i + 1]) && is_continuation(s[i + 2])
            && is_continuation(s[i + 3])
    } else if b0 == 0xF4 {
        i + 4 <= s.len() && 0x80 <= s[i + 1] <= 0x8F && is_continuation(s[i + 2])
            && is_continuation(s[i + 3])
    } else {
        false
    }
}

/// The suffix of `s` that starts at position `i` is well-formed UTF-8.
pub open spec fn valid_utf8_from(s: Seq<u8>, i: int) -> bool
    decreases s.len() - i,
{
    if i >= s.len() || i < 0 {
        true
    } else if well_formed_at(s, i) {
        valid_utf8_from(s, i + encoded_len(s[i]))
    } else {
        false
    }
}

/// `s` is a well-formed UTF-8 byte sequence.
pub open spec fn valid_utf8(s: Seq<u8>) -> bool {
    valid_utf8_from(s, 0)
}

/// What validating raw path bytes yields: the first check that fails names
/// the error (an interior nul before malformed UTF-8, as the native-string
/// conversion precedes the text rendering), and on success the buffer is the
/// input with a terminating nul appended.
pub open spec fn spec_validate_bytes(bytes: Seq<u8>) -> Result<Seq<u8>, Error> {
    if has_nul_byte(bytes) {
        Err(Error::NulByteInContent)
    } else if !valid_utf8(bytes) {
        Err(Error::NonUtf8Content)
    } else {
        Ok(bytes.push(0u8))
    }
}

/// Whether any byte of `v` is nul.
pub fn contains_nul_byte(v: &Vec<u8>) -> (r: bool)
    ensures
        r == has_nul_byte(v@),
{
    let mut i: usize = 0;
    while i < v.len()
        invariant
            0 <= i <= v@.len(),
            forall|j: int| 0 <= j < i ==> v@[j] != 0u8,
        decreases v@.len() - i,
    {
        if v[i] == 0 {
            assert(has_nul_byte(v@)) by {
                assert(v@[i as int] == 0u8);
            }
            return true;
        }
        i += 1;
    }
    false
}

/// Whether `b` is a UTF-8 continuation byte.
fn is_continuation_byte(b: u8) -> (r: bool)
    ensures
        r == is_continuation(b),
{
    0x80 <= b && b <= 0xBF
}

/// Whether `v` is a well-formed UTF-8 byte sequence.
pub fn check_utf8(v: &Vec<u8>) -> (r: bool)
    ensures
        r == valid_utf8(v@),
{
    let n = v.len();
    let mut i: usize = 0;
    while i < n
        invariant
            n == v@.len(),
            0 <= i <= n,
            valid_utf8(v@) == valid_utf8_from(v@, i as int),
        decreases n - i,
    {
        let b0 = v[i];
        if b0 < 0x80 {
            i = i + 1;
        } else if 0xC2 <= b0 && b0 <= 0xDF {
            if n - i < 2 || !is_continuation_byte(v[i + 1]) {
                assert(!well_formed_at(v@, i as int));
                return false;
            }
            i = i + 2;
        } else if b0 == 0xE0 {
            if n - i < 3 {
                assert(!well_formed_at(v@, i as int));
                return false;
            }
            let b1 = v[i + 1];
            if !(0xA0 <= b1 && b1 <= 0xBF) || !is_continuation_byte(v[i + 2]) {
                assert(!well_formed_at(v@, i as int));
                return false;
            }
            i = i + 3;
        } else if (0xE1 <= b0 && b0 <= 0xEC) || (0xEE <= b0 && b0 <= 0xEF) {
            if n - i < 3 || !is_continuation_byte(v[i + 1]) || !is_continuation_byte(v[i + 2]) {
                assert(!well_formed_at(v@, i as int));
                return false;
            }
            i = i + 3;
        } else if b0 == 0xED {
            if n - i < 3 {
                assert(!well_formed_at(v@, i as int));
                return false;
            }
            let b1 = v[i + 1];
            if !(0x80 <= b1 && b1 <= 0x9F) || !is_continuation_byte(v[i + 2]) {
                assert(!well_formed_at(v@, i as int));
                return false;
            }
            i = i + 3;
        } else if b0 == 0xF0 {
            if n - i < 4 {
                assert(!well_formed_at(v@, i as int));
                return false;
            }
            let b1 = v[i + 1];
            if !(0x90 <= b1 && b1 <= 0xBF) || !is_continuation_byte(v[i + 2])
                || !is_continuation_byte(v[i + 3]) {
                assert(!well_formed_at(v@, i as int));
                return false;
            }
            i = i + 4;
        } else if 0xF1 <= b0 && b0 <= 0xF3 {
            if n - i < 4 || !is_continuation_byte(v[i + 1]) || !is_continuation_byte(v[i + 2])
                || !is_continuation_byte(v[i + 3]) {
                assert(!well_formed_at(v@, i as int));
                return false;
            }
            i = i + 4;
        } else if b0 == 0xF4 {
            if n - i < 4 {
                assert(!well_formed_at(v@, i as int));
                return false;
            }
            let b1 = v[i + 1];
            if !(0x80 <= b1 && b1 <= 0x8F) || !is_continuation_byte(v[i + 2])
                || !is_continuation_byte(v[i + 3]) {
                assert(!well_formed_at(v@, i as int));
                return false;
            }
            i = i + 4;
        } else {
            assert(!well_formed_at(v@, i as int));
            return false;
        }
    }
    true
}

/// Validate raw path (or reason) bytes and turn them into the nul-terminated
/// buffer the native API takes: rejects an interior nul, then malformed
/// UTF-8, and otherwise appends the terminating nul.
pub fn c_path_bytes(bytes: Vec<u8>) -> (r: Result<Vec<u8>, Error>)
    ensures
        (match r {
            Ok(p) => Ok(p@),
            Err(e) => Err(e),
        }) == spec_validate_bytes(bytes@),
{
    if contains_nul_byte(&bytes) {
        return Err(Error::NulByteInContent);
    }
    if !check_utf8(&bytes) {
        return Err(Error::NonUtf8Content);
    }
    let mut out = bytes;
    out.push(0u8);
    Ok(out)
}

} // verus!
