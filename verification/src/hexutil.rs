//! ASCII hexadecimal decoding for stored hash strings.

use vstd::prelude::*;

verus! {

/// The byte is an ASCII hexadecimal digit.
pub open spec fn is_hex_digit(c: u8) -> bool {
    (48 <= c && c <= 57) || (65 <= c && c <= 70) || (97 <= c && c <= 102)
}

/// Numeric value of an ASCII hexadecimal digit.
pub open spec fn hex_val(c: u8) -> int {
    if 48 <= c && c <= 57 {
        c - 48
    } else if 65 <= c && c <= 70 {
        c - 55
    } else {
        c - 87
    }
}

/// Every byte of the sequence is an ASCII hexadecimal digit.
pub open spec fn all_hex(s: Seq<u8>) -> bool {
    forall|i: int| 0 <= i < s.len() ==> is_hex_digit(#[trigger] s[i])
}

/// The bytes encoded by a sequence of hex digits, two digits per byte,
/// most significant digit first.
pub open spec fn hex_decoded(s: Seq<u8>) -> Seq<u8> {
    Seq::new((s.len() / 2) as nat, |i: int| (hex_val(s[2 * i]) * 16 + hex_val(s[2 * i + 1])) as u8)
}

/// Decodes one ASCII character as a hexadecimal digit.
pub fn hex_nibble(c: u8) -> (r: Option<u8>)
    ensures
        r is Some <==> is_hex_digit(c),
        r is Some ==> r.unwrap() as int == hex_val(c) && r.unwrap() < 16,
{
    if 48 <= c && c <= 57 {
        Some(c - 48)
    } else if 65 <= c && c <= 70 {
        Some(c - 55)
    } else if 97 <= c && c <= 102 {
        Some(c - 87)
    } else {
        None
    }
}

/// Decodes the hex digits of `s` starting at index `start` into bytes.
/// Fails exactly when an odd number of digits remains or a non-digit occurs.
pub fn decode_hex_from(s: &Vec<u8>, start: usize) -> (r: Option<Vec<u8>>)
    requires
        start <= s@.len(),
    ensures
        r is Some <==> ((s@.len() - start) % 2 == 0 && all_hex(s@.skip(start as int))),
        r is Some ==> r.unwrap()@ == hex_decoded(s@.skip(start as int)),
{
    let n = s.len() - start;
    if n % 2 != 0 {
        return None;
    }
    let count = n / 2;
    let mut out: Vec<u8> = Vec::new();
    let mut i: usize = 0;
    while i < count
        invariant
            start + n == s@.len(),
            start + n <= usize::MAX,
            n % 2 == 0,
            count == n / 2,
            i <= count,
            out@.len() == i,
            forall|j: int|
                0 <= j < i ==> is_hex_digit(#[trigger] s@[start + 2 * j]) && is_hex_digit(
                    s@[start + 2 * j + 1],
                ) && out@[j] == (hex_val(s@[start + 2 * j]) * 16 + hex_val(
                    s@[start + 2 * j + 1],
                )) as u8,
        decreases count - i,
    {
        let c1 = s[start + 2 * i];
        let c2 = s[start + 2 * i + 1];
        let h1 = match hex_nibble(c1) {
            Some(h) => h,
            None => {
                proof {
                    assert(!is_hex_digit(s@.skip(start as int)[2 * i as int]));
                }
                return None;
            },
        };
        let h2 = match hex_nibble(c2) {
            Some(h) => h,
            None => {
                proof {
                    assert(!is_hex_digit(s@.skip(start as int)[2 * i as int + 1]));
                }
                return None;
            },
        };
        out.push(h1 * 16 + h2);
        i = i + 1;
    }
    proof {
        let digits = s@.skip(start as int);
        assert forall|k: int| 0 <= k < digits.len() implies is_hex_digit(#[trigger] digits[k]) by {
            let j = k / 2;
            assert(digits[k] == s@[start + k]);
            assert(is_hex_digit(s@[start + 2 * j]));
            if k % 2 == 0 {
                assert(k == 2 * j);
            } else {
                assert(k == 2 * j + 1);
                assert(is_hex_digit(s@[start + 2 * j + 1]));
            }
        }
        assert forall|j: int| 0 <= j < count as int implies out@[j] == (hex_val(digits[2 * j]) * 16
            + hex_val(digits[2 * j + 1])) as u8 by {
            assert(digits[2 * j] == s@[start + 2 * j]);
            assert(digits[2 * j + 1] == s@[start + 2 * j + 1]);
            assert(out@[j] == (hex_val(s@[start + 2 * j]) * 16 + hex_val(
                s@[start + 2 * j + 1],
            )) as u8);
        }
        assert(out@ =~= hex_decoded(digits));
    }
    Some(out)
}

/// Copies the byte range `[from, to)` of `v` into a fresh vector.
pub fn copy_range(v: &Vec<u8>, from: usize, to: usize) -> (r: Vec<u8>)
    requires
        from <= to <= v@.len(),
    ensures
        r@ == v@.subrange(from as int, to as int),
{
    let mut out: Vec<u8> = Vec::new();
    let mut i: usize = from;
    while i < to
        invariant
            from <= i <= to <= v@.len(),
            out@ =~= v@.subrange(from as int, i as int),
        decreases to - i,
    {
        out.push(v[i]);
        proof {
            assert(out@ =~= v@.subrange(from as int, i + 1 as int));
        }
        i = i + 1;
    }
    out
}

} // verus!
