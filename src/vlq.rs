//! The variable-length unsigned integers of the UPS format.
//!
//! Each byte contributes its low seven bits at the current weight; a byte
//! with the high bit set is the last one. After each byte without the high
//! bit the weight is multiplied by 128 and the new weight is added to the
//! value, so that no value has two encodings.
use vstd::prelude::*;

verus! {

/// The value of the integer whose encoding starts at `s[pos]`, with `acc`
/// read so far at weight `mult`, together with the position just past its
/// last byte. `None` when no terminating byte occurs before `end`.
pub open spec fn vlq_from(s: Seq<u8>, pos: int, end: int, mult: int, acc: int) -> Option<(int, int)>
    decreases end - pos,
{
    if pos < 0 || pos >= end || end > s.len() {
        None
    } else {
        let b = s[pos] as int;
        let acc2 = acc + (b % 128) * mult;
        if b >= 128 {
            Some((acc2, pos + 1))
        } else {
            vlq_from(s, pos + 1, end, mult * 128, acc2 + mult * 128)
        }
    }
}

/// The integer encoded at `s[pos..end]` and the position after it, where it
/// is terminated before `end` and its value fits in a `usize`.
pub open spec fn vlq_at(s: Seq<u8>, pos: int, end: int) -> Option<(int, int)> {
    match vlq_from(s, pos, end, 1, 0) {
        Some((v, next)) => if v <= usize::MAX {
            Some((v, next))
        } else {
            None
        },
        None => None,
    }
}

proof fn lemma_vlq_from_grows(s: Seq<u8>, pos: int, end: int, mult: int, acc: int)
    requires
        mult >= 0,
    ensures
        vlq_from(s, pos, end, mult, acc) matches Some((v, next)) ==> {
            &&& v >= acc
            &&& pos < next <= end
            &&& v >= acc + (s[pos] as int % 128) * mult
            &&& (s[pos] < 128 ==> v >= acc + (s[pos] as int % 128) * mult + mult * 128)
        },
    decreases end - pos,
{
    if !(pos < 0 || pos >= end || end > s.len()) {
        let b = s[pos] as int;
        assert((b % 128) * mult >= 0) by (nonlinear_arith)
            requires
                mult >= 0,
                0 <= b % 128,
        ;
        if b < 128 {
            let acc2 = acc + (b % 128) * mult;
            assert(mult * 128 >= 0) by (nonlinear_arith)
                requires
                    mult >= 0,
            ;
            lemma_vlq_from_grows(s, pos + 1, end, mult * 128, acc2 + mult * 128);
        }
    }
}

/// Reads the integer encoded at `data[pos..end]`: its value and the position
/// after its last byte, or `None` where it is unterminated before `end` or
/// its value does not fit in a `usize`.
pub(crate) fn read_vlq(data: &[u8], pos: usize, end: usize) -> (r: Option<(usize, usize)>)
    requires
        pos <= end <= data@.len(),
    ensures
        r matches Some((v, next)) ==> vlq_at(data@, pos as int, end as int) == Some(
            (v as int, next as int),
        ) && pos < next <= end,
        r is None ==> vlq_at(data@, pos as int, end as int) is None,
{
    let mut value: usize = 0;
    let mut mult: usize = 1;
    let mut i: usize = pos;
    while i < end
        invariant
            pos <= i <= end <= data@.len(),
            mult >= 1,
            vlq_from(data@, pos as int, end as int, 1, 0) == vlq_from(
                data@,
                i as int,
                end as int,
                mult as int,
                value as int,
            ),
        decreases end - i,
    {
        let b = data[i];
        let low = b & 0x7f;
        assert(low as int == b as int % 128) by (bit_vector)
            requires
                low == b & 0x7f,
        ;
        proof {
            lemma_vlq_from_grows(data@, i as int, end as int, mult as int, value as int);
        }
        let add = match (low as usize).checked_mul(mult) {
            Some(a) => a,
            None => return None,
        };
        value = match value.checked_add(add) {
            Some(v) => v,
            None => return None,
        };
        if b >= 0x80 {
            return Some((value, i + 1));
        }
        mult = match mult.checked_mul(128) {
            Some(m) => m,
            None => return None,
        };
        value = match value.checked_add(mult) {
            Some(v) => v,
            None => return None,
        };
        i = i + 1;
    }
    None
}

/// Decodes the integer at the start of `bytes`: its value and the number of
/// bytes it takes, or `None` where the encoding does not end within `bytes`
/// or its value does not fit in a `usize`.
pub fn decode_vlq(bytes: &[u8]) -> (r: Option<(usize, usize)>)
    ensures
        r matches Some((v, n)) ==> vlq_at(bytes@, 0, bytes@.len() as int) == Some(
            (v as int, n as int),
        ),
        r is None ==> vlq_at(bytes@, 0, bytes@.len() as int) is None,
{
    read_vlq(bytes, 0, bytes.len())
}

} // verus!
