//! Properties of decoding and applying, proved over the models that the
//! contracts of [`crate::UpsPatch`] use.
use vstd::prelude::*;

use crate::apply::{apply_checked_spec, apply_spec, initial_output, replay, span};
use crate::checksum::{crc32_of, le_u32_at};
use crate::error::UpsError;
use crate::patch::{decode_spec, has_magic, parse_layout, PatchSpec, UpsPatch};

verus! {

/// Bytes that do not open with `"UPS1"` never decode: the error is `Format`.
pub proof fn lemma_no_magic_is_format_error(s: Seq<u8>)
    requires
        !has_magic(s),
    ensures
        decode_spec(s) == Err::<PatchSpec, UpsError>(UpsError::Format),
{
}

/// Bytes laid out as a patch decode exactly when the CRC32 of all but their
/// last four bytes equals those four bytes read as a little-endian `u32`.
pub proof fn lemma_checksum_decides(s: Seq<u8>)
    requires
        parse_layout(s) is Some,
    ensures
        decode_spec(s) is Ok <==> crc32_of(s.subrange(0, s.len() - 4)) == le_u32_at(
            s,
            s.len() - 4,
        ) as u32,
{
}

/// Two patches decoded from the same bytes state the same sizes, records
/// and checksums.
pub proof fn lemma_decode_deterministic(p: UpsPatch, q: UpsPatch)
    requires
        p.wf(),
        q.wf(),
        p.raw_bytes() == q.raw_bytes(),
    ensures
        p@ == q@,
{
}

/// Records that reach past the target size make applying fail with
/// `Bounds`, with or without the source check.
pub proof fn lemma_out_of_bounds_fails(p: PatchSpec, source: Seq<u8>)
    requires
        span(p.edits) > p.target_size,
    ensures
        apply_spec(p, source) == Err::<Seq<u8>, UpsError>(UpsError::Bounds),
        apply_checked_spec(p, source) is Err,
{
}

/// Changing one byte after the magic and before the trailer, where the
/// result is still laid out as a patch, makes decoding fail with
/// `Integrity` exactly when the CRC32 of the changed bytes differs from
/// that of the original ones.
pub proof fn lemma_body_change_detected(s: Seq<u8>, i: int, v: u8)
    requires
        decode_spec(s) is Ok,
        4 <= i < s.len() - 12,
        parse_layout(s.update(i, v)) is Some,
    ensures
        decode_spec(s.update(i, v)) == Err::<PatchSpec, UpsError>(UpsError::Integrity) <==> crc32_of(
            s.update(i, v).subrange(0, s.len() - 4),
        ) != crc32_of(s.subrange(0, s.len() - 4)),
{
    let c = s.update(i, v);
    assert(le_u32_at(c, c.len() - 4) == le_u32_at(s, s.len() - 4));
}

/// A patch without records whose sizes are both the source's length and
/// whose target checksum is the source's CRC32 gives the source back.
pub proof fn lemma_identity_patch(p: PatchSpec, source: Seq<u8>)
    requires
        p.edits.len() == 0,
        p.source_size == source.len(),
        p.target_size == source.len(),
        p.target_checksum == crc32_of(source),
    ensures
        apply_spec(p, source) == Ok::<Seq<u8>, UpsError>(source),
{
    assert(initial_output(source, p.target_size) =~= source);
}

/// The byte XORed into position `i` by `edits`, zero where no run covers it.
pub open spec fn xor_at(edits: Seq<(nat, Seq<u8>)>, i: int) -> u8
    decreases edits.len(),
{
    if edits.len() == 0 {
        0
    } else {
        let prev = edits.drop_last();
        let start = span(prev) + edits.last().0;
        if start <= i < start + edits.last().1.len() {
            edits.last().1[i - start]
        } else {
            xor_at(prev, i)
        }
    }
}

/// Patch `p` encodes the change from `source` to `target`: it states the
/// target's size and CRC32, its records stay within the target, and each
/// target byte is the source byte there (zero past the source's end) XORed
/// with the record byte that covers it, if any.
pub open spec fn encodes_diff(p: PatchSpec, source: Seq<u8>, target: Seq<u8>) -> bool {
    &&& p.target_size == target.len()
    &&& span(p.edits) <= target.len()
    &&& p.target_checksum == crc32_of(target)
    &&& forall|i: int|
        0 <= i < target.len() ==> #[trigger] target[i] == initial_output(source, p.target_size)[i]
            ^ xor_at(p.edits, i)
}

proof fn lemma_xor_at_past_span(edits: Seq<(nat, Seq<u8>)>, i: int)
    requires
        i >= span(edits),
    ensures
        xor_at(edits, i) == 0,
    decreases edits.len(),
{
    if edits.len() > 0 {
        lemma_xor_at_past_span(edits.drop_last(), i);
    }
}

proof fn lemma_replay_pointwise(buf: Seq<u8>, edits: Seq<(nat, Seq<u8>)>)
    ensures
        replay(buf, edits).len() == buf.len(),
        forall|i: int|
            0 <= i < buf.len() ==> #[trigger] replay(buf, edits)[i] == buf[i] ^ xor_at(edits, i),
    decreases edits.len(),
{
    if edits.len() > 0 {
        let prev = edits.drop_last();
        let start = span(prev) + edits.last().0;
        let run = edits.last().1;
        lemma_replay_pointwise(buf, prev);
        assert forall|i: int| 0 <= i < buf.len() implies #[trigger] replay(buf, edits)[i] == buf[i]
            ^ xor_at(edits, i) by {
            if start <= i < start + run.len() {
                lemma_xor_at_past_span(prev, i);
                let b = buf[i];
                let r = run[i - start];
                assert((b ^ 0u8) ^ r == b ^ r) by (bit_vector);
            }
        }
    } else {
        assert forall|i: int| 0 <= i < buf.len() implies #[trigger] replay(buf, edits)[i] == buf[i]
            ^ xor_at(edits, i) by {
            let b = buf[i];
            assert(b ^ 0u8 == b) by (bit_vector);
        }
    }
}

/// A patch that encodes the change from `source` to `target` turns
/// `source` into exactly `target`, whose CRC32 is the stored target
/// checksum.
pub proof fn lemma_round_trip(p: PatchSpec, source: Seq<u8>, target: Seq<u8>)
    requires
        encodes_diff(p, source, target),
    ensures
        apply_spec(p, source) == Ok::<Seq<u8>, UpsError>(target),
        crc32_of(target) == p.target_checksum,
{
    let init = initial_output(source, p.target_size);
    lemma_replay_pointwise(init, p.edits);
    assert(replay(init, p.edits) =~= target);
}

} // verus!
