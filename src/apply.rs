//! Replaying a patch's edit records over a source buffer.
use vstd::prelude::*;

use crate::checksum::{crc32, crc32_of};
use crate::error::UpsError;
use crate::patch::{EditRecord, PatchSpec, UpsPatch};

verus! {

/// How far the records reach into the output: the sum of every skip count
/// and every XOR run length.
pub open spec fn span(edits: Seq<(nat, Seq<u8>)>) -> nat
    decreases edits.len(),
{
    if edits.len() == 0 {
        0
    } else {
        span(edits.drop_last()) + edits.last().0 + edits.last().1.len()
    }
}

/// The output before any record is applied: `target_size` bytes, those the
/// source has copied from it and the rest zero.
pub open spec fn initial_output(source: Seq<u8>, target_size: nat) -> Seq<u8> {
    Seq::new(target_size, |i: int| if i < source.len() { source[i] } else { 0u8 })
}

/// `buf` with `run` XORed into it from position `start` on.
pub open spec fn xor_run(buf: Seq<u8>, start: int, run: Seq<u8>) -> Seq<u8> {
    Seq::new(
        buf.len(),
        |i: int| if start <= i < start + run.len() { buf[i] ^ run[i - start] } else { buf[i] },
    )
}

/// `buf` after the records are applied in order, each starting its run
/// where the previous one ended plus its skip count.
pub open spec fn replay(buf: Seq<u8>, edits: Seq<(nat, Seq<u8>)>) -> Seq<u8>
    decreases edits.len(),
{
    if edits.len() == 0 {
        buf
    } else {
        let prev = edits.drop_last();
        xor_run(replay(buf, prev), (span(prev) + edits.last().0) as int, edits.last().1)
    }
}

/// The result of applying patch `p` to `source`: `Bounds` where the records
/// reach past the target size, else the replayed output provided its CRC32
/// is the stored target checksum.
pub open spec fn apply_spec(p: PatchSpec, source: Seq<u8>) -> Result<Seq<u8>, UpsError> {
    if span(p.edits) > p.target_size {
        Err(UpsError::Bounds)
    } else {
        let out = replay(initial_output(source, p.target_size), p.edits);
        if crc32_of(out) == p.target_checksum {
            Ok(out)
        } else {
            Err(UpsError::Integrity)
        }
    }
}

/// As [`apply_spec`], after first requiring the CRC32 of the source to be
/// the stored source checksum.
pub open spec fn apply_checked_spec(p: PatchSpec, source: Seq<u8>) -> Result<Seq<u8>, UpsError> {
    if crc32_of(source) != p.source_checksum {
        Err(UpsError::Integrity)
    } else {
        apply_spec(p, source)
    }
}

proof fn lemma_take_step(edits: Seq<(nat, Seq<u8>)>, k: int, buf: Seq<u8>)
    requires
        0 <= k < edits.len(),
    ensures
        span(edits.take(k + 1)) == span(edits.take(k)) + edits[k].0 + edits[k].1.len(),
        replay(buf, edits.take(k + 1)) == xor_run(
            replay(buf, edits.take(k)),
            (span(edits.take(k)) + edits[k].0) as int,
            edits[k].1,
        ),
{
    assert(edits.take(k + 1).drop_last() =~= edits.take(k));
}

proof fn lemma_span_monotone(edits: Seq<(nat, Seq<u8>)>, k: int)
    requires
        0 <= k <= edits.len(),
    ensures
        span(edits.take(k)) <= span(edits),
    decreases edits.len() - k,
{
    if k < edits.len() {
        lemma_take_step(edits, k, Seq::empty());
        lemma_span_monotone(edits, k + 1);
    } else {
        assert(edits.take(k) =~= edits);
    }
}

/// The first `target_size` bytes of `source`, padded with zeros.
fn initial_buffer(source: &[u8], target_size: usize) -> (r: Vec<u8>)
    ensures
        r@ == initial_output(source@, target_size as nat),
{
    let mut out: Vec<u8> = Vec::with_capacity(target_size);
    let mut i: usize = 0;
    while i < target_size
        invariant
            i <= target_size,
            out@.len() == i,
            forall|j: int|
                0 <= j < i ==> #[trigger] out@[j] == initial_output(source@, target_size as nat)[j],
        decreases target_size - i,
    {
        if i < source.len() {
            out.push(source[i]);
        } else {
            out.push(0);
        }
        i = i + 1;
    }
    assert(out@ =~= initial_output(source@, target_size as nat));
    out
}

/// XORs `run` into `out` from position `start` on.
fn xor_into(out: &mut Vec<u8>, start: usize, run: &Vec<u8>)
    requires
        start + run@.len() <= old(out)@.len(),
    ensures
        final(out)@ == xor_run(old(out)@, start as int, run@),
{
    let ghost before = out@;
    let len = out.len();
    let mut j: usize = 0;
    while j < run.len()
        invariant
            j <= run@.len(),
            start + run@.len() <= before.len(),
            out@ == xor_run(before, start as int, run@.take(j as int)),
            out@.len() == before.len(),
            before.len() == len,
        decreases run@.len() - j,
    {
        let idx = start + j;
        let v = out[idx] ^ run[j];
        out[idx] = v;
        assert(xor_run(before, start as int, run@.take(j + 1)) =~= out@);
        j = j + 1;
    }
    assert(run@.take(run@.len() as int) =~= run@);
}

impl UpsPatch {
    /// Applies the patch to `source`: the output starts as `source` cut or
    /// zero-padded to the target size, each record skips its count of bytes
    /// and XORs its run in, and the result must have the stored target
    /// checksum. The source checksum is not looked at.
    pub fn apply(&self, source: &[u8]) -> (r: Result<Vec<u8>, UpsError>)
        ensures
            match apply_spec(self@, source@) {
                Ok(out) => r matches Ok(v) && v@ == out,
                Err(e) => r == Err::<Vec<u8>, UpsError>(e),
            },
    {
        let target_size = self.target_size();
        let edits = self.edits();
        let ghost es = self@.edits;
        let ghost init = initial_output(source@, target_size as nat);
        let mut out = initial_buffer(source, target_size);
        let mut pos: usize = 0;
        let mut k: usize = 0;
        while k < edits.len()
            invariant
                k <= edits@.len(),
                edits@.map_values(|e: EditRecord| e@) == es,
                es == self@.edits,
                target_size == self@.target_size,
                init == initial_output(source@, target_size as nat),
                out@ == replay(init, es.take(k as int)),
                out@.len() == target_size,
                pos == span(es.take(k as int)),
                pos <= target_size,
            decreases edits@.len() - k,
        {
            let e = &edits[k];
            assert(es[k as int] == e@);
            proof {
                lemma_take_step(es, k as int, init);
                lemma_span_monotone(es, k as int + 1);
            }
            let start = match pos.checked_add(e.relative_offset) {
                Some(s) => s,
                None => return Err(UpsError::Bounds),
            };
            if start > target_size || e.xor_bytes.len() > target_size - start {
                return Err(UpsError::Bounds);
            }
            xor_into(&mut out, start, &e.xor_bytes);
            pos = start + e.xor_bytes.len();
            k = k + 1;
        }
        assert(es.take(k as int) =~= es);
        if crc32(out.as_slice()) != self.target_checksum() {
            return Err(UpsError::Integrity);
        }
        Ok(out)
    }

    /// As [`UpsPatch::apply`], but first fails with `Integrity` unless the
    /// CRC32 of `source` is the stored source checksum.
    pub fn apply_checked(&self, source: &[u8]) -> (r: Result<Vec<u8>, UpsError>)
        ensures
            match apply_checked_spec(self@, source@) {
                Ok(out) => r matches Ok(v) && v@ == out,
                Err(e) => r == Err::<Vec<u8>, UpsError>(e),
            },
    {
        if crc32(source) != self.source_checksum() {
            return Err(UpsError::Integrity);
        }
        self.apply(source)
    }
}

} // verus!
