//! The layout of a UPS patch, and decoding it into a [`UpsPatch`].
use vstd::prelude::*;
use vstd::slice::{slice_subrange, slice_to_vec};

use crate::checksum::{crc32, crc32_of, le_u32_at, read_le_u32};
use crate::error::UpsError;
use crate::vlq::{read_vlq, vlq_at};

verus! {

/// Length of the three CRC32 values that close every patch.
pub const TRAILER_LEN: usize = 12;

/// What a patch states, as mathematical values.
pub struct PatchSpec {
    pub source_size: nat,
    pub target_size: nat,
    /// The edit records in file order: the count of bytes to skip, and the
    /// bytes to XOR in after them.
    pub edits: Seq<(nat, Seq<u8>)>,
    pub source_checksum: u32,
    pub target_checksum: u32,
    pub patch_checksum: u32,
}

/// Whether `s` opens with the ASCII magic `"UPS1"`.
pub open spec fn has_magic(s: Seq<u8>) -> bool {
    &&& s.len() >= 4
    &&& s[0] == 0x55u8
    &&& s[1] == 0x50u8
    &&& s[2] == 0x53u8
    &&& s[3] == 0x31u8
}

/// The position of the first zero byte in `s[pos..end]`.
pub open spec fn next_zero(s: Seq<u8>, pos: int, end: int) -> Option<int>
    decreases end - pos,
{
    if pos < 0 || pos >= end || end > s.len() {
        None
    } else if s[pos] == 0 {
        Some(pos)
    } else {
        next_zero(s, pos + 1, end)
    }
}

/// The edit records that exactly fill `s[pos..end]`: each a skip count, then
/// the bytes up to a zero byte, which ends the record.
pub open spec fn parse_records(s: Seq<u8>, pos: int, end: int) -> Option<Seq<(nat, Seq<u8>)>>
    decreases end - pos,
{
    if pos >= end {
        if pos == end {
            Some(Seq::empty())
        } else {
            None
        }
    } else {
        match vlq_at(s, pos, end) {
            None => None,
            Some((skip, run)) => match next_zero(s, run, end) {
                None => None,
                Some(z) => if pos < run <= z < end {
                    match parse_records(s, z + 1, end) {
                        None => None,
                        Some(rest) => Some(seq![(skip as nat, s.subrange(run, z))] + rest),
                    }
                } else {
                    None
                },
            },
        }
    }
}

/// The structure of `s` as a patch, with the stored checksums as they
/// stand; `None` where `s` is not laid out as a UPS patch.
pub open spec fn parse_layout(s: Seq<u8>) -> Option<PatchSpec> {
    if !has_magic(s) || s.len() < 4 + TRAILER_LEN {
        None
    } else {
        let end = s.len() - TRAILER_LEN;
        match vlq_at(s, 4, end) {
            None => None,
            Some((source_size, p1)) => match vlq_at(s, p1, end) {
                None => None,
                Some((target_size, p2)) => match parse_records(s, p2, end) {
                    None => None,
                    Some(edits) => Some(
                        PatchSpec {
                            source_size: source_size as nat,
                            target_size: target_size as nat,
                            edits,
                            source_checksum: le_u32_at(s, end) as u32,
                            target_checksum: le_u32_at(s, end + 4) as u32,
                            patch_checksum: le_u32_at(s, end + 8) as u32,
                        },
                    ),
                },
            },
        }
    }
}

/// The result of decoding `s`: its layout, provided that the CRC32 of all
/// of `s` but its last four bytes equals the stored patch checksum.
pub open spec fn decode_spec(s: Seq<u8>) -> Result<PatchSpec, UpsError> {
    if !has_magic(s) {
        Err(UpsError::Format)
    } else {
        match parse_layout(s) {
            None => Err(UpsError::Format),
            Some(p) => if crc32_of(s.subrange(0, s.len() - 4)) == p.patch_checksum {
                Ok(p)
            } else {
                Err(UpsError::Integrity)
            },
        }
    }
}

/// One edit record: skip `relative_offset` unchanged bytes, then XOR
/// `xor_bytes` into the bytes that follow.
#[derive(Clone, Debug, PartialEq, Eq)]
pub struct EditRecord {
    pub relative_offset: usize,
    pub xor_bytes: Vec<u8>,
}

impl View for EditRecord {
    type V = (nat, Seq<u8>);

    open spec fn view(&self) -> (nat, Seq<u8>) {
        (self.relative_offset as nat, self.xor_bytes@)
    }
}

/// A decoded UPS patch. It keeps the bytes it was decoded from, and only
/// [`UpsPatch::decode`] makes one, so its fields always agree with them.
#[derive(Clone, Debug)]
pub struct UpsPatch {
    raw: Vec<u8>,
    source_size: usize,
    target_size: usize,
    edits: Vec<EditRecord>,
    source_checksum: u32,
    target_checksum: u32,
    patch_checksum: u32,
}

impl View for UpsPatch {
    type V = PatchSpec;

    closed spec fn view(&self) -> PatchSpec {
        PatchSpec {
            source_size: self.source_size as nat,
            target_size: self.target_size as nat,
            edits: self.edits@.map_values(|e: EditRecord| e@),
            source_checksum: self.source_checksum,
            target_checksum: self.target_checksum,
            patch_checksum: self.patch_checksum,
        }
    }
}

/// Reads the edit records that fill `data[pos..end]`.
fn read_records(data: &[u8], pos: usize, end: usize) -> (r: Option<Vec<EditRecord>>)
    requires
        pos <= end <= data@.len(),
    ensures
        match parse_records(data@, pos as int, end as int) {
            Some(edits) => r matches Some(v) && v@.map_values(|e: EditRecord| e@) == edits,
            None => r is None,
        },
{
    let mut edits: Vec<EditRecord> = Vec::new();
    let mut p: usize = pos;
    while p < end
        invariant
            pos <= p <= end <= data@.len(),
            parse_records(data@, pos as int, end as int) == match parse_records(
                data@,
                p as int,
                end as int,
            ) {
                Some(rest) => Some(edits@.map_values(|e: EditRecord| e@) + rest),
                None => None::<Seq<(nat, Seq<u8>)>>,
            },
        decreases end - p,
    {
        let (skip, run) = match read_vlq(data, p, end) {
            Some(x) => x,
            None => return None,
        };
        let mut z: usize = run;
        while z < end && data[z] != 0
            invariant
                p < run <= z <= end <= data@.len(),
                next_zero(data@, run as int, end as int) == next_zero(data@, z as int, end as int),
            decreases end - z,
        {
            z = z + 1;
        }
        if z >= end {
            return None;
        }
        proof {
            assert(next_zero(data@, z as int, end as int) == Some(z as int));
        }
        let xor_bytes = slice_to_vec(slice_subrange(data, run, z));
        let ghost before = edits@.map_values(|e: EditRecord| e@);
        let ghost rec = (skip as nat, data@.subrange(run as int, z as int));
        proof {
            assert(parse_records(data@, p as int, end as int) == match parse_records(
                data@,
                z as int + 1,
                end as int,
            ) {
                Some(rest) => Some(seq![rec] + rest),
                None => None::<Seq<(nat, Seq<u8>)>>,
            });
        }
        edits.push(EditRecord { relative_offset: skip, xor_bytes });
        proof {
            assert(edits@.map_values(|e: EditRecord| e@) =~= before.push(rec));
            if let Some(r) = parse_records(data@, z as int + 1, end as int) {
                assert(before + (seq![rec] + r) =~= before.push(rec) + r);
            }
        }
        p = z + 1;
    }
    Some(edits)
}

impl UpsPatch {
    /// Decodes and checks a patch: the magic, both sizes, the edit records
    /// up to the trailer, the three checksums, and the patch's own CRC32.
    pub fn decode(bytes: &[u8]) -> (r: Result<UpsPatch, UpsError>)
        ensures
            match decode_spec(bytes@) {
                Ok(p) => r matches Ok(q) && q@ == p && q.raw_bytes() == bytes@,
                Err(e) => r == Err::<UpsPatch, UpsError>(e),
            },
            r matches Ok(q) ==> q.wf(),
    {
        let n = bytes.len();
        if n < 4 || bytes[0] != 0x55 || bytes[1] != 0x50 || bytes[2] != 0x53 || bytes[3] != 0x31 {
            return Err(UpsError::Format);
        }
        if n < 4 + TRAILER_LEN {
            return Err(UpsError::Format);
        }
        let end = n - TRAILER_LEN;
        let (source_size, p1) = match read_vlq(bytes, 4, end) {
            Some(x) => x,
            None => return Err(UpsError::Format),
        };
        let (target_size, p2) = match read_vlq(bytes, p1, end) {
            Some(x) => x,
            None => return Err(UpsError::Format),
        };
        let edits = match read_records(bytes, p2, end) {
            Some(e) => e,
            None => return Err(UpsError::Format),
        };
        let source_checksum = read_le_u32(bytes, end);
        let target_checksum = read_le_u32(bytes, end + 4);
        let patch_checksum = read_le_u32(bytes, end + 8);
        let body = slice_subrange(bytes, 0, n - 4);
        if crc32(body) != patch_checksum {
            return Err(UpsError::Integrity);
        }
        Ok(
            UpsPatch {
                raw: slice_to_vec(bytes),
                source_size,
                target_size,
                edits,
                source_checksum,
                target_checksum,
                patch_checksum,
            },
        )
    }

    /// The bytes the patch was decoded from.
    pub closed spec fn raw_bytes(&self) -> Seq<u8> {
        self.raw@
    }

    /// The patch's fields are what its bytes decode to; in particular the
    /// bytes' CRC32, trailer's last four bytes excluded, is the stored patch
    /// checksum.
    pub open spec fn wf(&self) -> bool {
        decode_spec(self.raw_bytes()) == Ok::<PatchSpec, UpsError>(self@)
    }

    /// The bytes the patch was decoded from.
    pub fn raw(&self) -> (r: &[u8])
        ensures
            r@ == self.raw_bytes(),
    {
        self.raw.as_slice()
    }

    /// The declared size of the input a patch is made for.
    pub fn source_size(&self) -> (r: usize)
        ensures
            r == self@.source_size,
    {
        self.source_size
    }

    /// The declared size of the patched output.
    pub fn target_size(&self) -> (r: usize)
        ensures
            r == self@.target_size,
    {
        self.target_size
    }

    /// The edit records, in file order.
    pub fn edits(&self) -> (r: &[EditRecord])
        ensures
            r@.map_values(|e: EditRecord| e@) == self@.edits,
    {
        self.edits.as_slice()
    }

    /// The stored CRC32 of the input.
    pub fn source_checksum(&self) -> (r: u32)
        ensures
            r == self@.source_checksum,
    {
        self.source_checksum
    }

    /// The stored CRC32 of the output.
    pub fn target_checksum(&self) -> (r: u32)
        ensures
            r == self@.target_checksum,
    {
        self.target_checksum
    }

    /// The stored CRC32 of the patch, trailer's last four bytes excluded.
    pub fn patch_checksum(&self) -> (r: u32)
        ensures
            r == self@.patch_checksum,
    {
        self.patch_checksum
    }
}

} // verus!
