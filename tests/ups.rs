use ups::{decode_vlq, UpsError, UpsPatch};

fn encode_vlq(mut n: usize, out: &mut Vec<u8>) {
    loop {
        let x = (n & 0x7f) as u8;
        n >>= 7;
        if n == 0 {
            out.push(0x80 | x);
            break;
        }
        out.push(x);
        n -= 1;
    }
}

/// Lays out a patch with the given records and checksums of `source` and
/// `target`, closing it with its own correct CRC32.
fn build(
    source_size: usize,
    target_size: usize,
    records: &[(usize, &[u8])],
    source: &[u8],
    target: &[u8],
) -> Vec<u8> {
    let mut p = b"UPS1".to_vec();
    encode_vlq(source_size, &mut p);
    encode_vlq(target_size, &mut p);
    for (skip, run) in records {
        encode_vlq(*skip, &mut p);
        p.extend_from_slice(run);
        p.push(0);
    }
    p.extend_from_slice(&crc32fast::hash(source).to_le_bytes());
    p.extend_from_slice(&crc32fast::hash(target).to_le_bytes());
    let own = crc32fast::hash(&p);
    p.extend_from_slice(&own.to_le_bytes());
    p
}

#[test]
fn empty_source_gives_abc() {
    let bytes = build(0, 3, &[(0, &[0x41, 0x42, 0x43])], b"", b"ABC");
    let patch = UpsPatch::decode(&bytes).unwrap();
    assert_eq!(patch.source_size(), 0);
    assert_eq!(patch.target_size(), 3);
    assert_eq!(patch.edits().len(), 1);
    assert_eq!(patch.edits()[0].relative_offset, 0);
    assert_eq!(patch.edits()[0].xor_bytes, vec![0x41, 0x42, 0x43]);
    assert_eq!(patch.apply(&[]).unwrap(), b"ABC".to_vec());
}

#[test]
fn identity_patch_returns_source() {
    let source = b"some bytes to keep".to_vec();
    let n = source.len();
    let bytes = build(n, n, &[], &source, &source);
    let patch = UpsPatch::decode(&bytes).unwrap();
    assert!(patch.edits().is_empty());
    assert_eq!(patch.source_checksum(), patch.target_checksum());
    assert_eq!(patch.apply(&source).unwrap(), source);
    assert_eq!(patch.apply_checked(&source).unwrap(), source);
}

#[test]
fn wrong_magic_is_format_error() {
    let good = build(0, 3, &[(0, &[1, 2, 3])], b"", &[1, 2, 3]);
    for prefix in [b"UPS2", b"ups1", b"BPS1", b"\0\0\0\0", b"XUPS"] {
        let mut bytes = good.clone();
        bytes[..4].copy_from_slice(prefix);
        assert_eq!(UpsPatch::decode(&bytes).unwrap_err(), UpsError::Format);
    }
    assert_eq!(UpsPatch::decode(b"").unwrap_err(), UpsError::Format);
    assert_eq!(UpsPatch::decode(b"UP").unwrap_err(), UpsError::Format);
}

#[test]
fn patch_checksum_decides_decoding() {
    let mut bytes = build(2, 2, &[(1, &[7])], &[1, 2], &[1, 5]);
    assert!(UpsPatch::decode(&bytes).is_ok());
    let n = bytes.len();
    bytes[n - 1] ^= 0x01;
    assert_eq!(UpsPatch::decode(&bytes).unwrap_err(), UpsError::Integrity);
}

#[test]
fn round_trip_reproduces_target() {
    let source = b"hello world".to_vec();
    let target = b"hellO wOrld!?".to_vec();
    // Differences at 4 ('o' ^ 'O'), 7 ('o' ^ 'O'), and the two bytes past
    // the source, which start as zero.
    let d = b'o' ^ b'O';
    let bytes = build(
        source.len(),
        target.len(),
        &[(4, &[d]), (2, &[d]), (3, &[b'!', b'?'])],
        &source,
        &target,
    );
    let patch = UpsPatch::decode(&bytes).unwrap();
    let out = patch.apply(&source).unwrap();
    assert_eq!(out, target);
    assert_eq!(crc32fast::hash(&out), patch.target_checksum());
}

#[test]
fn shorter_target_truncates_source() {
    let source = b"abcdef".to_vec();
    let target = b"abC".to_vec();
    let bytes = build(6, 3, &[(2, &[b'c' ^ b'C'])], &source, &target);
    let patch = UpsPatch::decode(&bytes).unwrap();
    assert_eq!(patch.apply(&source).unwrap(), target);
}

#[test]
fn decoding_twice_agrees() {
    let bytes = build(3, 4, &[(1, &[9, 9]), (0, &[3])], &[1, 2, 3], &[1, 11, 10, 3]);
    let a = UpsPatch::decode(&bytes).unwrap();
    let b = UpsPatch::decode(&bytes).unwrap();
    assert_eq!(a.source_size(), b.source_size());
    assert_eq!(a.target_size(), b.target_size());
    assert_eq!(a.edits(), b.edits());
    assert_eq!(a.source_checksum(), b.source_checksum());
    assert_eq!(a.target_checksum(), b.target_checksum());
    assert_eq!(a.patch_checksum(), b.patch_checksum());
    assert_eq!(a.raw(), &bytes[..]);
    assert_eq!(a.apply(&[1, 2, 3]).unwrap(), vec![1, 11, 10, 3]);
}

#[test]
fn run_past_target_is_bounds_error() {
    let bytes = build(0, 2, &[(0, &[1, 2, 3])], b"", &[1, 2, 3]);
    let patch = UpsPatch::decode(&bytes).unwrap();
    assert_eq!(patch.apply(&[]).unwrap_err(), UpsError::Bounds);
}

#[test]
fn skip_past_target_is_bounds_error() {
    let bytes = build(4, 4, &[(2, &[1]), (5, &[])], &[0; 4], &[0, 0, 1, 0]);
    let patch = UpsPatch::decode(&bytes).unwrap();
    assert_eq!(patch.apply(&[0; 4]).unwrap_err(), UpsError::Bounds);
}

#[test]
fn body_byte_change_is_integrity_error() {
    let good = build(2, 2, &[(0, &[5, 6])], &[1, 2], &[4, 4]);
    // The record's XOR bytes sit at 7 and 8, after "UPS1", the two size
    // bytes and the skip count.
    for i in [7, 8] {
        let mut bytes = good.clone();
        bytes[i] ^= 0x10;
        assert_eq!(UpsPatch::decode(&bytes).unwrap_err(), UpsError::Integrity);
    }
}

#[test]
fn wrong_output_checksum_is_integrity_error() {
    let bytes = build(2, 2, &[(0, &[5])], &[1, 2], &[9, 9]);
    let patch = UpsPatch::decode(&bytes).unwrap();
    assert_eq!(patch.apply(&[1, 2]).unwrap_err(), UpsError::Integrity);
}

#[test]
fn checked_apply_rejects_other_source() {
    let bytes = build(2, 2, &[(0, &[1])], &[1, 2], &[0, 2]);
    let patch = UpsPatch::decode(&bytes).unwrap();
    assert_eq!(patch.apply(&[1, 2]).unwrap(), vec![0, 2]);
    assert_eq!(patch.apply_checked(&[1, 2]).unwrap(), vec![0, 2]);
    // Same output from another source, since only the first byte is read
    // through the XOR: unchecked it passes, checked it fails.
    assert_eq!(patch.apply(&[1, 2, 7]).unwrap(), vec![0, 2]);
    assert_eq!(patch.apply_checked(&[1, 2, 7]).unwrap_err(), UpsError::Integrity);
}

#[test]
fn truncated_patches_are_format_errors() {
    // Too short for a trailer.
    assert_eq!(UpsPatch::decode(b"UPS1\x80\x80").unwrap_err(), UpsError::Format);
    // A size whose encoding never ends before the trailer.
    let mut bytes = b"UPS1\x00\x00".to_vec();
    bytes.extend_from_slice(&[0u8; 12]);
    assert_eq!(UpsPatch::decode(&bytes).unwrap_err(), UpsError::Format);
    // A run with no zero terminator before the trailer.
    let mut bytes = b"UPS1\x80\x81\x80\x05\x06".to_vec();
    bytes.extend_from_slice(&[0u8; 8]);
    let own = crc32fast::hash(&bytes);
    bytes.extend_from_slice(&own.to_le_bytes());
    assert_eq!(UpsPatch::decode(&bytes).unwrap_err(), UpsError::Format);
}

#[test]
fn vlq_values() {
    assert_eq!(decode_vlq(&[0x80]), Some((0, 1)));
    assert_eq!(decode_vlq(&[0x81]), Some((1, 1)));
    assert_eq!(decode_vlq(&[0xff]), Some((127, 1)));
    assert_eq!(decode_vlq(&[0x00, 0x80]), Some((128, 2)));
    assert_eq!(decode_vlq(&[0x7f, 0x80]), Some((255, 2)));
    assert_eq!(decode_vlq(&[0x00, 0x81, 0x55]), Some((256, 2)));
    assert_eq!(decode_vlq(&[0x00, 0x00, 0x80]), Some((16512, 3)));
    for n in [0usize, 1, 127, 128, 300, 16511, 16512, 1 << 20, usize::MAX] {
        let mut enc = Vec::new();
        encode_vlq(n, &mut enc);
        assert_eq!(decode_vlq(&enc), Some((n, enc.len())));
    }
}

#[test]
fn vlq_rejects_unterminated_and_oversized() {
    assert_eq!(decode_vlq(&[]), None);
    assert_eq!(decode_vlq(&[0x00]), None);
    assert_eq!(decode_vlq(&[0x7f, 0x7f]), None);
    let mut big = vec![0x7fu8; 10];
    big.push(0xff);
    assert_eq!(decode_vlq(&big), None);
}

#[test]
fn large_sizes_decode() {
    let source = vec![0xaau8; 300];
    let mut target = source.clone();
    target[200] = 0x55;
    target.push(1);
    let bytes = build(300, 301, &[(200, &[0xaa ^ 0x55]), (99, &[1])], &source, &target);
    let patch = UpsPatch::decode(&bytes).unwrap();
    assert_eq!(patch.source_size(), 300);
    assert_eq!(patch.target_size(), 301);
    assert_eq!(patch.apply(&source).unwrap(), target);
}
