use bloom_index::{index_at, indexes, FnvHasher, FnvaHasher, OFFSET_BASIS, PRIME};

/// The canonical bytes that the standard hasher framing feeds for the str
/// "whee": its UTF-8 bytes followed by a 0xff terminator.
fn whee_bytes() -> Vec<u8> {
    let mut v = b"whee".to_vec();
    v.push(0xff);
    v
}

fn take(seq: &mut bloom_index::Index, n: usize) -> Vec<usize> {
    let mut v: Vec<usize> = Vec::new();
    for _ in 0..n {
        v.push(seq.next());
    }
    v
}

#[test]
fn double_hashing() {
    let mut s = indexes(&whee_bytes(), 100);
    let v = take(&mut s, 10);

    assert_eq!(v, vec![2, 27, 52, 77, 86, 11, 36, 61, 86, 95]);
}

#[test]
fn determinism() {
    for bound in [1usize, 2, 97, 1 << 20] {
        let a = take(&mut indexes(&whee_bytes(), bound), 64);
        let b = take(&mut indexes(&whee_bytes(), bound), 64);
        assert_eq!(a, b);
    }
    let value: Vec<u8> = (0u8..=255).collect();
    let a = take(&mut indexes(&value, 13), 64);
    let b = take(&mut indexes(&value, 13), 64);
    assert_eq!(a, b);
}

#[test]
fn range() {
    for bound in [1usize, 2, 3, 100, 65_536] {
        let mut s = indexes(&whee_bytes(), bound);
        for x in take(&mut s, 200) {
            assert!(x < bound);
        }
    }
}

#[test]
fn two_hash_independence() {
    let mut differing = 0usize;
    let mut total = 0usize;
    for start in 0u32..256 {
        for len in 1u32..=4 {
            let bytes: Vec<u8> = (0..len).map(|j| ((start + j) % 256) as u8).collect();
            let mut h1 = FnvHasher::new();
            h1.write(&bytes);
            let mut h2 = FnvaHasher::new();
            h2.write(&bytes);
            total += 1;
            if h1.finish() != h2.finish() {
                differing += 1;
            }
        }
    }
    assert_eq!(total, 1024);
    assert!(differing >= 1000);
}

#[test]
fn wraparound_matches_reference() {
    let bytes: Vec<u8> = vec![0x00, 0x01, 0x7f, 0x80, 0xfe, 0xff, 0x55, 0xaa];

    let mut reference1: u64 = OFFSET_BASIS;
    let mut reference2: u64 = OFFSET_BASIS;
    for &b in &bytes {
        reference1 = reference1.wrapping_mul(PRIME) ^ (b as u64);
        reference2 = (reference2 ^ (b as u64)).wrapping_mul(PRIME);
    }

    let mut h1 = FnvHasher::new();
    h1.write(&bytes);
    assert_eq!(h1.finish(), reference1);

    let mut h2 = FnvaHasher::new();
    h2.write(&bytes);
    assert_eq!(h2.finish(), reference2);
}

#[test]
fn oracle_digests() {
    let mut h1 = FnvHasher::new();
    h1.write(&whee_bytes());
    let mut h2 = FnvaHasher::new();
    h2.write(&whee_bytes());
    assert_eq!(h1.finish(), 0x0184_bb0c_a1cb_1901);
    assert_eq!(h2.finish(), 0x374e_f588_93a6_12a5);
}

#[test]
fn chunking_invariance() {
    let bytes: Vec<u8> = (0u8..=255).collect();

    let mut whole = FnvHasher::new();
    whole.write(&bytes);
    let mut pieces = FnvHasher::new();
    pieces.write(&bytes[..1]);
    pieces.write(&bytes[1..100]);
    pieces.write(&[]);
    pieces.write(&bytes[100..]);
    assert_eq!(whole.finish(), pieces.finish());

    let mut whole_a = FnvaHasher::new();
    whole_a.write(&bytes);
    let mut pieces_a = FnvaHasher::new();
    pieces_a.write(&bytes[..77]);
    pieces_a.write(&bytes[77..]);
    assert_eq!(whole_a.finish(), pieces_a.finish());
}

#[test]
fn empty_input_digest_is_seed() {
    let mut h1 = FnvHasher::new();
    h1.write(&[]);
    assert_eq!(h1.finish(), OFFSET_BASIS);
    assert_eq!(h1.finish(), 0xcbf2_9ce4_8422_2325);

    let mut h2 = FnvaHasher::new();
    h2.write(&[]);
    assert_eq!(h2.finish(), OFFSET_BASIS);
}

#[test]
fn empty_input_indexes() {
    let mut s = indexes(&Vec::new(), 7);
    let first = s.next();
    let expected = (OFFSET_BASIS.wrapping_add(OFFSET_BASIS) % 7) as usize;
    assert_eq!(first, expected);
}

#[test]
fn index_at_matches_next() {
    let mut h1 = FnvHasher::new();
    h1.write(&whee_bytes());
    let d1 = h1.finish();
    let mut h2 = FnvaHasher::new();
    h2.write(&whee_bytes());
    let d2 = h2.finish();

    let mut s = indexes(&whee_bytes(), 100);
    for i in 1u64..=40 {
        assert_eq!(s.next(), index_at(d1, d2, 100, i));
    }
}

#[test]
fn index_at_exact_value() {
    assert_eq!(index_at(3, 4, 5, 2), 1);
    assert_eq!(index_at(u64::MAX, u64::MAX, 1000, 1), (u64::MAX.wrapping_add(u64::MAX) % 1000) as usize);
}
