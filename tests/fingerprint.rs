use subfetch::{
    create_hash, fingerprint_value_of, hash_contents, to_decimal, to_hex16, HashError,
};

fn pattern(len: usize, mul: usize, add: usize) -> Vec<u8> {
    (0..len).map(|i| ((i * mul + add) % 256) as u8).collect()
}

#[test]
fn hex16_is_zero_padded_lowercase() {
    assert_eq!(to_hex16(0), "0000000000000000");
    assert_eq!(to_hex16(0xAB), "00000000000000ab");
    assert_eq!(to_hex16(u64::MAX), "ffffffffffffffff");
    assert_eq!(to_hex16(0x0123_4567_89ab_cdef), "0123456789abcdef");
}

#[test]
fn decimal_rendering() {
    assert_eq!(to_decimal(0), "0");
    assert_eq!(to_decimal(42), "42");
    assert_eq!(to_decimal(u64::MAX), "18446744073709551615");
}

#[test]
fn single_block_file_counts_its_words_twice() {
    let file = pattern(65536, 7, 3);
    let mut sum: u64 = 0;
    for chunk in file.chunks(8) {
        sum = sum.wrapping_add(u64::from_le_bytes(chunk.try_into().unwrap()));
    }
    let expected = 65536u64.wrapping_add(sum.wrapping_mul(2));
    assert_eq!(hash_contents(&file), Ok(format!("{:016x}", expected)));
    assert_eq!(hash_contents(&file), Ok("60a0df1f5fa0c000".to_string()));
}

#[test]
fn all_zero_block_hashes_to_size() {
    let zeros = vec![0u8; 65536];
    assert_eq!(create_hash(65536, &zeros, &zeros), Ok("0000000000010000".to_string()));
    assert_eq!(create_hash(1 << 40, &zeros, &zeros), Ok("0000010000000000".to_string()));
}

#[test]
fn interior_bytes_do_not_matter() {
    let a = pattern(200_000, 1, 0);
    let mut b = a.clone();
    for byte in &mut b[65536..200_000 - 65536] {
        *byte = byte.wrapping_add(99);
    }
    assert_ne!(a, b);
    assert_eq!(hash_contents(&a), hash_contents(&b));
    let mut c = a.clone();
    c[200_000 - 1] ^= 1;
    assert_ne!(hash_contents(&a), hash_contents(&c));
    let mut d = a.clone();
    d[0] ^= 1;
    assert_ne!(hash_contents(&a), hash_contents(&d));
}

#[test]
fn repeated_runs_agree() {
    let head = pattern(65536, 13, 1);
    let tail = pattern(65536, 5, 200);
    let first = create_hash(1_000_000, &head, &tail);
    for _ in 0..3 {
        assert_eq!(create_hash(1_000_000, &head.clone(), &tail.clone()), first);
    }
}

#[test]
fn word_sum_overflow_wraps() {
    let ones = vec![0xffu8; 65536];
    // 70000 + 16384 * (2^64 - 1) wraps to 70000 - 16384.
    assert_eq!(fingerprint_value_of(70000, &ones, &ones), Ok(53616));
    assert_eq!(create_hash(70000, &ones, &ones), Ok("000000000000d170".to_string()));
}

#[test]
fn little_endian_words() {
    let mut head = vec![0u8; 65536];
    head[0] = 1;
    head[7] = 0x80;
    let zeros = vec![0u8; 65536];
    assert_eq!(fingerprint_value_of(65536, &head, &zeros), Ok(0x8000_0000_0001_0001));
}

#[test]
fn small_file_is_rejected() {
    let small = pattern(65535, 1, 0);
    assert_eq!(hash_contents(&small), Err(HashError::FileTooSmall));
    assert_eq!(hash_contents(&[]), Err(HashError::FileTooSmall));
    let block = pattern(65536, 1, 0);
    assert_eq!(create_hash(65535, &block, &block), Err(HashError::FileTooSmall));
    assert_eq!(create_hash(0, &block, &block), Err(HashError::FileTooSmall));
}

#[test]
fn short_block_is_rejected() {
    let block = pattern(65536, 1, 0);
    let short = pattern(65528, 1, 0);
    let long = pattern(65544, 1, 0);
    assert_eq!(create_hash(100_000, &short, &block), Err(HashError::IncompleteBlock));
    assert_eq!(create_hash(100_000, &block, &short), Err(HashError::IncompleteBlock));
    assert_eq!(create_hash(100_000, &block, &long), Err(HashError::IncompleteBlock));
}

#[test]
fn two_block_file_hash() {
    let file = pattern(131072, 1, 0);
    let expected = "a0601fdf9f610000".to_string();
    assert_eq!(hash_contents(&file), Ok(expected.clone()));
    assert_eq!(create_hash(131072, &file[..65536], &file[65536..]), Ok(expected));
}
