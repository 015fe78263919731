use bitmap_hash::key::BitmapHash;
use bitmap_hash::key::MAX_TOKEN_LENGTH;
use bitmap_hash::tag::TokenType;

#[test]
fn short_token_is_stored_verbatim() {
    let h = BitmapHash::new(b"cat");
    assert_eq!(h.len, 3);
    assert_eq!(h.hash, [99, 97, 116, 0, 0, 0, 0, 0]);
}

#[test]
fn empty_token_is_all_zero() {
    let h = BitmapHash::new(b"");
    assert_eq!(h.len, 0);
    assert_eq!(h.hash, [0u8; 8]);
}

#[test]
fn eight_byte_token_is_stored_verbatim() {
    let h = BitmapHash::new(b"abcdefgh");
    assert_eq!(h.len, 8);
    assert_eq!(h.hash, *b"abcdefgh");
}

#[test]
fn long_token_concatenates_both_digests() {
    let token = b"internationalization";
    let h = BitmapHash::new(token);
    assert_eq!(h.len, 20);
    let a = xxhash_rust::xxh3::xxh3_64(token).to_le_bytes();
    let b = farmhash::hash64(token).to_le_bytes();
    assert_eq!(&h.hash[..4], &a[..4]);
    assert_eq!(&h.hash[4..8], &b[..4]);
}

#[test]
fn nine_byte_token_is_hashed_not_verbatim() {
    let token = b"abcdefghi";
    let h = BitmapHash::new(token);
    assert_eq!(h.len, 9);
    let a = xxhash_rust::xxh3::xxh3_64(token).to_le_bytes();
    let b = farmhash::hash64(token).to_le_bytes();
    assert_eq!(&h.hash[..4], &a[..4]);
    assert_eq!(&h.hash[4..8], &b[..4]);
    assert_ne!(&h.hash[..8], &token[..8]);
}

#[test]
fn derive_is_deterministic() {
    for token in [&b"cat"[..], &b"internationalization"[..], &b""[..]] {
        let h1 = BitmapHash::new(token);
        let h2 = BitmapHash::new(token);
        assert_eq!(h1, h2);
    }
}

#[test]
fn length_saturates_but_hash_covers_full_token() {
    assert_eq!(MAX_TOKEN_LENGTH, 255);
    let token = vec![0x5au8; 300];
    let h = BitmapHash::new(&token);
    assert_eq!(h.len, 255);
    let a = xxhash_rust::xxh3::xxh3_64(&token).to_le_bytes();
    let b = farmhash::hash64(&token).to_le_bytes();
    assert_eq!(&h.hash[..4], &a[..4]);
    assert_eq!(&h.hash[4..8], &b[..4]);
    let truncated = BitmapHash::new(&token[..255]);
    assert_eq!(truncated.len, 255);
    assert_ne!(truncated.hash, h.hash);
}

#[test]
fn length_at_the_limit_is_kept() {
    let token = vec![7u8; 255];
    let h = BitmapHash::new(&token);
    assert_eq!(h.len, 255);
    let longer = vec![7u8; 256];
    assert_eq!(BitmapHash::new(&longer).len, 255);
}

#[test]
fn to_u64_is_big_endian() {
    let h = BitmapHash::new(b"cat");
    assert_eq!(h.to_u64(), 0x6361740000000000);
}

#[test]
fn to_u64_round_trips_to_the_hash_bytes() {
    for token in [&b"cat"[..], &b"abcdefgh"[..], &b"internationalization"[..]] {
        let h = BitmapHash::new(token);
        assert_eq!(h.to_u64().to_be_bytes(), h.hash);
    }
}

#[test]
fn word_and_stemmed_tags() {
    assert_eq!(TokenType::word(5), 5);
    assert_eq!(TokenType::stemmed(5), 133);
}

#[test]
fn tags_are_disjoint_over_the_field_range() {
    for field in 0u8..128 {
        let w = TokenType::word(field);
        let s = TokenType::stemmed(field);
        assert_ne!(w, s);
        assert_eq!(w & 0x80, 0);
        assert_ne!(s & 0x80, 0);
        assert_eq!(s & 0x7f, field);
    }
}
