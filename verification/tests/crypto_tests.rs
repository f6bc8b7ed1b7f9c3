use zos_apps::crypto::{
    base64_decode, bytes_to_hex, derive_public_key, format_uuid, generate_random_bytes,
    hex_to_bytes, shamir_reconstruct, shamir_split, sign_challenge, KeyError, NeuralShard,
};

#[test]
fn hex_encoding_is_lowercase_two_digits_per_byte() {
    assert_eq!(bytes_to_hex(&[0x00, 0xff, 0x1a]), "00ff1a");
    assert_eq!(bytes_to_hex(&[]), "");
}

#[test]
fn hex_decoding_accepts_either_case() {
    assert_eq!(hex_to_bytes("00FF1a"), Ok(vec![0x00, 0xff, 0x1a]));
    assert_eq!(hex_to_bytes(""), Ok(vec![]));
}

#[test]
fn hex_decoding_errors() {
    assert_eq!(hex_to_bytes("abc"), Err("Invalid hex length"));
    assert_eq!(hex_to_bytes("zz"), Err("Invalid hex"));
    assert_eq!(hex_to_bytes("00g1"), Err("Invalid hex"));
    assert_eq!(hex_to_bytes("+f"), Err("Invalid hex"));
    assert_eq!(hex_to_bytes("0-1f"), Err("Invalid hex"));
    assert_eq!(hex_to_bytes("\u{e9}"), Err("Invalid hex"));
    assert_eq!(hex_to_bytes("a\u{e9}b"), Err("Invalid hex"));
}

#[test]
fn hex_roundtrip_on_all_bytes() {
    let all: Vec<u8> = (0..=255u8).collect();
    assert_eq!(hex_to_bytes(&bytes_to_hex(&all)), Ok(all));
}

#[test]
fn uuid_layout() {
    assert_eq!(
        format_uuid(0x0123456789abcdef0123456789abcdef),
        "01234567-89ab-cdef-0123-456789abcdef"
    );
    assert_eq!(format_uuid(0), "00000000-0000-0000-0000-000000000000");
    assert_eq!(format_uuid(u128::MAX), "ffffffff-ffff-ffff-ffff-ffffffffffff");
}

#[test]
fn base64_decoding() {
    assert_eq!(base64_decode("aGVsbG8="), Ok(b"hello".to_vec()));
    assert_eq!(base64_decode("aGVsbG8"), Ok(b"hello".to_vec()));
    assert_eq!(base64_decode("QQ=="), Ok(b"A".to_vec()));
    assert_eq!(base64_decode("QUI="), Ok(b"AB".to_vec()));
    assert_eq!(base64_decode("+/8="), Ok(vec![0xfb, 0xff]));
    assert_eq!(base64_decode(""), Ok(vec![]));
    assert_eq!(base64_decode("===="), Ok(vec![]));
}

#[test]
fn base64_rejects_characters_outside_the_alphabet() {
    assert_eq!(base64_decode("a$"), Err("Invalid base64 character"));
    assert_eq!(base64_decode("ab=c"), Err("Invalid base64 character"));
    assert_eq!(base64_decode("é"), Err("Invalid base64 character"));
}

#[test]
fn random_bytes_follow_the_generator() {
    assert_eq!(
        generate_random_bytes(8, 1_700_000_000_000, 7),
        vec![227, 226, 124, 1, 75, 125, 119, 214]
    );
    assert!(generate_random_bytes(0, 1, 1).is_empty());
}

#[test]
fn public_key_derivation() {
    let entropy: Vec<u8> = (0..40u8).collect();
    let key = derive_public_key(&entropy, "identity");
    assert_eq!(
        key,
        [
            198, 198, 198, 198, 198, 198, 198, 198, 243, 93, 154, 107, 42, 205, 102, 237, 227,
            129, 31, 190, 92, 250, 152, 54, 213, 115, 17, 175, 78, 236, 138, 40
        ]
    );
}

#[test]
fn challenge_signature() {
    let key: [u8; 32] = core::array::from_fn(|i| i as u8);
    let sig = sign_challenge(b"challenge", &key);
    assert_eq!(
        sig.to_vec(),
        vec![
            24, 184, 175, 143, 49, 18, 161, 155, 147, 99, 22, 127, 159, 129, 65, 96, 30, 197, 215,
            232, 142, 93, 71, 250, 208, 122, 239, 95, 143, 87, 68, 166, 175, 122, 248, 124, 57,
            35, 31, 174, 248, 8, 249, 214, 242, 173, 67, 211, 182, 122, 107, 135, 225, 114, 61,
            162, 192, 47, 62, 184, 136, 172, 159, 69
        ]
    );
}

#[test]
fn shards_mask_the_secret() {
    let shards = shamir_split(&[1, 2, 3], 3, 3);
    let got: Vec<(u8, String)> = shards.iter().map(|s| (s.index, s.hex.clone())).collect();
    assert_eq!(
        got,
        vec![
            (1, "0119eada".to_string()),
            (2, "0230d3b1".to_string()),
            (3, "034bb88f".to_string())
        ]
    );
}

#[test]
fn split_then_reconstruct_gives_the_secret_back() {
    let secret: Vec<u8> = (0..32u8).map(|b| b.wrapping_mul(37)).collect();
    let shards = shamir_split(&secret, 3, 5);
    assert_eq!(shards.len(), 5);
    assert_eq!(shamir_reconstruct(&shards), Ok(secret));
}

#[test]
fn reconstruct_errors() {
    let shards = shamir_split(&[9, 9], 3, 2);
    assert_eq!(shamir_reconstruct(&shards), Err(KeyError::InsufficientShards));

    let bad = vec![
        NeuralShard { index: 1, hex: "zz".to_string() },
        NeuralShard { index: 2, hex: "00".to_string() },
        NeuralShard { index: 3, hex: "00".to_string() },
    ];
    assert_eq!(shamir_reconstruct(&bad), Err(KeyError::InvalidShard("Invalid hex".to_string())));

    let empty = vec![
        NeuralShard { index: 1, hex: String::new() },
        NeuralShard { index: 2, hex: String::new() },
        NeuralShard { index: 3, hex: String::new() },
    ];
    assert_eq!(
        shamir_reconstruct(&empty),
        Err(KeyError::InvalidShard("Empty shard".to_string()))
    );
}
