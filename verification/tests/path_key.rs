use fsel::path_key::{decode_hex_nibble, hex_decode, hex_encode};

#[test]
fn path_keys_round_trip() {
    let path = "/usr/share/applications/example.desktop";

    assert_eq!(
        hex_decode(&hex_encode(path.as_bytes())).as_deref(),
        Some(path.as_bytes())
    );
}

#[test]
fn hex_encoding_uses_two_lowercase_digits_per_byte() {
    assert_eq!(hex_encode(&[0x00, 0x0f, 0xab, 0xff]), "000fabff");
    assert_eq!(hex_encode(&[]), "");
    assert_eq!(hex_encode(b"/a"), "2f61");
}

#[test]
fn hex_decoding_accepts_either_case_and_rejects_the_rest() {
    assert_eq!(hex_decode("2F61"), Some(b"/a".to_vec()));
    assert_eq!(hex_decode("2f6"), None);
    assert_eq!(hex_decode("zz"), None);
    assert_eq!(hex_decode("é1"), None);
    assert_eq!(hex_decode(""), Some(Vec::new()));
    assert_eq!(decode_hex_nibble(b'7'), Some(7));
    assert_eq!(decode_hex_nibble(b'e'), Some(14));
    assert_eq!(decode_hex_nibble(b'E'), Some(14));
    assert_eq!(decode_hex_nibble(b'g'), None);
}
