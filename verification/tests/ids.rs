use blindpass_store::ids::{hex_text, new_hex_id, new_uuid, random_token, token_text, uuid_text};
use blindpass_store::text::append_decimal;

#[test]
fn bytes_are_written_in_hexadecimal() {
    assert_eq!(hex_text(&vec![0, 15, 160, 255]), "000fa0ff");
    assert_eq!(hex_text(&Vec::new()), "");
}

#[test]
fn a_uuid_carries_its_version_and_variant() {
    assert_eq!(uuid_text(vec![0xff; 16]), "ffffffff-ffff-4fff-bfff-ffffffffffff");
    assert_eq!(uuid_text((0..16).collect()), "00010203-0405-4607-8809-0a0b0c0d0e0f");
}

#[test]
fn a_token_is_unpadded_url_safe_base64() {
    assert_eq!(token_text(&vec![0xff; 32]), format!("{}8", "_".repeat(42)));
    assert_eq!(token_text(&(0..32).collect()), "AAECAwQFBgcICQoLDA0ODxAREhMUFRYXGBkaGxwdHh8");
    let mut bytes = vec![0; 32];
    bytes[0] = 0xfb;
    bytes[1] = 0xef;
    assert!(token_text(&bytes).starts_with("--8"));
}

#[test]
fn fresh_identifiers_differ() {
    let (one, two) = (new_hex_id(), new_hex_id());
    assert_eq!(one.len(), 64);
    assert!(one.bytes().all(|b| b.is_ascii_digit() || (b'a'..=b'f').contains(&b)));
    assert_ne!(one, two);
    let uuid = new_uuid();
    assert_eq!((uuid.len(), &uuid[14..15]), (36, "4"));
    assert_ne!(uuid, new_uuid());
    assert_eq!(random_token().len(), 43);
    assert_ne!(random_token(), random_token());
}

#[test]
fn numbers_are_written_in_decimal() {
    let mut text = "v".to_owned();
    append_decimal(&mut text, i64::MIN);
    append_decimal(&mut text, 0);
    append_decimal(&mut text, 1_020);
    assert_eq!(text, "v-922337203685477580801020");
}
