use bigneon_outbox::signing::derive_public_key;
use bigneon_outbox::signing::sign;
use bigneon_outbox::signing::sign_then_verify;
use bigneon_outbox::signing::verify;
use bigneon_outbox::strutil::hex_decode;
use bigneon_outbox::strutil::hex_encode;
use bigneon_outbox::strutil::u64_to_string;

const SECRET: &str = "000102030405060708090a0b0c0d0e0f101112131415161718191a1b1c1d1e1f";

#[test]
fn sign_verify_round_trip() {
    assert!(sign_then_verify("77142", SECRET));

    let signature = sign("a message", SECRET).unwrap();
    let public_key = derive_public_key(SECRET).unwrap();
    assert!(verify(&signature, "a message", &public_key));
}

#[test]
fn changed_message_invalidates_signature() {
    let public_key = derive_public_key(SECRET).unwrap();
    // message = transfer_key || source_user_id || ticket_count
    let signature = sign("771421", SECRET).unwrap();
    assert!(verify(&signature, "771421", &public_key));
    // a different transfer key
    assert!(!verify(&signature, "781421", &public_key));
    // a different sender
    assert!(!verify(&signature, "771431", &public_key));
    // a different ticket count
    assert!(!verify(&signature, "771422", &public_key));
    // the signatures themselves differ
    assert_ne!(signature, sign("771422", SECRET).unwrap());
}

#[test]
fn signing_rejects_malformed_keys() {
    assert!(sign("msg", "not hex").is_err());
    assert!(sign("msg", "abcd").is_err());
    assert!(derive_public_key("xyz").is_err());
    // verification with malformed hex is simply false
    assert!(!verify("zz", "msg", "yy"));
}

#[test]
fn hex_round_trip() {
    let bytes = vec![0u8, 1, 15, 16, 171, 255];
    let text = hex_encode(&bytes);
    assert_eq!(text, "00010f10abff");
    assert_eq!(hex_decode(&text).unwrap(), bytes);
    assert!(hex_decode("0g").is_none());
    assert!(hex_decode("abc").is_none());
    assert_eq!(hex_decode("").unwrap(), Vec::<u8>::new());
}

#[test]
fn decimal_rendering() {
    assert_eq!(u64_to_string(0), "0");
    assert_eq!(u64_to_string(7), "7");
    assert_eq!(u64_to_string(1024), "1024");
    assert_eq!(u64_to_string(u64::MAX), "18446744073709551615");
}
