use caliptra_rom::mailbox::{
    encode_challenge, parse_manuf_request, parse_request, parse_token, success_header,
    ProdUnlockRequest,
};
use caliptra_rom::RomError;

fn request(len_words: u32, category: u32) -> Vec<u8> {
    vec![
        0xaa,
        0xbb,
        0xcc,
        0xdd,
        0x12,
        0x34,
        0x02,
        0,
        (len_words >> 16) as u8,
        (len_words >> 8) as u8,
        len_words as u8,
        0,
        (category >> 16) as u8,
        (category >> 8) as u8,
        category as u8,
        0,
    ]
}

#[test]
fn manuf_request_yields_its_token() {
    let mut req = vec![9u8; 4];
    req.extend((1..=16).collect::<Vec<u8>>());
    assert_eq!(parse_manuf_request(&req), Ok((1..=16).collect::<Vec<u8>>()));
    assert_eq!(parse_manuf_request(&req[..19]), Err(RomError::MailboxPayloadSize));
}

#[test]
fn request_category_must_fit_four_bits() {
    let ok = parse_request(&request(3, 0x0f)).unwrap();
    assert_eq!(ok.unlock_category, 0x0f);
    assert_eq!(ok.vendor_id, vec![0x12, 0x34]);
    assert_eq!(ok.object_data_type, 2);
    assert!(matches!(parse_request(&request(3, 0x10)), Err(RomError::DbgUnlockProdInvalidReq)));
    assert!(matches!(
        parse_request(&request(3, 0x01_0000)),
        Err(RomError::DbgUnlockProdInvalidReq)
    ));
}

#[test]
fn request_length_is_counted_in_words() {
    assert!(matches!(parse_request(&request(12, 0)), Err(RomError::DbgUnlockProdInvalidReq)));
    assert!(matches!(parse_request(&request(3, 0)[..15]), Err(RomError::MailboxPayloadSize)));
}

#[test]
fn challenge_record_layout() {
    let req = ProdUnlockRequest { vendor_id: vec![0xab, 0xcd], object_data_type: 7, unlock_category: 1 };
    let rec = encode_challenge(&req, &[0x11; 17], &[0x22; 48]);
    let mut expected = vec![0u8; 8];
    expected.extend_from_slice(&[0xab, 0xcd, 7, 0, 0, 0, 23, 0]);
    expected.extend_from_slice(&[0x11; 17]);
    expected.extend_from_slice(&[0u8; 15]);
    expected.extend_from_slice(&[0x22; 48]);
    assert_eq!(rec, expected);
    assert_eq!(success_header(), vec![0u8; 8]);
}

fn token(category: u32, challenge: &[u8; 48]) -> Vec<u8> {
    let mut t = vec![0u8; 7504];
    t[4..7].copy_from_slice(&[0x00, 0x07, 0x53]);
    t[8..11].copy_from_slice(&[(category >> 16) as u8, (category >> 8) as u8, category as u8]);
    t[12..60].copy_from_slice(challenge);
    for (i, b) in t[60..].iter_mut().enumerate() {
        *b = (i % 251) as u8;
    }
    t
}

#[test]
fn token_fields_are_split_at_their_offsets() {
    let t = token(5, &[0x33; 48]);
    let tok = parse_token(&t, 5, &[0x33; 48]).unwrap();
    assert_eq!(tok.unlock_category, vec![0, 0, 5]);
    assert_eq!(tok.challenge, vec![0x33; 48]);
    assert_eq!(tok.device_id, t[60..92].to_vec());
    assert_eq!(tok.ecc_public_key, t[92..188].to_vec());
    assert_eq!(tok.ecc_signature, t[188..284].to_vec());
    assert_eq!(tok.mldsa_public_key, t[284..2876].to_vec());
    assert_eq!(tok.mldsa_signature, t[2876..].to_vec());
    let mut msg = vec![0x33; 48];
    msg.extend_from_slice(&t[60..92]);
    msg.extend_from_slice(&[0, 0, 5]);
    assert_eq!(tok.message(), msg);
    assert_eq!(tok.keys(), [&t[92..188], &t[284..2876]].concat());
}

#[test]
fn token_echoes_are_checked() {
    let t = token(5, &[0x33; 48]);
    assert!(matches!(parse_token(&t, 4, &[0x33; 48]), Err(RomError::DbgUnlockProdInvalidToken)));
    assert!(matches!(parse_token(&t, 5, &[0x34; 48]), Err(RomError::DbgUnlockProdInvalidToken)));
    let mut bad_len = t.clone();
    bad_len[6] = 0x54;
    assert!(matches!(parse_token(&bad_len, 5, &[0x33; 48]), Err(RomError::DbgUnlockProdInvalidToken)));
    assert!(matches!(parse_token(&t[..7503], 5, &[0x33; 48]), Err(RomError::MailboxPayloadSize)));
}
