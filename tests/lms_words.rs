use caliptra_rom::lms::{bytes_to_words_6, bytes_to_words_8, LmotsAlgorithmType, LmsAlgorithmType};

#[test]
fn test_bytes_to_words_6() {
    assert_eq!(
        bytes_to_words_6([
            0x7e, 0x40, 0xc3, 0xed, 0x23, 0x13, 0x9f, 0x1b, 0xa0, 0xad, 0x31, 0x02, 0x4d, 0x15,
            0xe0, 0x39, 0xe8, 0x71, 0xd4, 0x79, 0xfc, 0x53, 0xca, 0xf0
        ]),
        [
            0xedc3407e_u32,
            0x1b9f1323,
            0x0231ada0,
            0x39e0154d,
            0x79d471e8,
            0xf0ca53fc
        ]
    )
}

#[test]
fn test_bytes_to_words_8() {
    assert_eq!(
        bytes_to_words_8([
            0x7e, 0x40, 0xc3, 0xed, 0x23, 0x13, 0x9f, 0x1b, 0xa0, 0xad, 0x31, 0x02, 0x4d, 0x15,
            0xe0, 0x39, 0xe8, 0x71, 0xd4, 0x79, 0xfc, 0x53, 0xca, 0xf0, 0x9a, 0x3c, 0x4b, 0xb8,
            0x1b, 0xde, 0x77, 0x9f
        ]),
        [
            0xedc3407e_u32,
            0x1b9f1323,
            0x0231ada0,
            0x39e0154d,
            0x79d471e8,
            0xf0ca53fc,
            0xb84b3c9a,
            0x9f77de1b
        ]
    )
}

#[test]
fn bytes_to_words_of_zeros_and_ones() {
    assert_eq!(bytes_to_words_6([0; 24]), [0u32; 6]);
    assert_eq!(bytes_to_words_8([0xff; 32]), [u32::MAX; 8]);
}

#[test]
fn algorithm_types_hold_their_typecode() {
    assert_eq!(LmsAlgorithmType::new(5).0, 5);
    assert_eq!(LmotsAlgorithmType::new(3), LmotsAlgorithmType(3));
}

use caliptra_rom::lms::{LmotsSignature, LmsPrivateKey, LmsPublicKey, LmsSignature};

fn key() -> LmsPublicKey<6> {
    LmsPublicKey {
        tree_type: LmsAlgorithmType::new(12),
        otstype: LmotsAlgorithmType::new(7),
        id: [0x42; 16],
        digest: [1, 2, 3, 4, 5, 6],
    }
}

#[test]
fn public_keys_compare_by_all_fields() {
    assert!(key() == key());
    let mut other_id = key();
    other_id.id[15] ^= 1;
    assert!(key() != other_id);
    let mut other_digest = key();
    other_digest.digest[5] = 0x0600;
    assert!(key() != other_digest);
    let mut other_type = key();
    other_type.tree_type = LmsAlgorithmType::new(13);
    assert!(key() != other_type);
}

#[test]
fn signatures_compare_by_all_fields() {
    let mut a: LmsSignature<2, 3, 4> = LmsSignature::default();
    a.q = 9;
    a.ots.y[2][1] = 0xdead_beef;
    a.tree_path[3][0] = 0x1234;
    let b = a;
    assert!(a == b);
    let mut c = a;
    c.ots.y[2][1] = 0xdead_beee;
    assert!(a != c);
    let mut d = a;
    d.tree_path[0][1] = 1;
    assert!(a != d);
    let mut e = a;
    e.q = 10;
    assert!(a != e);
    let ots: LmotsSignature<2, 3> = LmotsSignature::default();
    let mut ots2 = ots;
    ots2.nonce[1] = 1;
    assert!(ots != ots2);
}

#[test]
fn defaults_are_zero() {
    let k: LmsPublicKey<8> = LmsPublicKey::default();
    assert_eq!(k.digest, [0u32; 8]);
    assert_eq!(k.id, [0u8; 16]);
    let p: LmsPrivateKey<6> = LmsPrivateKey::default();
    assert_eq!(p.seed, [0u32; 6]);
}

#[test]
fn typecode_constants() {
    assert_eq!(LmsAlgorithmType::LmsSha256N24H15, 12);
    assert_eq!(LmsAlgorithmType::new(LmsAlgorithmType::LmsSha256N32H5).0, 5);
    assert_eq!(LmotsAlgorithmType::LmotsSha256N24W8, 8);
    let id: caliptra_rom::lms::LmsIdentifier = [1; 16];
    assert_eq!(id.len(), 16);
}
