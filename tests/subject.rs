use caliptra_rom::x509::{encode_ecc_pub_key, hex_upper};
use caliptra_rom::{RomError, X509KeyIdAlgo, X509};

fn counting(n: usize) -> Vec<u8> {
    (0..n).map(|i| i as u8).collect()
}

#[test]
fn key_id_algorithm_table_is_total() {
    assert_eq!(X509KeyIdAlgo::from_fuse(0), Ok(X509KeyIdAlgo::Sha1));
    assert_eq!(X509KeyIdAlgo::from_fuse(1), Ok(X509KeyIdAlgo::Sha256));
    assert_eq!(X509KeyIdAlgo::from_fuse(2), Ok(X509KeyIdAlgo::Sha384));
    assert_eq!(X509KeyIdAlgo::from_fuse(3), Ok(X509KeyIdAlgo::Fuse));
    assert_eq!(X509KeyIdAlgo::from_fuse(4), Err(RomError::X509KeyIdAlgoUnsupported));
    assert_eq!(X509KeyIdAlgo::from_fuse(u32::MAX), Err(RomError::X509KeyIdAlgoUnsupported));
}

#[test]
fn key_id_uses_sha1_digest_whole() {
    let fuse = [0xeeu8; 20];
    let d = counting(20);
    assert_eq!(X509::idev_subj_key_id(X509KeyIdAlgo::Sha1, &d, &fuse), Ok(d.clone()));
}

#[test]
fn key_id_truncates_sha256_and_sha384() {
    let fuse = [0xeeu8; 20];
    assert_eq!(
        X509::idev_subj_key_id(X509KeyIdAlgo::Sha256, &counting(32), &fuse),
        Ok(counting(20))
    );
    assert_eq!(
        X509::idev_subj_key_id(X509KeyIdAlgo::Sha384, &counting(48), &fuse),
        Ok(counting(20))
    );
}

#[test]
fn key_id_from_fuse_ignores_digest() {
    let fuse = [0xeeu8; 20];
    assert_eq!(X509::idev_subj_key_id(X509KeyIdAlgo::Fuse, &[], &fuse), Ok(fuse.to_vec()));
}

#[test]
fn key_id_rejects_digest_of_wrong_size() {
    let fuse = [0u8; 20];
    assert_eq!(
        X509::idev_subj_key_id(X509KeyIdAlgo::Sha256, &counting(48), &fuse),
        Err(RomError::UnexpectedLength)
    );
}

#[test]
fn subject_serial_is_upper_hex() {
    let mut d = vec![0u8; 32];
    d[0] = 0xab;
    d[1] = 0x09;
    d[31] = 0xf0;
    let sn = X509::subj_sn(&d).unwrap();
    assert_eq!(sn.len(), 64);
    assert_eq!(&sn[..4], b"AB09");
    assert_eq!(&sn[62..], b"F0");
    assert_eq!(hex_upper(&[0x01, 0xcd]), b"01CD".to_vec());
    assert_eq!(X509::subj_sn(&[0u8; 31]), Err(RomError::UnexpectedLength));
}

#[test]
fn cert_serial_is_positive_and_nonzero() {
    let mut d = vec![0x11u8; 32];
    d[0] = 0xff;
    let sn = X509::cert_sn(&d).unwrap();
    assert_eq!(sn.len(), 20);
    assert_eq!(sn[0], 0x7f);
    assert_eq!(&sn[1..], &d[1..20]);
    let zero = X509::cert_sn(&[0u8; 32]).unwrap();
    assert_eq!(zero[0], 0x04);
}

#[test]
fn ecc_key_encoding_is_uncompressed_point() {
    let pk = counting(96);
    let enc = encode_ecc_pub_key(&pk);
    assert_eq!(enc.len(), 97);
    assert_eq!(enc[0], 0x04);
    assert_eq!(&enc[1..], &pk[..]);
}
