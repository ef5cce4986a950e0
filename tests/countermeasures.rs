use caliptra_rom::{cfi_launder, secure_eq, zeroize_bytes, RomError};

#[test]
fn launder_is_identity() {
    assert!(cfi_launder(true));
    assert!(!cfi_launder(false));
}

#[test]
fn secure_eq_accepts_equal_bytes() {
    let a = [7u8; 64];
    assert_eq!(secure_eq(&a, &a.clone(), RomError::DbgUnlockManufInvalidToken), Ok(()));
    assert_eq!(secure_eq(&[], &[], RomError::DbgUnlockManufInvalidToken), Ok(()));
}

#[test]
fn secure_eq_rejects_any_single_byte_difference() {
    let a = [7u8; 64];
    for pos in 0..64 {
        let mut b = a;
        b[pos] ^= 1;
        assert_eq!(
            secure_eq(&a, &b, RomError::DbgUnlockManufInvalidToken),
            Err(RomError::DbgUnlockManufInvalidToken)
        );
    }
}

#[test]
fn secure_eq_rejects_different_lengths() {
    assert_eq!(
        secure_eq(&[1, 2, 3], &[1, 2], RomError::DbgUnlockProdInvalidToken),
        Err(RomError::DbgUnlockProdInvalidToken)
    );
}

#[test]
fn zeroize_wipes_every_byte() {
    let mut secret = vec![0xa5u8; 96];
    zeroize_bytes(&mut secret);
    assert_eq!(secret, vec![0u8; 96]);
}

#[test]
fn branch_check_returns_the_decision() {
    assert_eq!(caliptra_rom::cfi_branch(true), Ok(true));
    assert_eq!(caliptra_rom::cfi_branch(false), Ok(false));
}
