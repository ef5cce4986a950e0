use caliptra_rom::dice::{
    EccKeyPair, MldsaKeyPair, KEY_ID_FE, KEY_ID_LDEVID_ECDSA_PRIV_KEY,
    KEY_ID_LDEVID_MLDSA_KEYPAIR_SEED, KEY_ID_ROM_FMC_CDI,
};
use caliptra_rom::{
    DiceAction, DiceInput, DiceOutput, DicePhase, Event, LocalDevIdLayer, RomError,
    X509KeyIdAlgo,
};

fn fake_digest(data: &[u8], len: usize) -> Vec<u8> {
    let mut out = vec![0u8; len];
    let mut acc: u32 = 0x811c_9dc5;
    for (i, b) in data.iter().enumerate() {
        acc = (acc ^ (*b as u32)).wrapping_mul(0x0100_0193);
        out[i % len] ^= (acc >> 8) as u8;
    }
    for (i, o) in out.iter_mut().enumerate() {
        acc = (acc ^ i as u32).wrapping_mul(0x0100_0193);
        *o ^= (acc >> 16) as u8;
    }
    out
}

const AUTH_SLOT: u8 = 7;

fn auth_pub_key() -> Vec<u8> {
    vec![0xa1; 96]
}

fn input() -> DiceInput {
    DiceInput {
        ecc_auth_key_pair: EccKeyPair { priv_key: AUTH_SLOT, pub_key: auth_pub_key() },
        ecc_auth_sn: vec![b'A'; 64],
        ecc_auth_key_id: vec![0x1d; 20],
        mldsa_auth_key_pair: MldsaKeyPair { key_pair_seed: 8, pub_key: vec![0xb2; 2592] },
        mldsa_auth_sn: vec![b'B'; 64],
        mldsa_auth_key_id: vec![0x2d; 20],
    }
}

#[derive(Default)]
struct FakeRom {
    log: Vec<String>,
    erased: Vec<u8>,
    fail_hmac: bool,
    fail_tbs: bool,
    fail_erase_of: Option<u8>,
    cleanup_error: Option<u32>,
    corrupt_signature: bool,
    stored_signature: Option<Vec<u8>>,
    stored_pub_key: Option<Vec<u8>>,
    copied_tbs: Option<Vec<u8>>,
    tbs_ueid: Option<Vec<u8>>,
    key_gen_requests: Vec<(u8, Vec<u8>, u8)>,
}

impl FakeRom {
    fn answer(&mut self, action: DiceAction) -> Result<Event, Result<(), RomError>> {
        Ok(match action {
            DiceAction::HmacLabel { label, .. } => {
                self.log.push(format!("hmac {}", String::from_utf8(label).unwrap()));
                Event::Done(if self.fail_hmac { Err(0x55) } else { Ok(()) })
            }
            DiceAction::HmacSlot { data, .. } => {
                self.log.push(format!("hmac slot {}", data));
                Event::Done(Ok(()))
            }
            DiceAction::EraseKey(slot) => {
                if self.fail_erase_of == Some(slot) {
                    return Ok(Event::Done(Err(0x66)));
                }
                self.erased.push(slot);
                Event::Done(Ok(()))
            }
            DiceAction::EccKeyGen { seed, label, priv_key } => {
                let pk = fake_digest(&label, 96);
                self.key_gen_requests.push((seed, label, priv_key));
                Event::Bytes(Ok(pk))
            }
            DiceAction::MldsaKeyGen { seed, label, key_pair_seed } => {
                let pk = fake_digest(&label, 2592);
                self.key_gen_requests.push((seed, label, key_pair_seed));
                Event::Bytes(Ok(pk))
            }
            DiceAction::Sha256(d) => Event::Bytes(Ok(fake_digest(&d, 32))),
            DiceAction::KeyIdDigest(algo, d) => {
                let len = match algo {
                    X509KeyIdAlgo::Sha1 => 20,
                    X509KeyIdAlgo::Sha256 => 32,
                    X509KeyIdAlgo::Sha384 => 48,
                    X509KeyIdAlgo::Fuse => 20,
                };
                Event::Bytes(Ok(fake_digest(&d, len)))
            }
            DiceAction::BuildTbs(_) if self.fail_tbs => Event::Bytes(Err(0x77)),
            DiceAction::BuildTbs(p) => {
                self.tbs_ueid = Some(p.ueid.clone());
                let mut tbs = Vec::new();
                for f in [
                    &p.ueid,
                    &p.subject_sn,
                    &p.subject_key_id,
                    &p.issuer_sn,
                    &p.authority_key_id,
                    &p.serial_number,
                    &p.public_key,
                ] {
                    tbs.extend_from_slice(f);
                }
                Event::Bytes(Ok(tbs))
            }
            DiceAction::Sha384(d) => Event::Bytes(Ok(fake_digest(&d, 48))),
            DiceAction::EccSign { priv_key, digest } => {
                assert_eq!(priv_key, AUTH_SLOT);
                let mut data = auth_pub_key();
                data.extend_from_slice(&digest);
                let mut sig = fake_digest(&data, 96);
                if self.corrupt_signature {
                    sig[0] ^= 1;
                }
                Event::Bytes(Ok(sig))
            }
            DiceAction::EccVerify { public_key, digest, signature } => {
                let mut data = public_key;
                data.extend_from_slice(&digest);
                Event::Verified(Ok(fake_digest(&data, 96) == signature))
            }
            DiceAction::StoreSignature(s) => {
                self.stored_signature = Some(s);
                Event::Done(Ok(()))
            }
            DiceAction::StorePublicKey(k) => {
                self.stored_pub_key = Some(k);
                Event::Done(Ok(()))
            }
            DiceAction::CopyTbs(t) => {
                self.copied_tbs = Some(t);
                Event::Done(Ok(()))
            }
            DiceAction::Complete(r) => return Err(r),
        })
    }

    fn run(&mut self, key_id_algo: u32) -> (Result<(), RomError>, Option<DiceOutput>) {
        let (mut layer, mut action) =
            LocalDevIdLayer::derive(&input(), key_id_algo, &[0xf0; 20], &[0x5a; 17]);
        for _ in 0..100 {
            match self.answer(action) {
                Ok(ev) => action = layer.step(ev),
                Err(r) => {
                    assert_eq!(layer.phase, DicePhase::Done);
                    self.cleanup_error = layer.cleanup_error;
                    let out = if r.is_ok() { Some(layer.output()) } else { None };
                    return (r, out);
                }
            }
        }
        panic!("derivation did not complete");
    }
}

#[test]
fn derivation_succeeds_and_erases_secrets() {
    let mut rom = FakeRom::default();
    let (r, out) = rom.run(1);
    assert_eq!(r, Ok(()));
    assert_eq!(rom.log, vec!["hmac ldevid_cdi".to_string(), format!("hmac slot {}", KEY_ID_FE)]);
    assert_eq!(rom.erased, vec![KEY_ID_FE, AUTH_SLOT]);
    let out = out.unwrap();
    assert_eq!(out.ecc_subj_key_pair.priv_key, KEY_ID_LDEVID_ECDSA_PRIV_KEY);
    assert_eq!(out.ecc_subj_key_pair.pub_key, fake_digest(b"ldevid_ecc_key", 96));
    assert_eq!(out.mldsa_subj_key_pair.key_pair_seed, KEY_ID_LDEVID_MLDSA_KEYPAIR_SEED);
    assert_eq!(out.mldsa_subj_key_pair.pub_key, fake_digest(b"ldevid_mldsa_key", 2592));
    assert_eq!(out.ecc_subj_sn.len(), 64);
    assert_eq!(out.mldsa_subj_sn.len(), 64);
    let mut enc = vec![0x04];
    enc.extend_from_slice(&out.ecc_subj_key_pair.pub_key);
    assert_eq!(out.ecc_subj_key_id, fake_digest(&enc, 32)[..20].to_vec());
    assert_eq!(
        out.mldsa_subj_key_id,
        fake_digest(&out.mldsa_subj_key_pair.pub_key, 32)[..20].to_vec()
    );
    assert_eq!(rom.stored_pub_key, Some(out.ecc_subj_key_pair.pub_key.clone()));
    assert_eq!(rom.stored_signature.as_ref().map(|s| s.len()), Some(96));
    assert_eq!(rom.tbs_ueid, Some(vec![0x5a; 17]));
    assert!(rom.copied_tbs.is_some());
}

#[test]
fn derivation_is_repeatable() {
    let mut a = FakeRom::default();
    let mut b = FakeRom::default();
    let (_, out_a) = a.run(2);
    let (_, out_b) = b.run(2);
    let (out_a, out_b) = (out_a.unwrap(), out_b.unwrap());
    assert_eq!(out_a.ecc_subj_key_pair.pub_key, out_b.ecc_subj_key_pair.pub_key);
    assert_eq!(out_a.mldsa_subj_key_id, out_b.mldsa_subj_key_id);
    assert_eq!(a.key_gen_requests, b.key_gen_requests);
    assert_eq!(
        a.key_gen_requests,
        vec![
            (KEY_ID_ROM_FMC_CDI, b"ldevid_ecc_key".to_vec(), KEY_ID_LDEVID_ECDSA_PRIV_KEY),
            (KEY_ID_ROM_FMC_CDI, b"ldevid_mldsa_key".to_vec(), KEY_ID_LDEVID_MLDSA_KEYPAIR_SEED),
        ]
    );
}

#[test]
fn fuse_key_id_algorithm_uses_fuse_value() {
    let mut rom = FakeRom::default();
    let (r, out) = rom.run(3);
    assert_eq!(r, Ok(()));
    let out = out.unwrap();
    assert_eq!(out.ecc_subj_key_id, vec![0xf0; 20]);
    assert_eq!(out.mldsa_subj_key_id, vec![0xf0; 20]);
}

#[test]
fn cdi_failure_still_erases_precursor() {
    let mut rom = FakeRom { fail_hmac: true, ..Default::default() };
    let (r, _) = rom.run(1);
    assert_eq!(r, Err(RomError::Driver(0x55)));
    assert_eq!(rom.erased, vec![KEY_ID_FE]);
    assert!(rom.key_gen_requests.is_empty());
}

#[test]
fn failed_self_verify_erases_authority_key_and_stores_nothing() {
    let mut rom = FakeRom { corrupt_signature: true, ..Default::default() };
    let (r, _) = rom.run(0);
    assert_eq!(r, Err(RomError::SignatureSelfVerifyFailed));
    assert_eq!(rom.erased, vec![KEY_ID_FE, AUTH_SLOT]);
    assert_eq!(rom.stored_signature, None);
    assert_eq!(rom.copied_tbs, None);
}

#[test]
fn unknown_key_id_algorithm_is_a_configuration_error() {
    let mut rom = FakeRom::default();
    let (r, _) = rom.run(9);
    assert_eq!(r, Err(RomError::X509KeyIdAlgoUnsupported));
    assert_eq!(rom.erased, vec![KEY_ID_FE]);
    assert_eq!(rom.stored_signature, None);
}

#[test]
fn tbs_failure_erases_authority_key() {
    let mut rom = FakeRom { fail_tbs: true, ..Default::default() };
    let (r, _) = rom.run(1);
    assert_eq!(r, Err(RomError::Driver(0x77)));
    assert_eq!(rom.erased, vec![KEY_ID_FE, AUTH_SLOT]);
    assert_eq!(rom.stored_signature, None);
}

#[test]
fn failed_cleanup_erase_is_recorded() {
    let mut rom = FakeRom { fail_hmac: true, fail_erase_of: Some(KEY_ID_FE), ..Default::default() };
    let (r, _) = rom.run(1);
    assert_eq!(r, Err(RomError::Driver(0x55)));
    assert_eq!(rom.cleanup_error, Some(0x66));
}

#[test]
fn failed_erase_on_success_path_is_the_result() {
    let mut rom = FakeRom { fail_erase_of: Some(AUTH_SLOT), ..Default::default() };
    let (r, _) = rom.run(1);
    assert_eq!(r, Err(RomError::Driver(0x66)));
    assert_eq!(rom.stored_signature, None);
    assert_eq!(rom.cleanup_error, None);
}
