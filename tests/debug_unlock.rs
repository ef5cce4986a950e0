use caliptra_rom::mailbox::{
    MANUF_DEBUG_UNLOCK_REQ_TOKEN, PRODUCTION_AUTH_DEBUG_UNLOCK_REQ,
    PRODUCTION_AUTH_DEBUG_UNLOCK_TOKEN,
};
use caliptra_rom::{DebugUnlockFlow, Event, Lifecycle, RomError, UnlockAction};

/// Deterministic stand-in for a digest engine.
fn fake_digest(data: &[u8], len: usize) -> Vec<u8> {
    let mut out = vec![0u8; len];
    let mut acc: u32 = 0x811c_9dc5;
    for (i, b) in data.iter().enumerate() {
        acc = (acc ^ (*b as u32)).wrapping_mul(0x0100_0193);
        out[i % len] ^= (acc >> 8) as u8;
    }
    for (i, o) in out.iter_mut().enumerate() {
        acc = (acc ^ i as u32).wrapping_mul(0x0100_0193);
        *o ^= (acc >> 16) as u8;
    }
    out
}

/// Deterministic stand-in for a signer: a signature binds key and digest.
fn fake_sign(public_key: &[u8], digest: &[u8], len: usize) -> Vec<u8> {
    let mut data = public_key.to_vec();
    data.extend_from_slice(digest);
    fake_digest(&data, len)
}

#[derive(Default)]
struct FakeSoc {
    commands: Vec<Option<u32>>,
    payloads: Vec<Vec<u8>>,
    random: Vec<Vec<u8>>,
    key_hash: Vec<u8>,
    sent: Vec<Vec<u8>>,
    in_progress: bool,
    latch: Option<bool>,
    polls: usize,
    secret_work: usize,
}

impl FakeSoc {
    fn answer(&mut self, action: UnlockAction) -> Result<Event, Result<(), RomError>> {
        Ok(match action {
            UnlockAction::PollMailbox => {
                self.polls += 1;
                Event::Mailbox(if self.commands.is_empty() { None } else { self.commands.remove(0) })
            }
            UnlockAction::ReadPayload => Event::Bytes(Ok(self.payloads.remove(0))),
            UnlockAction::MarkInProgress => {
                self.in_progress = true;
                Event::Done(Ok(()))
            }
            UnlockAction::GenerateRandom => Event::Bytes(Ok(self.random.remove(0))),
            UnlockAction::Sha384(d) => {
                self.secret_work += 1;
                Event::Bytes(Ok(fake_digest(&d, 48)))
            }
            UnlockAction::Sha512(d) => {
                self.secret_work += 1;
                Event::Bytes(Ok(fake_digest(&d, 64)))
            }
            UnlockAction::SendResponse(b) => {
                self.sent.push(b);
                Event::Done(Ok(()))
            }
            UnlockAction::ReadAuthorizedKeyHash(_) => Event::Bytes(Ok(self.key_hash.clone())),
            UnlockAction::EccVerify { public_key, digest, signature } => {
                Event::Verified(Ok(fake_sign(&public_key, &digest, 96) == signature))
            }
            UnlockAction::MldsaVerify { public_key, digest, signature } => {
                Event::Verified(Ok(fake_sign(&public_key, &digest, 4628) == signature))
            }
            UnlockAction::Commit(unlocked) => {
                self.in_progress = false;
                self.latch = Some(unlocked);
                Event::Done(Ok(()))
            }
            UnlockAction::Complete(r) => return Err(r),
        })
    }

    fn run(&mut self, requested: bool, lifecycle: Lifecycle, fuse_token: &[u8]) -> Result<(), RomError> {
        let (mut flow, mut action) =
            DebugUnlockFlow::debug_unlock(requested, lifecycle, fuse_token, &UEID);
        for _ in 0..1000 {
            match self.answer(action) {
                Ok(ev) => action = flow.step(ev),
                Err(r) => return r,
            }
        }
        panic!("debug unlock flow did not complete");
    }
}

const UEID: [u8; 17] = [0x5a; 17];
const MANUF_TOKEN: [u8; 16] = [
    0xeb, 0xef, 0xcd, 0xab, 0x01, 0x02, 0x03, 0x04, 0x05, 0x06, 0x07, 0x08, 0x09, 0x0a, 0x0b, 0x0c,
];

fn manuf_request(token: &[u8; 16]) -> Vec<u8> {
    let mut req = vec![0u8; 4];
    req.extend_from_slice(token);
    req
}

fn manuf_soc(token: &[u8; 16]) -> FakeSoc {
    FakeSoc {
        commands: vec![None, None, Some(MANUF_DEBUG_UNLOCK_REQ_TOKEN)],
        payloads: vec![manuf_request(token)],
        random: vec![vec![0x42; 48]],
        ..Default::default()
    }
}

#[test]
fn test_dbg_unlock_manuf() {
    let mut soc = manuf_soc(&MANUF_TOKEN);
    assert_eq!(soc.run(true, Lifecycle::Manufacturing, &MANUF_TOKEN), Ok(()));
    assert_eq!(soc.latch, Some(true));
    assert!(!soc.in_progress);
    assert_eq!(soc.sent, vec![vec![0u8; 8]]);
    assert_eq!(soc.polls, 3);
}

#[test]
fn manuf_token_differing_in_any_byte_is_denied() {
    let mut work = None;
    for pos in 0..16 {
        let mut token = MANUF_TOKEN;
        token[pos] ^= 0x01;
        let mut soc = manuf_soc(&token);
        assert_eq!(
            soc.run(true, Lifecycle::Manufacturing, &MANUF_TOKEN),
            Err(RomError::DbgUnlockManufInvalidToken)
        );
        assert_eq!(soc.latch, Some(false));
        assert!(!soc.in_progress);
        assert!(soc.sent.is_empty());
        // The same steps are taken whichever byte differs.
        assert_eq!(*work.get_or_insert(soc.secret_work), soc.secret_work);
    }
}

#[test]
fn manuf_wrong_command_is_rejected_without_side_effects() {
    let mut soc = FakeSoc {
        commands: vec![Some(PRODUCTION_AUTH_DEBUG_UNLOCK_REQ)],
        ..Default::default()
    };
    assert_eq!(
        soc.run(true, Lifecycle::Manufacturing, &MANUF_TOKEN),
        Err(RomError::DbgUnlockManufInvalidMboxCmd)
    );
    assert_eq!(soc.latch, None);
    assert!(!soc.in_progress);
}

#[test]
fn manuf_short_payload_is_rejected() {
    let mut soc = FakeSoc {
        commands: vec![Some(MANUF_DEBUG_UNLOCK_REQ_TOKEN)],
        payloads: vec![vec![0u8; 19]],
        ..Default::default()
    };
    assert_eq!(
        soc.run(true, Lifecycle::Manufacturing, &MANUF_TOKEN),
        Err(RomError::MailboxPayloadSize)
    );
    assert_eq!(soc.latch, None);
}

#[test]
fn manuf_rng_failure_closes_latch() {
    let mut soc = manuf_soc(&MANUF_TOKEN);
    soc.random = vec![vec![0u8; 8]];
    assert_eq!(
        soc.run(true, Lifecycle::Manufacturing, &MANUF_TOKEN),
        Err(RomError::UnexpectedLength)
    );
    assert_eq!(soc.latch, Some(false));
    assert!(!soc.in_progress);
}

#[test]
fn no_request_or_other_lifecycle_is_a_no_op() {
    let mut soc = FakeSoc::default();
    assert_eq!(soc.run(false, Lifecycle::Production, &MANUF_TOKEN), Ok(()));
    assert_eq!(soc.run(true, Lifecycle::Unprovisioned, &MANUF_TOKEN), Ok(()));
    assert_eq!(soc.polls, 0);
    assert_eq!(soc.latch, None);
}

fn be24(v: u32) -> [u8; 3] {
    [(v >> 16) as u8, (v >> 8) as u8, v as u8]
}

fn prod_request(category: u32) -> Vec<u8> {
    let mut r = vec![0, 0, 0, 0, 0x12, 0x34, 0x01, 0];
    r.extend_from_slice(&be24(3));
    r.push(0);
    r.extend_from_slice(&be24(category));
    r.push(0);
    r
}

struct Keys {
    ecc_pk: Vec<u8>,
    mldsa_pk: Vec<u8>,
}

fn keys() -> Keys {
    Keys {
        ecc_pk: (0..96).map(|i| i as u8).collect(),
        mldsa_pk: (0..2592).map(|i| (i * 7) as u8).collect(),
    }
}

fn key_hash(k: &Keys) -> Vec<u8> {
    let mut both = k.ecc_pk.clone();
    both.extend_from_slice(&k.mldsa_pk);
    fake_digest(&both, 64)
}

fn prod_token(category: u32, challenge: &[u8], k: &Keys) -> Vec<u8> {
    let device_id = [0x77u8; 32];
    let mut msg = challenge.to_vec();
    msg.extend_from_slice(&device_id);
    msg.extend_from_slice(&be24(category));
    let ecc_sig = fake_sign(&k.ecc_pk, &fake_digest(&msg, 48), 96);
    let mldsa_sig = fake_sign(&k.mldsa_pk, &fake_digest(&msg, 64), 4628);
    let mut t = vec![0u8; 4];
    t.extend_from_slice(&be24(1875));
    t.push(0);
    t.extend_from_slice(&be24(category));
    t.push(0);
    t.extend_from_slice(challenge);
    t.extend_from_slice(&device_id);
    t.extend_from_slice(&k.ecc_pk);
    t.extend_from_slice(&ecc_sig);
    t.extend_from_slice(&k.mldsa_pk);
    t.extend_from_slice(&mldsa_sig);
    assert_eq!(t.len(), 7504);
    t
}

const CHALLENGE: [u8; 48] = [0xc3; 48];

fn prod_soc(category: u32, token: Vec<u8>) -> FakeSoc {
    FakeSoc {
        commands: vec![
            None,
            Some(PRODUCTION_AUTH_DEBUG_UNLOCK_REQ),
            None,
            Some(PRODUCTION_AUTH_DEBUG_UNLOCK_TOKEN),
        ],
        payloads: vec![prod_request(category), token],
        random: vec![CHALLENGE.to_vec()],
        key_hash: key_hash(&keys()),
        ..Default::default()
    }
}

#[test]
fn production_unlock_with_valid_token_succeeds() {
    let k = keys();
    let mut soc = prod_soc(0, prod_token(0, &CHALLENGE, &k));
    assert_eq!(soc.run(true, Lifecycle::Production, &MANUF_TOKEN), Ok(()));
    assert_eq!(soc.latch, Some(true));
    assert!(!soc.in_progress);
    assert_eq!(soc.sent.len(), 2);
    let challenge = &soc.sent[0];
    assert_eq!(challenge.len(), 96);
    assert_eq!(&challenge[0..8], &[0u8; 8]);
    assert_eq!(&challenge[8..12], &[0x12, 0x34, 0x01, 0]);
    assert_eq!(&challenge[12..15], &be24(23));
    assert_eq!(&challenge[16..33], &UEID);
    assert_eq!(&challenge[33..48], &[0u8; 15]);
    assert_eq!(&challenge[48..96], &CHALLENGE);
    assert_eq!(soc.sent[1], vec![0u8; 8]);
}

#[test]
fn production_category_0x10_is_rejected_before_challenge() {
    let mut soc = prod_soc(0x10, Vec::new());
    assert_eq!(
        soc.run(true, Lifecycle::Production, &MANUF_TOKEN),
        Err(RomError::DbgUnlockProdInvalidReq)
    );
    assert!(soc.sent.is_empty());
    assert_eq!(soc.random.len(), 1);
    assert_eq!(soc.latch, None);
}

#[test]
fn production_bad_declared_length_is_rejected() {
    let mut req = prod_request(1);
    req[10] = 4;
    let mut soc = prod_soc(1, Vec::new());
    soc.payloads[0] = req;
    assert_eq!(
        soc.run(true, Lifecycle::Production, &MANUF_TOKEN),
        Err(RomError::DbgUnlockProdInvalidReq)
    );
}

#[test]
fn production_flipped_ecc_signature_is_denied() {
    let k = keys();
    let mut token = prod_token(0x0f, &CHALLENGE, &k);
    token[188] ^= 0x01;
    let mut soc = prod_soc(0x0f, token);
    assert_eq!(
        soc.run(true, Lifecycle::Production, &MANUF_TOKEN),
        Err(RomError::DbgUnlockProdEccSignatureInvalid)
    );
    assert_eq!(soc.latch, Some(false));
    assert!(!soc.in_progress);
    assert_eq!(soc.sent.len(), 1);
}

#[test]
fn production_mismatched_mldsa_signature_is_denied() {
    let k = keys();
    let mut token = prod_token(0x0f, &CHALLENGE, &k);
    token[7503] ^= 0x80;
    let mut soc = prod_soc(0x0f, token);
    assert_eq!(
        soc.run(true, Lifecycle::Production, &MANUF_TOKEN),
        Err(RomError::DbgUnlockProdMldsaSignatureInvalid)
    );
    assert_eq!(soc.latch, Some(false));
}

#[test]
fn production_unauthorized_keys_are_denied() {
    let mut k = keys();
    k.ecc_pk[0] ^= 1;
    let mut soc = prod_soc(2, prod_token(2, &CHALLENGE, &k));
    assert_eq!(
        soc.run(true, Lifecycle::Production, &MANUF_TOKEN),
        Err(RomError::DbgUnlockProdInvalidToken)
    );
    assert_eq!(soc.latch, Some(false));
    assert!(!soc.in_progress);
}

#[test]
fn production_category_echo_mismatch_is_rejected() {
    let k = keys();
    let mut soc = prod_soc(2, prod_token(3, &CHALLENGE, &k));
    assert_eq!(
        soc.run(true, Lifecycle::Production, &MANUF_TOKEN),
        Err(RomError::DbgUnlockProdInvalidToken)
    );
    assert_eq!(soc.latch, Some(false));
    assert!(!soc.in_progress);
}

#[test]
fn production_token_read_failure_closes_latch() {
    let mut soc = prod_soc(0, vec![0u8; 100]);
    assert_eq!(
        soc.run(true, Lifecycle::Production, &MANUF_TOKEN),
        Err(RomError::MailboxPayloadSize)
    );
    assert_eq!(soc.latch, Some(false));
    assert!(!soc.in_progress);
}

#[test]
fn production_wrong_token_command_is_rejected() {
    let mut soc = prod_soc(0, Vec::new());
    soc.commands[3] = Some(MANUF_DEBUG_UNLOCK_REQ_TOKEN);
    assert_eq!(
        soc.run(true, Lifecycle::Production, &MANUF_TOKEN),
        Err(RomError::DbgUnlockProdInvalidTokenMboxCmd)
    );
    assert_eq!(soc.latch, Some(false));
}

#[test]
fn replayed_challenge_is_rejected_in_second_exchange() {
    let k = keys();
    let first = CHALLENGE;
    let mut soc = prod_soc(1, prod_token(1, &first, &k));
    assert_eq!(soc.run(true, Lifecycle::Production, &MANUF_TOKEN), Ok(()));

    // A second exchange draws a fresh challenge; a token echoing the first is refused.
    let second = [0x3cu8; 48];
    let mut soc = prod_soc(1, prod_token(1, &first, &k));
    soc.random = vec![second.to_vec()];
    assert_eq!(
        soc.run(true, Lifecycle::Production, &MANUF_TOKEN),
        Err(RomError::DbgUnlockProdInvalidToken)
    );
    assert_eq!(&soc.sent[0][48..96], &second);
    assert_eq!(soc.latch, Some(false));
    assert!(!soc.in_progress);
    assert_eq!(soc.sent.len(), 1);
}
