use vstd::prelude::*;

use crate::bytes::copy_all;
use crate::cfi::{cfi_branch, zeroize_bytes};
use crate::error::RomError;
use crate::platform::Event;
use crate::x509::{
    cert_sn_of, digest_size, ecc_pub_key_encoding, encode_ecc_pub_key, hex_of, key_id_algo_of,
    X509KeyIdAlgo, ECC_PUB_KEY_SIZE, KEY_ID_SIZE, X509,
};

verus! {

/// Key slot of the decrypted field entropy, the precursor secret of this layer.
pub const KEY_ID_FE: u8 = 1;

/// Key slot receiving this layer's ML-DSA key pair seed.
pub const KEY_ID_LDEVID_MLDSA_KEYPAIR_SEED: u8 = 4;

/// Key slot receiving this layer's ECC private key.
pub const KEY_ID_LDEVID_ECDSA_PRIV_KEY: u8 = 5;

/// Key slot receiving this layer's composite device identity.
pub const KEY_ID_ROM_FMC_CDI: u8 = 6;

/// Size of an ML-DSA-87 public key.
pub const MLDSA_PUB_KEY_SIZE: usize = 2592;

/// Size of a SHA-256 digest.
pub const SHA256_DIGEST_SIZE: usize = 32;

/// Size of the unique device identifier held in fuses.
pub const DICE_UEID_SIZE: usize = 17;

/// The label `ldevid_cdi`.
pub open spec fn cdi_label() -> Seq<u8> {
    seq![108u8, 100u8, 101u8, 118u8, 105u8, 100u8, 95u8, 99u8, 100u8, 105u8]
}

fn make_cdi_label() -> (r: Vec<u8>)
    ensures
        r@ == cdi_label(),
{
    let a: [u8; 10] = [108u8, 100u8, 101u8, 118u8, 105u8, 100u8, 95u8, 99u8, 100u8, 105u8];
    assert(a@ =~= cdi_label());
    copy_all(&a)
}

/// The label `ldevid_ecc_key`.
pub open spec fn ecc_label() -> Seq<u8> {
    seq![108u8, 100u8, 101u8, 118u8, 105u8, 100u8, 95u8, 101u8, 99u8, 99u8, 95u8, 107u8, 101u8, 121u8]
}

fn make_ecc_label() -> (r: Vec<u8>)
    ensures
        r@ == ecc_label(),
{
    let a: [u8; 14] = [108u8, 100u8, 101u8, 118u8, 105u8, 100u8, 95u8, 101u8, 99u8, 99u8, 95u8, 107u8, 101u8, 121u8];
    assert(a@ =~= ecc_label());
    copy_all(&a)
}

/// The label `ldevid_mldsa_key`.
pub open spec fn mldsa_label() -> Seq<u8> {
    seq![108u8, 100u8, 101u8, 118u8, 105u8, 100u8, 95u8, 109u8, 108u8, 100u8, 115u8, 97u8, 95u8, 107u8, 101u8, 121u8]
}

fn make_mldsa_label() -> (r: Vec<u8>)
    ensures
        r@ == mldsa_label(),
{
    let a: [u8; 16] = [108u8, 100u8, 101u8, 118u8, 105u8, 100u8, 95u8, 109u8, 108u8, 100u8, 115u8, 97u8, 95u8, 107u8, 101u8, 121u8];
    assert(a@ =~= mldsa_label());
    copy_all(&a)
}

/// Every byte is zero.
pub open spec fn all_zero(s: Seq<u8>) -> bool {
    forall|i: int| 0 <= i < s.len() ==> s[i] == 0u8
}

/// An ECC-384 key pair: the private key stays in its key slot.
pub struct EccKeyPair {
    pub priv_key: u8,
    pub pub_key: Vec<u8>,
}

/// An ML-DSA-87 key pair: the seed stays in its key slot.
pub struct MldsaKeyPair {
    pub key_pair_seed: u8,
    pub pub_key: Vec<u8>,
}

/// What the previous layer hands to this one: its key pairs, which sign this
/// layer's certificate, and its subject serial numbers and key identifiers.
pub struct DiceInput {
    pub ecc_auth_key_pair: EccKeyPair,
    pub ecc_auth_sn: Vec<u8>,
    pub ecc_auth_key_id: Vec<u8>,
    pub mldsa_auth_key_pair: MldsaKeyPair,
    pub mldsa_auth_sn: Vec<u8>,
    pub mldsa_auth_key_id: Vec<u8>,
}

/// What this layer hands to the next one.
pub struct DiceOutput {
    pub ecc_subj_key_pair: EccKeyPair,
    pub ecc_subj_sn: Vec<u8>,
    pub ecc_subj_key_id: Vec<u8>,
    pub mldsa_subj_key_pair: MldsaKeyPair,
    pub mldsa_subj_sn: Vec<u8>,
    pub mldsa_subj_key_id: Vec<u8>,
}

/// The fields the certificate encoder binds into the to-be-signed part of
/// the layer's ECC certificate (the encoder adds its validity window).
pub struct TbsParams {
    pub ueid: Vec<u8>,
    pub subject_sn: Vec<u8>,
    pub subject_key_id: Vec<u8>,
    pub issuer_sn: Vec<u8>,
    pub authority_key_id: Vec<u8>,
    pub serial_number: Vec<u8>,
    pub public_key: Vec<u8>,
}

/// What the identity derivation asks its collaborators to do next.
pub enum DiceAction {
    /// HMAC keyed by slot `key` over `label`, written to slot `dest`; answer
    /// `Event::Done`.
    HmacLabel { key: u8, label: Vec<u8>, dest: u8 },
    /// HMAC keyed by slot `key` over the secret of slot `data`, written to
    /// slot `dest`; answer `Event::Done`.
    HmacSlot { key: u8, data: u8, dest: u8 },
    /// Erase a key slot; answer `Event::Done`.
    EraseKey(u8),
    /// Derive an ECC-384 key pair from slot `seed` and `label`, the private
    /// key into slot `priv_key`; answer `Event::Bytes` with the public key.
    EccKeyGen { seed: u8, label: Vec<u8>, priv_key: u8 },
    /// Derive an ML-DSA-87 key pair from slot `seed` and `label`, its seed into
    /// slot `key_pair_seed`; answer `Event::Bytes` with the public key.
    MldsaKeyGen { seed: u8, label: Vec<u8>, key_pair_seed: u8 },
    /// SHA-256 of the bytes; answer `Event::Bytes`.
    Sha256(Vec<u8>),
    /// Digest of the bytes under the key identifier algorithm; answer
    /// `Event::Bytes`.
    KeyIdDigest(X509KeyIdAlgo, Vec<u8>),
    /// Encode the to-be-signed part of the certificate; answer `Event::Bytes`.
    BuildTbs(TbsParams),
    /// SHA-384 of the bytes; answer `Event::Bytes`.
    Sha384(Vec<u8>),
    /// Sign a digest with the private key of a slot; answer `Event::Bytes`.
    EccSign { priv_key: u8, digest: Vec<u8> },
    /// Verify a signature; answer `Event::Verified`.
    EccVerify { public_key: Vec<u8>, digest: Vec<u8>, signature: Vec<u8> },
    /// Lock the certificate signature in the write-once store; answer
    /// `Event::Done`.
    StoreSignature(Vec<u8>),
    /// Lock the layer's public key in the write-once store; answer
    /// `Event::Done`.
    StorePublicKey(Vec<u8>),
    /// Copy the to-be-signed bytes to the scratch buffer for the next stage;
    /// answer `Event::Done`.
    CopyTbs(Vec<u8>),
    /// The derivation is over with this result.
    Complete(Result<(), RomError>),
}

/// Where a layer derivation stands.
#[derive(Clone, Copy, Debug, PartialEq, Eq, Structural)]
pub enum DicePhase {
    CdiLabel,
    CdiSecret,
    EraseFe,
    /// The precursor secret is being erased after a failure.
    FailingFe,
    EccKeyGen,
    MldsaKeyGen,
    EccSerial,
    MldsaSerial,
    EccKeyId,
    MldsaKeyId,
    Tbs,
    TbsDigest,
    Sign,
    SelfVerify,
    /// The authority key is being erased after a failure.
    FailingAuth,
    EraseAuth,
    StoreSignature,
    StorePublicKey,
    CopyTbs,
    Done,
}

/// Phases before the erasure of the precursor secret was requested.
pub open spec fn before_fe_erase(p: DicePhase) -> bool {
    p == DicePhase::CdiLabel || p == DicePhase::CdiSecret
}

/// Phases of the signing step, from the encoding of the to-be-signed bytes to
/// the self-verification: a failure there erases the authority key.
pub open spec fn signing(p: DicePhase) -> bool {
    p == DicePhase::Tbs || p == DicePhase::TbsDigest || p == DicePhase::Sign || p
        == DicePhase::SelfVerify
}

/// Phases in which the fresh signature is held in memory.
pub open spec fn holds_signature(p: DicePhase) -> bool {
    p == DicePhase::SelfVerify || p == DicePhase::EraseAuth || p == DicePhase::StoreSignature
}

/// Phases that follow the confirmed erasure of the precursor secret.
pub open spec fn fe_confirmed(p: DicePhase) -> bool {
    !before_fe_erase(p) && p != DicePhase::EraseFe && p != DicePhase::FailingFe && p
        != DicePhase::Done
}

/// Phases that follow the confirmed erasure of the authority key.
pub open spec fn auth_confirmed(p: DicePhase) -> bool {
    p == DicePhase::StoreSignature || p == DicePhase::StorePublicKey || p == DicePhase::CopyTbs
}

/// State of one layer derivation: the Local Device ID layer, derived from
/// the decrypted field entropy and certified by the previous layer's key.
pub struct LocalDevIdLayer {
    pub phase: DicePhase,
    /// Slot of the authority (previous layer's) ECC private key.
    pub auth_priv_key: u8,
    pub auth_pub_key: Vec<u8>,
    pub auth_sn: Vec<u8>,
    pub auth_key_id: Vec<u8>,
    /// Fuse value selecting the key identifier algorithm.
    pub key_id_algo: u32,
    /// Subject key identifier held in fuses.
    pub fuse_key_id: Vec<u8>,
    /// Unique device identifier held in fuses.
    pub ueid: Vec<u8>,
    pub ecc_pub_key: Vec<u8>,
    pub mldsa_pub_key: Vec<u8>,
    pub ecc_sn: Vec<u8>,
    pub mldsa_sn: Vec<u8>,
    pub ecc_key_id: Vec<u8>,
    pub mldsa_key_id: Vec<u8>,
    pub cert_sn: Vec<u8>,
    /// The algorithm in use once it was selected.
    pub algo: X509KeyIdAlgo,
    pub tbs: Vec<u8>,
    pub tbs_digest: Vec<u8>,
    pub signature: Vec<u8>,
    pub fe_erase_issued: bool,
    pub fe_erased: bool,
    pub sign_issued: bool,
    pub sig_verified: bool,
    pub auth_erase_issued: bool,
    pub auth_erased: bool,
    /// The code of a failed erase that followed an earlier failure; the
    /// earlier failure stays the result of the derivation.
    pub cleanup_error: Option<u32>,
    pub outcome: Result<(), RomError>,
}

impl LocalDevIdLayer {
    pub open spec fn wf(&self) -> bool {
        &&& self.fuse_key_id@.len() == KEY_ID_SIZE
        &&& self.ueid@.len() == DICE_UEID_SIZE
        &&& !before_fe_erase(self.phase) ==> self.fe_erase_issued
        &&& fe_confirmed(self.phase) ==> self.fe_erased
        &&& self.sign_issued && !signing(self.phase) ==> self.auth_erase_issued
        &&& signing(self.phase) || self.phase == DicePhase::FailingAuth || auth_confirmed(self.phase)
            || self.phase == DicePhase::EraseAuth ==> self.sign_issued
        &&& auth_confirmed(self.phase) || self.phase == DicePhase::EraseAuth ==> self.sig_verified
        &&& auth_confirmed(self.phase) ==> self.auth_erased
        &&& !holds_signature(self.phase) ==> all_zero(self.signature@)
        &&& self.phase == DicePhase::Done && self.outcome is Ok ==> {
            &&& self.fe_erased
            &&& self.sign_issued
            &&& self.sig_verified
            &&& self.auth_erased
        }
        &&& self.phase != DicePhase::Done && self.phase != DicePhase::FailingFe && self.phase
            != DicePhase::FailingAuth ==> self.outcome is Ok
        &&& self.phase == DicePhase::FailingFe || self.phase == DicePhase::FailingAuth
            ==> self.outcome is Err
        &&& self.phase == DicePhase::EccKeyId || self.phase == DicePhase::MldsaKeyId ==> self.algo
            != X509KeyIdAlgo::Fuse
    }

    /// The derivation fails with `e`. Before the precursor secret was erased,
    /// its erasure comes first; while the authority key is in use, its
    /// erasure comes first; otherwise the derivation ends at once. The
    /// signature buffer is wiped in every case.
    pub open spec fn fails_with(&self, new: &Self, act: &DiceAction, e: RomError) -> bool {
        &&& new.outcome == Err::<(), RomError>(e)
        &&& if before_fe_erase(self.phase) {
            &&& new.phase == DicePhase::FailingFe
            &&& *act == DiceAction::EraseKey(KEY_ID_FE)
        } else if signing(self.phase) {
            &&& new.phase == DicePhase::FailingAuth
            &&& *act == DiceAction::EraseKey(self.auth_priv_key)
            &&& all_zero(new.signature@)
        } else {
            &&& new.phase == DicePhase::Done
            &&& *act == DiceAction::Complete(Err(e))
            &&& all_zero(new.signature@)
        }
    }

    /// The to-be-signed parameters bind the fuse identifier, the new subject
    /// identifiers, the authority's identifiers, the serial number and the
    /// encoded public key.
    pub open spec fn tbs_params_of(&self, new: &Self, p: &TbsParams) -> bool {
        &&& p.ueid@ == self.ueid@
        &&& p.subject_sn@ == self.ecc_sn@
        &&& p.subject_key_id@ == new.ecc_key_id@
        &&& p.issuer_sn@ == self.auth_sn@
        &&& p.authority_key_id@ == self.auth_key_id@
        &&& p.serial_number@ == self.cert_sn@
        &&& p.public_key@ == ecc_pub_key_encoding(self.ecc_pub_key@)
    }

    /// The inputs never change, and each computed value changes only in the
    /// phase that computes it. The signature is also wiped once stored, or
    /// when the derivation fails.
    pub open spec fn keeps_record(&self, new: &Self) -> bool {
        let p = self.phase;
        *new == (LocalDevIdLayer {
            phase: new.phase,
            outcome: new.outcome,
            fe_erase_issued: new.fe_erase_issued,
            fe_erased: new.fe_erased,
            sign_issued: new.sign_issued,
            sig_verified: new.sig_verified,
            auth_erase_issued: new.auth_erase_issued,
            auth_erased: new.auth_erased,
            cleanup_error: new.cleanup_error,
            ecc_pub_key: if p == DicePhase::EccKeyGen { new.ecc_pub_key } else { self.ecc_pub_key },
            mldsa_pub_key: if p == DicePhase::MldsaKeyGen {
                new.mldsa_pub_key
            } else {
                self.mldsa_pub_key
            },
            ecc_sn: if p == DicePhase::EccSerial { new.ecc_sn } else { self.ecc_sn },
            cert_sn: if p == DicePhase::EccSerial { new.cert_sn } else { self.cert_sn },
            mldsa_sn: if p == DicePhase::MldsaSerial { new.mldsa_sn } else { self.mldsa_sn },
            algo: if p == DicePhase::MldsaSerial { new.algo } else { self.algo },
            ecc_key_id: if p == DicePhase::MldsaSerial || p == DicePhase::EccKeyId {
                new.ecc_key_id
            } else {
                self.ecc_key_id
            },
            mldsa_key_id: if p == DicePhase::MldsaSerial || p == DicePhase::MldsaKeyId {
                new.mldsa_key_id
            } else {
                self.mldsa_key_id
            },
            tbs: if p == DicePhase::Tbs { new.tbs } else { self.tbs },
            tbs_digest: if p == DicePhase::TbsDigest { new.tbs_digest } else { self.tbs_digest },
            signature: if p == DicePhase::Sign || p == DicePhase::StoreSignature || new.outcome is Err {
                new.signature
            } else {
                self.signature
            },
            ..*self
        })
    }

    /// How one event moves the derivation and which action follows.
    pub open spec fn transition(&self, ev: &Event, new: &Self, act: &DiceAction) -> bool {
        &&& self.keeps_record(new)
        &&& self.step_outcome(ev, new, act)
    }

    /// The phase and action that one event leads to.
    pub open spec fn step_outcome(&self, ev: &Event, new: &Self, act: &DiceAction) -> bool {
        match self.phase {
            DicePhase::CdiLabel => match ev {
                Event::Done(Ok(())) => {
                    &&& new.phase == DicePhase::CdiSecret
                    &&& *act == DiceAction::HmacSlot {
                        key: KEY_ID_ROM_FMC_CDI,
                        data: KEY_ID_FE,
                        dest: KEY_ID_ROM_FMC_CDI,
                    }
                },
                Event::Done(Err(c)) => self.fails_with(new, act, RomError::Driver(*c)),
                _ => self.fails_with(new, act, RomError::UnexpectedEvent),
            },
            DicePhase::CdiSecret => match ev {
                Event::Done(Ok(())) => {
                    &&& new.phase == DicePhase::EraseFe
                    &&& *act == DiceAction::EraseKey(KEY_ID_FE)
                },
                Event::Done(Err(c)) => self.fails_with(new, act, RomError::Driver(*c)),
                _ => self.fails_with(new, act, RomError::UnexpectedEvent),
            },
            DicePhase::EraseFe => match ev {
                Event::Done(Ok(())) => {
                    &&& new.phase == DicePhase::EccKeyGen
                    &&& new.fe_erased
                    &&& *act is EccKeyGen
                    &&& act->EccKeyGen_seed == KEY_ID_ROM_FMC_CDI
                    &&& act->EccKeyGen_label@ == ecc_label()
                    &&& act->EccKeyGen_priv_key == KEY_ID_LDEVID_ECDSA_PRIV_KEY
                },
                Event::Done(Err(c)) => self.fails_with(new, act, RomError::Driver(*c)),
                _ => self.fails_with(new, act, RomError::UnexpectedEvent),
            },
            DicePhase::FailingFe | DicePhase::FailingAuth => {
                &&& new.phase == DicePhase::Done
                &&& new.outcome == self.outcome
                &&& *act == DiceAction::Complete(self.outcome)
                &&& new.cleanup_error == match ev {
                    Event::Done(Err(c)) => Some(*c),
                    _ => self.cleanup_error,
                }
                &&& (*ev == Event::Done(Ok(())) ==> if self.phase == DicePhase::FailingFe {
                    new.fe_erased
                } else {
                    new.auth_erased
                })
            },
            DicePhase::Done => {
                &&& new.phase == DicePhase::Done
                &&& new.outcome == self.outcome
                &&& new.cleanup_error == self.cleanup_error
                &&& *act == DiceAction::Complete(self.outcome)
            },
            DicePhase::EccKeyGen => match ev {
                Event::Bytes(Ok(pk)) => if pk@.len() == ECC_PUB_KEY_SIZE {
                    &&& new.phase == DicePhase::MldsaKeyGen
                    &&& new.ecc_pub_key@ == pk@
                    &&& *act is MldsaKeyGen
                    &&& act->MldsaKeyGen_seed == KEY_ID_ROM_FMC_CDI
                    &&& act->MldsaKeyGen_label@ == mldsa_label()
                    &&& act->MldsaKeyGen_key_pair_seed == KEY_ID_LDEVID_MLDSA_KEYPAIR_SEED
                } else {
                    self.fails_with(new, act, RomError::UnexpectedLength)
                },
                Event::Bytes(Err(c)) => self.fails_with(new, act, RomError::Driver(*c)),
                _ => self.fails_with(new, act, RomError::UnexpectedEvent),
            },
            DicePhase::MldsaKeyGen => match ev {
                Event::Bytes(Ok(pk)) => if pk@.len() == MLDSA_PUB_KEY_SIZE {
                    &&& new.phase == DicePhase::EccSerial
                    &&& new.mldsa_pub_key@ == pk@
                    &&& *act is Sha256
                    &&& act->Sha256_0@ == ecc_pub_key_encoding(self.ecc_pub_key@)
                } else {
                    self.fails_with(new, act, RomError::UnexpectedLength)
                },
                Event::Bytes(Err(c)) => self.fails_with(new, act, RomError::Driver(*c)),
                _ => self.fails_with(new, act, RomError::UnexpectedEvent),
            },
            DicePhase::EccSerial => match ev {
                Event::Bytes(Ok(d)) => if d@.len() == SHA256_DIGEST_SIZE {
                    &&& new.phase == DicePhase::MldsaSerial
                    &&& new.ecc_sn@ == hex_of(d@)
                    &&& new.cert_sn@ == cert_sn_of(d@)
                    &&& *act is Sha256
                    &&& act->Sha256_0@ == self.mldsa_pub_key@
                } else {
                    self.fails_with(new, act, RomError::UnexpectedLength)
                },
                Event::Bytes(Err(c)) => self.fails_with(new, act, RomError::Driver(*c)),
                _ => self.fails_with(new, act, RomError::UnexpectedEvent),
            },
            DicePhase::MldsaSerial => match ev {
                Event::Bytes(Ok(d)) => if d@.len() != SHA256_DIGEST_SIZE {
                    self.fails_with(new, act, RomError::UnexpectedLength)
                } else {
                    match key_id_algo_of(self.key_id_algo) {
                        None => self.fails_with(new, act, RomError::X509KeyIdAlgoUnsupported),
                        Some(X509KeyIdAlgo::Fuse) => {
                            &&& new.phase == DicePhase::Tbs
                            &&& new.mldsa_sn@ == hex_of(d@)
                            &&& new.ecc_key_id@ == self.fuse_key_id@
                            &&& new.mldsa_key_id@ == self.fuse_key_id@
                            &&& *act is BuildTbs
                            &&& self.tbs_params_of(new, &act->BuildTbs_0)
                        },
                        Some(a) => {
                            &&& new.phase == DicePhase::EccKeyId
                            &&& new.mldsa_sn@ == hex_of(d@)
                            &&& new.algo == a
                            &&& *act is KeyIdDigest
                            &&& act->KeyIdDigest_0 == a
                            &&& act->KeyIdDigest_1@ == ecc_pub_key_encoding(self.ecc_pub_key@)
                        },
                    }
                },
                Event::Bytes(Err(c)) => self.fails_with(new, act, RomError::Driver(*c)),
                _ => self.fails_with(new, act, RomError::UnexpectedEvent),
            },
            DicePhase::EccKeyId => match ev {
                Event::Bytes(Ok(d)) => if d@.len() == digest_size(self.algo) {
                    &&& new.phase == DicePhase::MldsaKeyId
                    &&& new.ecc_key_id@ == d@.subrange(0, 20)
                    &&& *act is KeyIdDigest
                    &&& act->KeyIdDigest_0 == self.algo
                    &&& act->KeyIdDigest_1@ == self.mldsa_pub_key@
                } else {
                    self.fails_with(new, act, RomError::UnexpectedLength)
                },
                Event::Bytes(Err(c)) => self.fails_with(new, act, RomError::Driver(*c)),
                _ => self.fails_with(new, act, RomError::UnexpectedEvent),
            },
            DicePhase::MldsaKeyId => match ev {
                Event::Bytes(Ok(d)) => if d@.len() == digest_size(self.algo) {
                    &&& new.phase == DicePhase::Tbs
                    &&& new.mldsa_key_id@ == d@.subrange(0, 20)
                    &&& *act is BuildTbs
                    &&& self.tbs_params_of(self, &act->BuildTbs_0)
                } else {
                    self.fails_with(new, act, RomError::UnexpectedLength)
                },
                Event::Bytes(Err(c)) => self.fails_with(new, act, RomError::Driver(*c)),
                _ => self.fails_with(new, act, RomError::UnexpectedEvent),
            },
            DicePhase::Tbs => match ev {
                Event::Bytes(Ok(t)) => {
                    &&& new.phase == DicePhase::TbsDigest
                    &&& new.tbs@ == t@
                    &&& *act is Sha384
                    &&& act->Sha384_0@ == t@
                },
                Event::Bytes(Err(c)) => self.fails_with(new, act, RomError::Driver(*c)),
                _ => self.fails_with(new, act, RomError::UnexpectedEvent),
            },
            DicePhase::TbsDigest => match ev {
                Event::Bytes(Ok(d)) => {
                    &&& new.phase == DicePhase::Sign
                    &&& new.tbs_digest@ == d@
                    &&& *act is EccSign
                    &&& act->EccSign_priv_key == self.auth_priv_key
                    &&& act->EccSign_digest@ == d@
                },
                Event::Bytes(Err(c)) => self.fails_with(new, act, RomError::Driver(*c)),
                _ => self.fails_with(new, act, RomError::UnexpectedEvent),
            },
            DicePhase::Sign => match ev {
                Event::Bytes(Ok(s)) => {
                    &&& new.phase == DicePhase::SelfVerify
                    &&& new.signature@ == s@
                    &&& *act is EccVerify
                    &&& act->EccVerify_public_key@ == self.auth_pub_key@
                    &&& act->EccVerify_digest@ == self.tbs_digest@
                    &&& act->EccVerify_signature@ == s@
                },
                Event::Bytes(Err(c)) => self.fails_with(new, act, RomError::Driver(*c)),
                _ => self.fails_with(new, act, RomError::UnexpectedEvent),
            },
            DicePhase::SelfVerify => match ev {
                Event::Verified(Ok(true)) => {
                    &&& new.phase == DicePhase::EraseAuth
                    &&& new.sig_verified
                    &&& *act == DiceAction::EraseKey(self.auth_priv_key)
                },
                Event::Verified(Ok(false)) => self.fails_with(
                    new,
                    act,
                    RomError::SignatureSelfVerifyFailed,
                ),
                Event::Verified(Err(c)) => self.fails_with(new, act, RomError::Driver(*c)),
                _ => self.fails_with(new, act, RomError::UnexpectedEvent),
            },
            DicePhase::EraseAuth => match ev {
                Event::Done(Ok(())) => {
                    &&& new.phase == DicePhase::StoreSignature
                    &&& new.auth_erased
                    &&& *act is StoreSignature
                    &&& act->StoreSignature_0@ == self.signature@
                },
                Event::Done(Err(c)) => self.fails_with(new, act, RomError::Driver(*c)),
                _ => self.fails_with(new, act, RomError::UnexpectedEvent),
            },
            DicePhase::StoreSignature => match ev {
                Event::Done(Ok(())) => {
                    &&& new.phase == DicePhase::StorePublicKey
                    &&& all_zero(new.signature@)
                    &&& *act is StorePublicKey
                    &&& act->StorePublicKey_0@ == self.ecc_pub_key@
                },
                Event::Done(Err(c)) => self.fails_with(new, act, RomError::Driver(*c)),
                _ => self.fails_with(new, act, RomError::UnexpectedEvent),
            },
            DicePhase::StorePublicKey => match ev {
                Event::Done(Ok(())) => {
                    &&& new.phase == DicePhase::CopyTbs
                    &&& *act is CopyTbs
                    &&& act->CopyTbs_0@ == self.tbs@
                },
                Event::Done(Err(c)) => self.fails_with(new, act, RomError::Driver(*c)),
                _ => self.fails_with(new, act, RomError::UnexpectedEvent),
            },
            DicePhase::CopyTbs => match ev {
                Event::Done(Ok(())) => {
                    &&& new.phase == DicePhase::Done
                    &&& new.outcome is Ok
                    &&& *act == DiceAction::Complete(Ok(()))
                },
                Event::Done(Err(c)) => self.fails_with(new, act, RomError::Driver(*c)),
                _ => self.fails_with(new, act, RomError::UnexpectedEvent),
            },
        }
    }
}

fn phase_before_fe_erase(p: DicePhase) -> (r: bool)
    ensures
        r == before_fe_erase(p),
{
    match p {
        DicePhase::CdiLabel | DicePhase::CdiSecret => true,
        _ => false,
    }
}

fn phase_is_failing_fe(p: DicePhase) -> (r: bool)
    ensures
        r == (p == DicePhase::FailingFe),
{
    match p {
        DicePhase::FailingFe => true,
        _ => false,
    }
}

fn phase_signing(p: DicePhase) -> (r: bool)
    ensures
        r == signing(p),
{
    match p {
        DicePhase::Tbs | DicePhase::TbsDigest | DicePhase::Sign | DicePhase::SelfVerify => true,
        _ => false,
    }
}

impl LocalDevIdLayer {
    /// Starts the derivation of the Local Device ID layer.
    ///
    /// `input` is the previous layer's output; `key_id_algo`, `fuse_key_id`
    /// and `ueid` are the fuse values that select the key identifier
    /// algorithm, give the fuse key identifier and identify the device. The
    /// first action mixes the layer label into the CDI slot.
    pub fn derive(input: &DiceInput, key_id_algo: u32, fuse_key_id: &[u8], ueid: &[u8]) -> (r: (
        LocalDevIdLayer,
        DiceAction,
    ))
        requires
            fuse_key_id@.len() == KEY_ID_SIZE,
            ueid@.len() == DICE_UEID_SIZE,
        ensures
            r.0.wf(),
            r.0.phase == DicePhase::CdiLabel,
            r.0.auth_priv_key == input.ecc_auth_key_pair.priv_key,
            r.0.auth_pub_key@ == input.ecc_auth_key_pair.pub_key@,
            r.0.auth_sn@ == input.ecc_auth_sn@,
            r.0.auth_key_id@ == input.ecc_auth_key_id@,
            r.0.key_id_algo == key_id_algo,
            r.0.fuse_key_id@ == fuse_key_id@,
            r.0.ueid@ == ueid@,
            !r.0.fe_erase_issued && !r.0.sign_issued,
            r.1 is HmacLabel,
            r.1->HmacLabel_key == KEY_ID_ROM_FMC_CDI,
            r.1->HmacLabel_label@ == cdi_label(),
            r.1->HmacLabel_dest == KEY_ID_ROM_FMC_CDI,
    {
        let layer = LocalDevIdLayer {
            phase: DicePhase::CdiLabel,
            auth_priv_key: input.ecc_auth_key_pair.priv_key,
            auth_pub_key: copy_all(input.ecc_auth_key_pair.pub_key.as_slice()),
            auth_sn: copy_all(input.ecc_auth_sn.as_slice()),
            auth_key_id: copy_all(input.ecc_auth_key_id.as_slice()),
            key_id_algo,
            fuse_key_id: copy_all(fuse_key_id),
            ueid: copy_all(ueid),
            ecc_pub_key: Vec::new(),
            mldsa_pub_key: Vec::new(),
            ecc_sn: Vec::new(),
            mldsa_sn: Vec::new(),
            ecc_key_id: Vec::new(),
            mldsa_key_id: Vec::new(),
            cert_sn: Vec::new(),
            algo: X509KeyIdAlgo::Fuse,
            tbs: Vec::new(),
            tbs_digest: Vec::new(),
            signature: Vec::new(),
            fe_erase_issued: false,
            fe_erased: false,
            sign_issued: false,
            sig_verified: false,
            auth_erase_issued: false,
            auth_erased: false,
            cleanup_error: None,
            outcome: Ok(()),
        };
        let action = DiceAction::HmacLabel {
            key: KEY_ID_ROM_FMC_CDI,
            label: make_cdi_label(),
            dest: KEY_ID_ROM_FMC_CDI,
        };
        (layer, action)
    }

    /// The to-be-signed parameters of the layer's certificate.
    fn tbs_params(&self) -> (r: TbsParams)
        ensures
            self.tbs_params_of(self, &r),
    {
        TbsParams {
            ueid: copy_all(self.ueid.as_slice()),
            subject_sn: copy_all(self.ecc_sn.as_slice()),
            subject_key_id: copy_all(self.ecc_key_id.as_slice()),
            issuer_sn: copy_all(self.auth_sn.as_slice()),
            authority_key_id: copy_all(self.auth_key_id.as_slice()),
            serial_number: copy_all(self.cert_sn.as_slice()),
            public_key: encode_ecc_pub_key(self.ecc_pub_key.as_slice()),
        }
    }

    /// Records the failure `e` and returns the action that follows it.
    fn fail(&mut self, e: RomError) -> (r: DiceAction)
        ensures
            old(self).fails_with(final(self), &r, e),
            *final(self) == (LocalDevIdLayer {
                phase: final(self).phase,
                outcome: Err(e),
                fe_erase_issued: final(self).fe_erase_issued,
                auth_erase_issued: final(self).auth_erase_issued,
                signature: final(self).signature,
                ..*old(self)
            }),
            final(self).fe_erase_issued == (old(self).fe_erase_issued || before_fe_erase(
                old(self).phase,
            )),
            final(self).auth_erase_issued == (old(self).auth_erase_issued || signing(
                old(self).phase,
            )),
            all_zero(final(self).signature@),
    {
        self.outcome = Err(e);
        zeroize_bytes(&mut self.signature);
        if phase_before_fe_erase(self.phase) {
            self.fe_erase_issued = true;
            self.phase = DicePhase::FailingFe;
            DiceAction::EraseKey(KEY_ID_FE)
        } else if phase_signing(self.phase) {
            self.auth_erase_issued = true;
            self.phase = DicePhase::FailingAuth;
            DiceAction::EraseKey(self.auth_priv_key)
        } else {
            self.phase = DicePhase::Done;
            DiceAction::Complete(Err(e))
        }
    }

    /// Steps that derive the CDI and erase the precursor secret.
    fn derive_cdi(&mut self, ev: Event) -> (r: DiceAction)
        requires
            old(self).wf(),
            before_fe_erase(old(self).phase) || old(self).phase == DicePhase::EraseFe,
        ensures
            final(self).wf(),
            old(self).transition(&ev, final(self), &r),
    {
        match self.phase {
            DicePhase::CdiLabel => match ev {
                Event::Done(Ok(())) => {
                    self.phase = DicePhase::CdiSecret;
                    DiceAction::HmacSlot {
                        key: KEY_ID_ROM_FMC_CDI,
                        data: KEY_ID_FE,
                        dest: KEY_ID_ROM_FMC_CDI,
                    }
                },
                Event::Done(Err(c)) => self.fail(RomError::Driver(c)),
                _ => self.fail(RomError::UnexpectedEvent),
            },
            DicePhase::CdiSecret => match ev {
                Event::Done(Ok(())) => {
                    self.fe_erase_issued = true;
                    self.phase = DicePhase::EraseFe;
                    DiceAction::EraseKey(KEY_ID_FE)
                },
                Event::Done(Err(c)) => self.fail(RomError::Driver(c)),
                _ => self.fail(RomError::UnexpectedEvent),
            },
            DicePhase::EraseFe => match ev {
                Event::Done(Ok(())) => {
                    self.fe_erased = true;
                    self.phase = DicePhase::EccKeyGen;
                    DiceAction::EccKeyGen {
                        seed: KEY_ID_ROM_FMC_CDI,
                        label: make_ecc_label(),
                        priv_key: KEY_ID_LDEVID_ECDSA_PRIV_KEY,
                    }
                },
                Event::Done(Err(c)) => self.fail(RomError::Driver(c)),
                _ => self.fail(RomError::UnexpectedEvent),
            },
            _ => DiceAction::Complete(self.outcome),
        }
    }

    /// Steps that derive the layer key pairs.
    fn derive_key_pair(&mut self, ev: Event) -> (r: DiceAction)
        requires
            old(self).wf(),
            old(self).phase == DicePhase::EccKeyGen || old(self).phase == DicePhase::MldsaKeyGen,
        ensures
            final(self).wf(),
            old(self).transition(&ev, final(self), &r),
    {
        match self.phase {
            DicePhase::EccKeyGen => match ev {
                Event::Bytes(Ok(pk)) => {
                    if pk.len() == ECC_PUB_KEY_SIZE {
                        self.ecc_pub_key = pk;
                        self.phase = DicePhase::MldsaKeyGen;
                        DiceAction::MldsaKeyGen {
                            seed: KEY_ID_ROM_FMC_CDI,
                            label: make_mldsa_label(),
                            key_pair_seed: KEY_ID_LDEVID_MLDSA_KEYPAIR_SEED,
                        }
                    } else {
                        self.fail(RomError::UnexpectedLength)
                    }
                },
                Event::Bytes(Err(c)) => self.fail(RomError::Driver(c)),
                _ => self.fail(RomError::UnexpectedEvent),
            },
            DicePhase::MldsaKeyGen => match ev {
                Event::Bytes(Ok(pk)) => {
                    if pk.len() == MLDSA_PUB_KEY_SIZE {
                        self.mldsa_pub_key = pk;
                        self.phase = DicePhase::EccSerial;
                        DiceAction::Sha256(encode_ecc_pub_key(self.ecc_pub_key.as_slice()))
                    } else {
                        self.fail(RomError::UnexpectedLength)
                    }
                },
                Event::Bytes(Err(c)) => self.fail(RomError::Driver(c)),
                _ => self.fail(RomError::UnexpectedEvent),
            },
            _ => DiceAction::Complete(self.outcome),
        }
    }

    /// Steps that compute the subject serial numbers and key identifiers.
    fn derive_subject(&mut self, ev: Event) -> (r: DiceAction)
        requires
            old(self).wf(),
            old(self).phase == DicePhase::EccSerial || old(self).phase == DicePhase::MldsaSerial || old(self).phase == DicePhase::EccKeyId || old(self).phase == DicePhase::MldsaKeyId,
        ensures
            final(self).wf(),
            old(self).transition(&ev, final(self), &r),
    {
        match self.phase {
            DicePhase::EccSerial => match ev {
                Event::Bytes(Ok(d)) => match (X509::subj_sn(d.as_slice()), X509::cert_sn(d.as_slice())) {
                    (Ok(sn), Ok(cert_sn)) => {
                        self.ecc_sn = sn;
                        self.cert_sn = cert_sn;
                        self.phase = DicePhase::MldsaSerial;
                        DiceAction::Sha256(copy_all(self.mldsa_pub_key.as_slice()))
                    },
                    _ => self.fail(RomError::UnexpectedLength),
                },
                Event::Bytes(Err(c)) => self.fail(RomError::Driver(c)),
                _ => self.fail(RomError::UnexpectedEvent),
            },
            DicePhase::MldsaSerial => match ev {
                Event::Bytes(Ok(d)) => match X509::subj_sn(d.as_slice()) {
                    Ok(sn) => match X509KeyIdAlgo::from_fuse(self.key_id_algo) {
                        Ok(algo) => {
                            self.mldsa_sn = sn;
                            self.algo = algo;
                            if algo.needs_digest() {
                                self.phase = DicePhase::EccKeyId;
                                DiceAction::KeyIdDigest(
                                    algo,
                                    encode_ecc_pub_key(self.ecc_pub_key.as_slice()),
                                )
                            } else {
                                self.ecc_key_id = copy_all(self.fuse_key_id.as_slice());
                                self.mldsa_key_id = copy_all(self.fuse_key_id.as_slice());
                                self.sign_issued = true;
                                self.phase = DicePhase::Tbs;
                                DiceAction::BuildTbs(self.tbs_params())
                            }
                        },
                        Err(e) => self.fail(e),
                    },
                    Err(e) => self.fail(e),
                },
                Event::Bytes(Err(c)) => self.fail(RomError::Driver(c)),
                _ => self.fail(RomError::UnexpectedEvent),
            },
            DicePhase::EccKeyId => match ev {
                Event::Bytes(Ok(d)) => match X509::idev_subj_key_id(
                    self.algo,
                    d.as_slice(),
                    self.fuse_key_id.as_slice(),
                ) {
                    Ok(id) => {
                        self.ecc_key_id = id;
                        self.phase = DicePhase::MldsaKeyId;
                        DiceAction::KeyIdDigest(self.algo, copy_all(self.mldsa_pub_key.as_slice()))
                    },
                    Err(e) => self.fail(e),
                },
                Event::Bytes(Err(c)) => self.fail(RomError::Driver(c)),
                _ => self.fail(RomError::UnexpectedEvent),
            },
            DicePhase::MldsaKeyId => match ev {
                Event::Bytes(Ok(d)) => match X509::idev_subj_key_id(
                    self.algo,
                    d.as_slice(),
                    self.fuse_key_id.as_slice(),
                ) {
                    Ok(id) => {
                        self.mldsa_key_id = id;
                        self.sign_issued = true;
                        self.phase = DicePhase::Tbs;
                        DiceAction::BuildTbs(self.tbs_params())
                    },
                    Err(e) => self.fail(e),
                },
                Event::Bytes(Err(c)) => self.fail(RomError::Driver(c)),
                _ => self.fail(RomError::UnexpectedEvent),
            },
            _ => DiceAction::Complete(self.outcome),
        }
    }

    /// Steps that sign the certificate, erase the authority key and commit the results.
    ///
    /// Only the ECC certificate of the layer is produced. A post-quantum
    /// certificate would be assembled and signed after `CopyTbs`, with the
    /// ML-DSA authority key pair and identifiers that `DiceInput` carries.
    fn generate_cert_sig(&mut self, ev: Event) -> (r: DiceAction)
        requires
            old(self).wf(),
            old(self).phase == DicePhase::Tbs || old(self).phase == DicePhase::TbsDigest || signing(old(self).phase) || old(self).phase == DicePhase::EraseAuth || auth_confirmed(old(self).phase),
        ensures
            final(self).wf(),
            old(self).transition(&ev, final(self), &r),
    {
        match self.phase {
            DicePhase::Tbs => match ev {
                Event::Bytes(Ok(t)) => {
                    let request = copy_all(t.as_slice());
                    self.tbs = t;
                    self.phase = DicePhase::TbsDigest;
                    DiceAction::Sha384(request)
                },
                Event::Bytes(Err(c)) => self.fail(RomError::Driver(c)),
                _ => self.fail(RomError::UnexpectedEvent),
            },
            DicePhase::TbsDigest => match ev {
                Event::Bytes(Ok(d)) => {
                    let digest = copy_all(d.as_slice());
                    self.tbs_digest = d;
                    self.phase = DicePhase::Sign;
                    DiceAction::EccSign { priv_key: self.auth_priv_key, digest }
                },
                Event::Bytes(Err(c)) => self.fail(RomError::Driver(c)),
                _ => self.fail(RomError::UnexpectedEvent),
            },
            DicePhase::Sign => match ev {
                Event::Bytes(Ok(s)) => {
                    let signature = copy_all(s.as_slice());
                    self.signature = s;
                    self.phase = DicePhase::SelfVerify;
                    DiceAction::EccVerify {
                        public_key: copy_all(self.auth_pub_key.as_slice()),
                        digest: copy_all(self.tbs_digest.as_slice()),
                        signature,
                    }
                },
                Event::Bytes(Err(c)) => self.fail(RomError::Driver(c)),
                _ => self.fail(RomError::UnexpectedEvent),
            },
            DicePhase::SelfVerify => match ev {
                Event::Verified(Ok(verified)) => match cfi_branch(verified) {
                    Ok(true) => {
                        self.sig_verified = true;
                        self.auth_erase_issued = true;
                        self.phase = DicePhase::EraseAuth;
                        DiceAction::EraseKey(self.auth_priv_key)
                    },
                    Ok(false) => self.fail(RomError::SignatureSelfVerifyFailed),
                    Err(e) => self.fail(e),
                },
                Event::Verified(Err(c)) => self.fail(RomError::Driver(c)),
                _ => self.fail(RomError::UnexpectedEvent),
            },
            DicePhase::EraseAuth => match ev {
                Event::Done(Ok(())) => {
                    self.auth_erased = true;
                    self.phase = DicePhase::StoreSignature;
                    DiceAction::StoreSignature(copy_all(self.signature.as_slice()))
                },
                Event::Done(Err(c)) => self.fail(RomError::Driver(c)),
                _ => self.fail(RomError::UnexpectedEvent),
            },
            DicePhase::StoreSignature => match ev {
                Event::Done(Ok(())) => {
                    zeroize_bytes(&mut self.signature);
                    self.phase = DicePhase::StorePublicKey;
                    DiceAction::StorePublicKey(copy_all(self.ecc_pub_key.as_slice()))
                },
                Event::Done(Err(c)) => self.fail(RomError::Driver(c)),
                _ => self.fail(RomError::UnexpectedEvent),
            },
            DicePhase::StorePublicKey => match ev {
                Event::Done(Ok(())) => {
                    self.phase = DicePhase::CopyTbs;
                    DiceAction::CopyTbs(copy_all(self.tbs.as_slice()))
                },
                Event::Done(Err(c)) => self.fail(RomError::Driver(c)),
                _ => self.fail(RomError::UnexpectedEvent),
            },
            DicePhase::CopyTbs => match ev {
                Event::Done(Ok(())) => {
                    self.outcome = Ok(());
                    self.phase = DicePhase::Done;
                    DiceAction::Complete(Ok(()))
                },
                Event::Done(Err(c)) => self.fail(RomError::Driver(c)),
                _ => self.fail(RomError::UnexpectedEvent),
            },
            _ => DiceAction::Complete(self.outcome),
        }
    }

    /// Advances the derivation by one event and returns the next action.
    pub fn step(&mut self, ev: Event) -> (r: DiceAction)
        requires
            old(self).wf(),
        ensures
            final(self).wf(),
            old(self).transition(&ev, final(self), &r),
    {
        match self.phase {
            DicePhase::CdiLabel | DicePhase::CdiSecret | DicePhase::EraseFe => self.derive_cdi(ev),
            DicePhase::EccKeyGen | DicePhase::MldsaKeyGen => self.derive_key_pair(ev),
            DicePhase::EccSerial
            | DicePhase::MldsaSerial
            | DicePhase::EccKeyId
            | DicePhase::MldsaKeyId => self.derive_subject(ev),
            DicePhase::FailingFe | DicePhase::FailingAuth => {
                match ev {
                    Event::Done(Ok(())) => {
                        if phase_is_failing_fe(self.phase) {
                            self.fe_erased = true;
                        } else {
                            self.auth_erased = true;
                        }
                    },
                    Event::Done(Err(c)) => {
                        self.cleanup_error = Some(c);
                    },
                    _ => {},
                }
                self.phase = DicePhase::Done;
                DiceAction::Complete(self.outcome)
            },
            DicePhase::Done => DiceAction::Complete(self.outcome),
            _ => self.generate_cert_sig(ev),
        }
    }
}

impl LocalDevIdLayer {
    /// The layer's output, once the derivation completed with success.
    pub fn output(&self) -> (r: DiceOutput)
        requires
            self.wf(),
            self.phase == DicePhase::Done,
            self.outcome is Ok,
        ensures
            r.ecc_subj_key_pair.priv_key == KEY_ID_LDEVID_ECDSA_PRIV_KEY,
            r.ecc_subj_key_pair.pub_key@ == self.ecc_pub_key@,
            r.ecc_subj_sn@ == self.ecc_sn@,
            r.ecc_subj_key_id@ == self.ecc_key_id@,
            r.mldsa_subj_key_pair.key_pair_seed == KEY_ID_LDEVID_MLDSA_KEYPAIR_SEED,
            r.mldsa_subj_key_pair.pub_key@ == self.mldsa_pub_key@,
            r.mldsa_subj_sn@ == self.mldsa_sn@,
            r.mldsa_subj_key_id@ == self.mldsa_key_id@,
    {
        DiceOutput {
            ecc_subj_key_pair: EccKeyPair {
                priv_key: KEY_ID_LDEVID_ECDSA_PRIV_KEY,
                pub_key: copy_all(self.ecc_pub_key.as_slice()),
            },
            ecc_subj_sn: copy_all(self.ecc_sn.as_slice()),
            ecc_subj_key_id: copy_all(self.ecc_key_id.as_slice()),
            mldsa_subj_key_pair: MldsaKeyPair {
                key_pair_seed: KEY_ID_LDEVID_MLDSA_KEYPAIR_SEED,
                pub_key: copy_all(self.mldsa_pub_key.as_slice()),
            },
            mldsa_subj_sn: copy_all(self.mldsa_sn.as_slice()),
            mldsa_subj_key_id: copy_all(self.mldsa_key_id.as_slice()),
        }
    }
}

/// Once a derivation is over, whether it succeeded or failed partway, the
/// erasure of the precursor secret has been requested, and on success it was
/// confirmed. Likewise, once signing started, the erasure of the authority
/// key has been requested, and on success confirmed; no copy of the
/// signature is left in memory.
pub proof fn secrets_erased_when_done(l: &LocalDevIdLayer)
    requires
        l.wf(),
        l.phase == DicePhase::Done,
    ensures
        l.fe_erase_issued,
        l.sign_issued ==> l.auth_erase_issued,
        l.outcome is Ok ==> l.fe_erased && l.auth_erased,
        all_zero(l.signature@),
{
}

/// A derivation only completes with success after the certificate
/// signature verified under the authority public key.
pub proof fn signature_self_verified_on_success(l: &LocalDevIdLayer)
    requires
        l.wf(),
        l.phase == DicePhase::Done,
        l.outcome is Ok,
    ensures
        l.sign_issued,
        l.sig_verified,
{
}

/// Key derivation is repeatable: any two derivations, whatever their inputs,
/// request the ECC key pair from the same CDI slot, with the same label, into
/// the same slot, so the same CDI yields the same ECC public key.
pub proof fn ecc_key_requests_agree(
    l1: &LocalDevIdLayer,
    n1: &LocalDevIdLayer,
    a1: &DiceAction,
    l2: &LocalDevIdLayer,
    n2: &LocalDevIdLayer,
    a2: &DiceAction,
)
    requires
        l1.phase == DicePhase::EraseFe,
        l2.phase == DicePhase::EraseFe,
        l1.transition(&Event::Done(Ok(())), n1, a1),
        l2.transition(&Event::Done(Ok(())), n2, a2),
    ensures
        *a1 is EccKeyGen && *a2 is EccKeyGen,
        a1->EccKeyGen_seed == a2->EccKeyGen_seed == KEY_ID_ROM_FMC_CDI,
        a1->EccKeyGen_label@ == a2->EccKeyGen_label@,
        a1->EccKeyGen_priv_key == a2->EccKeyGen_priv_key,
{
}

/// Likewise for the ML-DSA key pair, requested once the ECC public key came
/// back.
pub proof fn mldsa_key_requests_agree(
    l1: &LocalDevIdLayer,
    n1: &LocalDevIdLayer,
    a1: &DiceAction,
    l2: &LocalDevIdLayer,
    n2: &LocalDevIdLayer,
    a2: &DiceAction,
    ev1: &Event,
    ev2: &Event,
)
    requires
        l1.phase == DicePhase::EccKeyGen,
        l2.phase == DicePhase::EccKeyGen,
        *ev1 is Bytes && ev1->Bytes_0 is Ok && ev1->Bytes_0->Ok_0@.len() == ECC_PUB_KEY_SIZE,
        *ev2 is Bytes && ev2->Bytes_0 is Ok && ev2->Bytes_0->Ok_0@.len() == ECC_PUB_KEY_SIZE,
        l1.transition(ev1, n1, a1),
        l2.transition(ev2, n2, a2),
    ensures
        *a1 is MldsaKeyGen && *a2 is MldsaKeyGen,
        a1->MldsaKeyGen_seed == a2->MldsaKeyGen_seed == KEY_ID_ROM_FMC_CDI,
        a1->MldsaKeyGen_label@ == a2->MldsaKeyGen_label@,
        a1->MldsaKeyGen_key_pair_seed == a2->MldsaKeyGen_key_pair_seed,
{
}

/// Along a successful derivation the authority key, the generated public
/// keys, the to-be-signed bytes, their digest and the verified signature are
/// carried unchanged from the step that obtained them to the steps that sign,
/// store and copy them.
pub proof fn signed_material_is_kept(
    l: &LocalDevIdLayer,
    ev: &Event,
    n: &LocalDevIdLayer,
    a: &DiceAction,
)
    requires
        l.transition(ev, n, a),
        n.outcome is Ok,
    ensures
        n.auth_priv_key == l.auth_priv_key,
        n.auth_pub_key == l.auth_pub_key,
        n.auth_sn == l.auth_sn && n.auth_key_id == l.auth_key_id,
        n.ueid == l.ueid && n.fuse_key_id == l.fuse_key_id,
        l.phase != DicePhase::EccKeyGen ==> n.ecc_pub_key == l.ecc_pub_key,
        l.phase != DicePhase::MldsaKeyGen ==> n.mldsa_pub_key == l.mldsa_pub_key,
        l.phase != DicePhase::EccSerial ==> n.ecc_sn == l.ecc_sn && n.cert_sn == l.cert_sn,
        l.phase != DicePhase::Tbs ==> n.tbs == l.tbs,
        l.phase != DicePhase::TbsDigest ==> n.tbs_digest == l.tbs_digest,
        l.phase != DicePhase::Sign && l.phase != DicePhase::StoreSignature ==> n.signature
            == l.signature,
{
}

} // verus!
