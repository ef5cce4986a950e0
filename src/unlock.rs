use vstd::prelude::*;

use crate::bytes::{be24, copy_all, copy_range, push_all, push_zeros, zeros};
use crate::cfi::{cfi_branch, secure_eq};
use crate::error::RomError;
use crate::mailbox::{
    encode_challenge, parse_manuf_request, parse_request, parse_token, success_header,
    ProdUnlockToken, CHALLENGE_SIZE, MANUF_DEBUG_UNLOCK_REQ_TOKEN, MANUF_TOKEN_SIZE,
    PRODUCTION_AUTH_DEBUG_UNLOCK_REQ, PRODUCTION_AUTH_DEBUG_UNLOCK_TOKEN, RESP_HEADER_SIZE,
    UEID_SIZE,
};
use crate::platform::{Event, Lifecycle};

verus! {

/// Size of the nonce mixed into the manufacturing token digests.
pub const NONCE_SIZE: usize = 32;

/// Where a debug-unlock exchange stands.
#[derive(Clone, Copy, Debug, PartialEq, Eq, Structural)]
pub enum UnlockPhase {
    ManufAwaitCommand,
    ManufReadRequest,
    ManufMarkInProgress,
    ManufAwaitNonce,
    ManufAwaitInputDigest,
    ManufAwaitFuseDigest,
    ProdAwaitRequestCommand,
    ProdReadRequest,
    ProdAwaitChallenge,
    ProdSendChallenge,
    ProdAwaitTokenCommand,
    ProdReadToken,
    ProdMarkInProgress,
    ProdAwaitKeyHash,
    ProdAwaitKeyDigest,
    ProdAwaitEccDigest,
    ProdAwaitEccVerdict,
    ProdAwaitMldsaDigest,
    ProdAwaitMldsaVerdict,
    /// The decision is being written to the debug-enable latch.
    Committing,
    /// The success header is being sent.
    Responding,
    /// The exchange is over; `outcome` holds its result.
    Done,
}

/// What the debug-unlock flow asks its collaborators to do next.
pub enum UnlockAction {
    /// Wait a random delay, then peek the mailbox; answer `Event::Mailbox`.
    PollMailbox,
    /// Start the pending transaction and read its checksum-verified payload;
    /// answer `Event::Bytes`.
    ReadPayload,
    /// Set the unlock-in-progress status bit; answer `Event::Done`.
    MarkInProgress,
    /// Draw 48 bytes from the true random number generator; answer `Event::Bytes`.
    GenerateRandom,
    /// SHA-384 of the bytes; answer `Event::Bytes`.
    Sha384(Vec<u8>),
    /// SHA-512 of the bytes; answer `Event::Bytes`.
    Sha512(Vec<u8>),
    /// Send the bytes as the response of the current transaction and release
    /// it; answer `Event::Done`.
    SendResponse(Vec<u8>),
    /// Read through DMA the authorized debug public-key hash for the
    /// category; answer `Event::Bytes`.
    ReadAuthorizedKeyHash(u32),
    /// Verify an ECC-384 signature over a digest; answer `Event::Verified`.
    EccVerify { public_key: Vec<u8>, digest: Vec<u8>, signature: Vec<u8> },
    /// Verify an ML-DSA-87 signature over a digest; answer `Event::Verified`.
    MldsaVerify { public_key: Vec<u8>, digest: Vec<u8>, signature: Vec<u8> },
    /// Clear the unlock-in-progress bit and set the debug-enable latch and the
    /// finished status to the value; answer `Event::Done`.
    Commit(bool),
    /// The flow is over with this result.
    Complete(Result<(), RomError>),
}

/// The 64-byte block hashed for a manufacturing token: eight zero bytes, the
/// token, eight zero bytes, the nonce.
pub open spec fn token_block(token: Seq<u8>, nonce: Seq<u8>) -> Seq<u8> {
    zeros(8) + token + zeros(8) + nonce
}

/// Builds the block hashed for a manufacturing token.
pub fn build_token_block(token: &[u8], nonce: &[u8]) -> (r: Vec<u8>)
    ensures
        r@ == token_block(token@, nonce@),
{
    let mut r: Vec<u8> = Vec::new();
    push_zeros(&mut r, 8);
    push_all(&mut r, token);
    push_zeros(&mut r, 8);
    push_all(&mut r, nonce);
    r
}

/// The phases after the unlock-in-progress bit was requested, up to the
/// decision.
pub open spec fn in_progress(p: UnlockPhase) -> bool {
    match p {
        UnlockPhase::ManufMarkInProgress
        | UnlockPhase::ManufAwaitNonce
        | UnlockPhase::ManufAwaitInputDigest
        | UnlockPhase::ManufAwaitFuseDigest
        | UnlockPhase::ProdMarkInProgress
        | UnlockPhase::ProdAwaitKeyHash
        | UnlockPhase::ProdAwaitKeyDigest
        | UnlockPhase::ProdAwaitEccDigest
        | UnlockPhase::ProdAwaitEccVerdict
        | UnlockPhase::ProdAwaitMldsaDigest
        | UnlockPhase::ProdAwaitMldsaVerdict => true,
        _ => false,
    }
}

/// Phases in which a failure commits the latch closed before the flow ends:
/// once the production challenge has been sent, and once the in-progress bit
/// has been requested.
pub open spec fn closes_on_failure(p: UnlockPhase) -> bool {
    in_progress(p) || p == UnlockPhase::ProdAwaitTokenCommand || p == UnlockPhase::ProdReadToken
}

pub open spec fn manuf_phase(p: UnlockPhase) -> bool {
    match p {
        UnlockPhase::ManufAwaitCommand
        | UnlockPhase::ManufReadRequest
        | UnlockPhase::ManufMarkInProgress
        | UnlockPhase::ManufAwaitNonce
        | UnlockPhase::ManufAwaitInputDigest
        | UnlockPhase::ManufAwaitFuseDigest => true,
        _ => false,
    }
}

/// Production phases in which the request has been accepted.
pub open spec fn prod_request_known(p: UnlockPhase) -> bool {
    match p {
        UnlockPhase::ProdAwaitChallenge
        | UnlockPhase::ProdSendChallenge
        | UnlockPhase::ProdAwaitTokenCommand
        | UnlockPhase::ProdReadToken => true,
        _ => prod_token_known(p),
    }
}

/// Production phases in which the token has been accepted.
pub open spec fn prod_token_known(p: UnlockPhase) -> bool {
    match p {
        UnlockPhase::ProdMarkInProgress
        | UnlockPhase::ProdAwaitKeyHash
        | UnlockPhase::ProdAwaitKeyDigest => true,
        _ => prod_keys_authorized(p),
    }
}

/// Production phases in which the public keys have matched the fuse hash.
pub open spec fn prod_keys_authorized(p: UnlockPhase) -> bool {
    match p {
        UnlockPhase::ProdAwaitEccDigest | UnlockPhase::ProdAwaitEccVerdict => true,
        _ => prod_ecc_verified(p),
    }
}

/// Production phases in which the classical signature has verified.
pub open spec fn prod_ecc_verified(p: UnlockPhase) -> bool {
    match p {
        UnlockPhase::ProdAwaitMldsaDigest | UnlockPhase::ProdAwaitMldsaVerdict => true,
        _ => false,
    }
}

pub open spec fn prod_phase(p: UnlockPhase) -> bool {
    match p {
        UnlockPhase::ProdAwaitRequestCommand | UnlockPhase::ProdReadRequest => true,
        _ => prod_request_known(p),
    }
}

/// State of one debug-unlock exchange.
pub struct DebugUnlockFlow {
    pub lifecycle: Lifecycle,
    pub phase: UnlockPhase,
    /// Manufacturing unlock token held in fuses.
    pub fuse_token: Vec<u8>,
    /// Unique device identifier held in fuses.
    pub ueid: Vec<u8>,
    /// Manufacturing: the token of the request.
    pub token: Vec<u8>,
    /// Manufacturing: the nonce of this exchange.
    pub nonce: Vec<u8>,
    /// Manufacturing: digest of the request token block.
    pub input_digest: Vec<u8>,
    /// Manufacturing: digest of the fuse token block.
    pub fuse_digest: Vec<u8>,
    /// Production: vendor id of the request.
    pub vendor_id: Vec<u8>,
    /// Production: object type of the request.
    pub object_data_type: u8,
    /// Production: the requested category.
    pub category: u32,
    /// Production: the challenge issued in this exchange.
    pub challenge: Vec<u8>,
    /// Production: the accepted token.
    pub unlock_token: Option<ProdUnlockToken>,
    /// Production: the authorized key hash read from the fuse-derived address.
    pub key_hash: Vec<u8>,
    /// Production: the digest of the token's public keys.
    pub key_digest: Vec<u8>,
    /// Production: the classical signature verified.
    pub ecc_verified: bool,
    /// Production: the post-quantum signature verified.
    pub mldsa_verified: bool,
    /// The decision committed to the debug-enable latch.
    pub unlocked: bool,
    pub outcome: Result<(), RomError>,
}

impl DebugUnlockFlow {
    /// The accepted production token matches the exchange.
    pub open spec fn token_matches(&self) -> bool {
        &&& self.unlock_token is Some
        &&& self.unlock_token->Some_0.unlock_category@.len() == 3
        &&& be24(self.unlock_token->Some_0.unlock_category@, 0) == self.category
        &&& self.unlock_token->Some_0.challenge@ == self.challenge@
    }

    /// Everything that unlocking requires has been established.
    pub open spec fn authorized(&self) -> bool {
        match self.lifecycle {
            Lifecycle::Manufacturing => self.input_digest@ == self.fuse_digest@,
            Lifecycle::Production => {
                &&& self.token_matches()
                &&& self.key_digest@ == self.key_hash@
                &&& self.ecc_verified
                &&& self.mldsa_verified
            },
            _ => false,
        }
    }

    pub open spec fn wf(&self) -> bool {
        &&& self.fuse_token@.len() == MANUF_TOKEN_SIZE
        &&& self.ueid@.len() == UEID_SIZE
        &&& manuf_phase(self.phase) ==> self.lifecycle == Lifecycle::Manufacturing
        &&& prod_phase(self.phase) ==> self.lifecycle == Lifecycle::Production
        &&& prod_request_known(self.phase) ==> self.vendor_id@.len() == 2 && self.category <= 0xf
        &&& self.phase == UnlockPhase::ProdSendChallenge || self.phase
            == UnlockPhase::ProdAwaitTokenCommand || self.phase == UnlockPhase::ProdReadToken
            ==> self.challenge@.len() == CHALLENGE_SIZE
        &&& prod_token_known(self.phase) ==> self.token_matches()
        &&& prod_keys_authorized(self.phase) ==> self.key_digest@ == self.key_hash@
        &&& prod_ecc_verified(self.phase) ==> self.ecc_verified
        &&& self.unlocked ==> self.authorized()
        &&& self.unlocked ==> !manuf_phase(self.phase) && !prod_phase(self.phase)
        &&& (self.phase == UnlockPhase::Committing || self.phase == UnlockPhase::Responding)
            && self.outcome is Ok ==> self.unlocked
        &&& self.phase == UnlockPhase::Responding ==> self.outcome is Ok
    }

    /// The exchange fails with `e`: before the production challenge was sent
    /// or the in-progress bit requested, the flow ends at once; after that,
    /// the latch is first committed closed.
    pub open spec fn fails_with(&self, new: &Self, act: &UnlockAction, e: RomError) -> bool {
        &&& new.outcome == Err::<(), RomError>(e)
        &&& !new.unlocked
        &&& if closes_on_failure(self.phase) {
            new.phase == UnlockPhase::Committing && *act == UnlockAction::Commit(false)
        } else {
            new.phase == UnlockPhase::Done && *act == UnlockAction::Complete(Err(e))
        }
    }

    /// The exchange grants the unlock.
    pub open spec fn grants(&self, new: &Self, act: &UnlockAction) -> bool {
        &&& new.phase == UnlockPhase::Committing
        &&& new.outcome is Ok
        &&& new.unlocked
        &&& *act == UnlockAction::Commit(true)
    }

    /// Moves to phase `p` with an action that carries no data.
    pub open spec fn moves(&self, new: &Self, act: &UnlockAction, p: UnlockPhase, a: UnlockAction) -> bool {
        new.phase == p && *act == a && !new.unlocked
    }

    /// Each recorded value changes only in the phase that records it: the
    /// fuse values never; the others when their answer comes back.
    pub open spec fn keeps_record(&self, new: &Self) -> bool {
        let p = self.phase;
        *new == (DebugUnlockFlow {
            phase: new.phase,
            unlocked: new.unlocked,
            outcome: new.outcome,
            token: if p == UnlockPhase::ManufReadRequest { new.token } else { self.token },
            nonce: if p == UnlockPhase::ManufAwaitNonce { new.nonce } else { self.nonce },
            input_digest: if p == UnlockPhase::ManufAwaitInputDigest {
                new.input_digest
            } else {
                self.input_digest
            },
            fuse_digest: if p == UnlockPhase::ManufAwaitFuseDigest {
                new.fuse_digest
            } else {
                self.fuse_digest
            },
            vendor_id: if p == UnlockPhase::ProdReadRequest { new.vendor_id } else { self.vendor_id },
            object_data_type: if p == UnlockPhase::ProdReadRequest {
                new.object_data_type
            } else {
                self.object_data_type
            },
            category: if p == UnlockPhase::ProdReadRequest { new.category } else { self.category },
            challenge: if p == UnlockPhase::ProdAwaitChallenge { new.challenge } else { self.challenge },
            unlock_token: if p == UnlockPhase::ProdReadToken {
                new.unlock_token
            } else {
                self.unlock_token
            },
            key_hash: if p == UnlockPhase::ProdAwaitKeyHash { new.key_hash } else { self.key_hash },
            key_digest: if p == UnlockPhase::ProdAwaitKeyDigest {
                new.key_digest
            } else {
                self.key_digest
            },
            ecc_verified: if p == UnlockPhase::ProdAwaitEccVerdict {
                new.ecc_verified
            } else {
                self.ecc_verified
            },
            mldsa_verified: if p == UnlockPhase::ProdAwaitMldsaVerdict {
                new.mldsa_verified
            } else {
                self.mldsa_verified
            },
            ..*self
        })
    }

    /// How one event moves the exchange and which action follows.
    pub open spec fn transition(&self, ev: &Event, new: &Self, act: &UnlockAction) -> bool {
        &&& self.keeps_record(new)
        &&& self.step_outcome(ev, new, act)
    }

    /// The phase, decision and action that one event leads to.
    pub open spec fn step_outcome(&self, ev: &Event, new: &Self, act: &UnlockAction) -> bool {
        match self.phase {
            UnlockPhase::ManufAwaitCommand => match ev {
                Event::Mailbox(None) => self.moves(new, act, self.phase, UnlockAction::PollMailbox),
                Event::Mailbox(Some(c)) => if *c == MANUF_DEBUG_UNLOCK_REQ_TOKEN {
                    self.moves(new, act, UnlockPhase::ManufReadRequest, UnlockAction::ReadPayload)
                } else {
                    self.fails_with(new, act, RomError::DbgUnlockManufInvalidMboxCmd)
                },
                _ => self.fails_with(new, act, RomError::UnexpectedEvent),
            },
            UnlockPhase::ManufReadRequest => match ev {
                Event::Bytes(Ok(b)) => if b@.len() == 20 {
                    &&& self.moves(new, act, UnlockPhase::ManufMarkInProgress, UnlockAction::MarkInProgress)
                    &&& new.token@ == b@.subrange(4, 20)
                } else {
                    self.fails_with(new, act, RomError::MailboxPayloadSize)
                },
                Event::Bytes(Err(c)) => self.fails_with(new, act, RomError::Driver(*c)),
                _ => self.fails_with(new, act, RomError::UnexpectedEvent),
            },
            UnlockPhase::ManufMarkInProgress => match ev {
                Event::Done(Ok(())) => {
                    &&& self.moves(new, act, UnlockPhase::ManufAwaitNonce, UnlockAction::GenerateRandom)
                    &&& new.token@ == self.token@
                },
                Event::Done(Err(c)) => self.fails_with(new, act, RomError::Driver(*c)),
                _ => self.fails_with(new, act, RomError::UnexpectedEvent),
            },
            UnlockPhase::ManufAwaitNonce => match ev {
                Event::Bytes(Ok(r)) => if r@.len() >= NONCE_SIZE {
                    &&& new.phase == UnlockPhase::ManufAwaitInputDigest
                    &&& !new.unlocked
                    &&& new.nonce@ == r@.subrange(0, 32)
                    &&& *act is Sha512
                    &&& act->Sha512_0@ == token_block(self.token@, new.nonce@)
                } else {
                    self.fails_with(new, act, RomError::UnexpectedLength)
                },
                Event::Bytes(Err(c)) => self.fails_with(new, act, RomError::Driver(*c)),
                _ => self.fails_with(new, act, RomError::UnexpectedEvent),
            },
            UnlockPhase::ManufAwaitInputDigest => match ev {
                Event::Bytes(Ok(d)) => {
                    &&& new.phase == UnlockPhase::ManufAwaitFuseDigest
                    &&& !new.unlocked
                    &&& new.input_digest@ == d@
                    &&& *act is Sha512
                    &&& act->Sha512_0@ == token_block(self.fuse_token@, self.nonce@)
                },
                Event::Bytes(Err(c)) => self.fails_with(new, act, RomError::Driver(*c)),
                _ => self.fails_with(new, act, RomError::UnexpectedEvent),
            },
            UnlockPhase::ManufAwaitFuseDigest => match ev {
                Event::Bytes(Ok(d)) => if d@ == self.input_digest@ {
                    self.grants(new, act)
                } else {
                    self.fails_with(new, act, RomError::DbgUnlockManufInvalidToken)
                },
                Event::Bytes(Err(c)) => self.fails_with(new, act, RomError::Driver(*c)),
                _ => self.fails_with(new, act, RomError::UnexpectedEvent),
            },
            UnlockPhase::ProdAwaitRequestCommand => match ev {
                Event::Mailbox(None) => self.moves(new, act, self.phase, UnlockAction::PollMailbox),
                Event::Mailbox(Some(c)) => if *c == PRODUCTION_AUTH_DEBUG_UNLOCK_REQ {
                    self.moves(new, act, UnlockPhase::ProdReadRequest, UnlockAction::ReadPayload)
                } else {
                    self.fails_with(new, act, RomError::DbgUnlockProdInvalidReqMboxCmd)
                },
                _ => self.fails_with(new, act, RomError::UnexpectedEvent),
            },
            UnlockPhase::ProdReadRequest => match ev {
                Event::Bytes(Ok(b)) => if b@.len() != 16 {
                    self.fails_with(new, act, RomError::MailboxPayloadSize)
                } else if !crate::mailbox::request_fields_valid(b@) {
                    self.fails_with(new, act, RomError::DbgUnlockProdInvalidReq)
                } else {
                    &&& self.moves(new, act, UnlockPhase::ProdAwaitChallenge, UnlockAction::GenerateRandom)
                    &&& new.vendor_id@ == b@.subrange(4, 6)
                    &&& new.object_data_type == b@[6]
                    &&& new.category == be24(b@, 12)
                },
                Event::Bytes(Err(c)) => self.fails_with(new, act, RomError::Driver(*c)),
                _ => self.fails_with(new, act, RomError::UnexpectedEvent),
            },
            UnlockPhase::ProdAwaitChallenge => match ev {
                Event::Bytes(Ok(r)) => if r@.len() == CHALLENGE_SIZE {
                    &&& new.phase == UnlockPhase::ProdSendChallenge
                    &&& !new.unlocked
                    &&& new.challenge@ == r@
                    &&& new.category == self.category
                    &&& *act is SendResponse
                    &&& act->SendResponse_0@ == crate::mailbox::challenge_record(
                        self.vendor_id@,
                        self.object_data_type,
                        self.ueid@,
                        r@,
                    )
                } else {
                    self.fails_with(new, act, RomError::UnexpectedLength)
                },
                Event::Bytes(Err(c)) => self.fails_with(new, act, RomError::Driver(*c)),
                _ => self.fails_with(new, act, RomError::UnexpectedEvent),
            },
            UnlockPhase::ProdSendChallenge => match ev {
                Event::Done(Ok(())) => {
                    &&& self.moves(new, act, UnlockPhase::ProdAwaitTokenCommand, UnlockAction::PollMailbox)
                    &&& new.challenge@ == self.challenge@
                    &&& new.category == self.category
                },
                Event::Done(Err(c)) => self.fails_with(new, act, RomError::Driver(*c)),
                _ => self.fails_with(new, act, RomError::UnexpectedEvent),
            },
            UnlockPhase::ProdAwaitTokenCommand => match ev {
                Event::Mailbox(None) => {
                    &&& self.moves(new, act, self.phase, UnlockAction::PollMailbox)
                    &&& new.challenge@ == self.challenge@
                    &&& new.category == self.category
                },
                Event::Mailbox(Some(c)) => if *c == PRODUCTION_AUTH_DEBUG_UNLOCK_TOKEN {
                    &&& self.moves(new, act, UnlockPhase::ProdReadToken, UnlockAction::ReadPayload)
                    &&& new.challenge@ == self.challenge@
                    &&& new.category == self.category
                } else {
                    self.fails_with(new, act, RomError::DbgUnlockProdInvalidTokenMboxCmd)
                },
                _ => self.fails_with(new, act, RomError::UnexpectedEvent),
            },
            UnlockPhase::ProdReadToken => match ev {
                Event::Bytes(Ok(b)) => if b@.len() != 7504 {
                    self.fails_with(new, act, RomError::MailboxPayloadSize)
                } else if !crate::mailbox::token_fields_valid(
                    b@,
                    self.category as int,
                    self.challenge@,
                ) {
                    self.fails_with(new, act, RomError::DbgUnlockProdInvalidToken)
                } else {
                    &&& self.moves(new, act, UnlockPhase::ProdMarkInProgress, UnlockAction::MarkInProgress)
                    &&& new.unlock_token is Some
                    &&& new.unlock_token->Some_0.holds_fields_of(b@)
                    &&& new.category == self.category
                },
                Event::Bytes(Err(c)) => self.fails_with(new, act, RomError::Driver(*c)),
                _ => self.fails_with(new, act, RomError::UnexpectedEvent),
            },
            UnlockPhase::ProdMarkInProgress => match ev {
                Event::Done(Ok(())) => self.moves(
                    new,
                    act,
                    UnlockPhase::ProdAwaitKeyHash,
                    UnlockAction::ReadAuthorizedKeyHash(self.category),
                ),
                Event::Done(Err(c)) => self.fails_with(new, act, RomError::Driver(*c)),
                _ => self.fails_with(new, act, RomError::UnexpectedEvent),
            },
            UnlockPhase::ProdAwaitKeyHash => match ev {
                Event::Bytes(Ok(h)) => {
                    &&& new.phase == UnlockPhase::ProdAwaitKeyDigest
                    &&& !new.unlocked
                    &&& new.key_hash@ == h@
                    &&& *act is Sha512
                    &&& act->Sha512_0@ == self.unlock_token->Some_0.public_keys()
                },
                Event::Bytes(Err(c)) => self.fails_with(new, act, RomError::Driver(*c)),
                _ => self.fails_with(new, act, RomError::UnexpectedEvent),
            },
            UnlockPhase::ProdAwaitKeyDigest => match ev {
                Event::Bytes(Ok(d)) => if d@ == self.key_hash@ {
                    &&& new.phase == UnlockPhase::ProdAwaitEccDigest
                    &&& !new.unlocked
                    &&& new.key_digest@ == d@
                    &&& *act is Sha384
                    &&& act->Sha384_0@ == self.unlock_token->Some_0.signed_message()
                } else {
                    self.fails_with(new, act, RomError::DbgUnlockProdInvalidToken)
                },
                Event::Bytes(Err(c)) => self.fails_with(new, act, RomError::Driver(*c)),
                _ => self.fails_with(new, act, RomError::UnexpectedEvent),
            },
            UnlockPhase::ProdAwaitEccDigest => match ev {
                Event::Bytes(Ok(d)) => {
                    &&& new.phase == UnlockPhase::ProdAwaitEccVerdict
                    &&& !new.unlocked
                    &&& *act is EccVerify
                    &&& act->EccVerify_public_key@ == self.unlock_token->Some_0.ecc_public_key@
                    &&& act->EccVerify_digest@ == d@
                    &&& act->EccVerify_signature@ == self.unlock_token->Some_0.ecc_signature@
                },
                Event::Bytes(Err(c)) => self.fails_with(new, act, RomError::Driver(*c)),
                _ => self.fails_with(new, act, RomError::UnexpectedEvent),
            },
            UnlockPhase::ProdAwaitEccVerdict => match ev {
                Event::Verified(Ok(true)) => {
                    &&& new.phase == UnlockPhase::ProdAwaitMldsaDigest
                    &&& !new.unlocked
                    &&& *act is Sha512
                    &&& act->Sha512_0@ == self.unlock_token->Some_0.signed_message()
                },
                Event::Verified(Ok(false)) => self.fails_with(
                    new,
                    act,
                    RomError::DbgUnlockProdEccSignatureInvalid,
                ),
                Event::Verified(Err(c)) => self.fails_with(new, act, RomError::Driver(*c)),
                _ => self.fails_with(new, act, RomError::UnexpectedEvent),
            },
            UnlockPhase::ProdAwaitMldsaDigest => match ev {
                Event::Bytes(Ok(d)) => {
                    &&& new.phase == UnlockPhase::ProdAwaitMldsaVerdict
                    &&& !new.unlocked
                    &&& *act is MldsaVerify
                    &&& act->MldsaVerify_public_key@ == self.unlock_token->Some_0.mldsa_public_key@
                    &&& act->MldsaVerify_digest@ == d@
                    &&& act->MldsaVerify_signature@ == self.unlock_token->Some_0.mldsa_signature@
                },
                Event::Bytes(Err(c)) => self.fails_with(new, act, RomError::Driver(*c)),
                _ => self.fails_with(new, act, RomError::UnexpectedEvent),
            },
            UnlockPhase::ProdAwaitMldsaVerdict => match ev {
                Event::Verified(Ok(true)) => self.grants(new, act),
                Event::Verified(Ok(false)) => self.fails_with(
                    new,
                    act,
                    RomError::DbgUnlockProdMldsaSignatureInvalid,
                ),
                Event::Verified(Err(c)) => self.fails_with(new, act, RomError::Driver(*c)),
                _ => self.fails_with(new, act, RomError::UnexpectedEvent),
            },
            UnlockPhase::Committing => {
                &&& new.unlocked == self.unlocked
                &&& new.outcome == self.outcome
                &&& if self.outcome is Ok {
                    &&& new.phase == UnlockPhase::Responding
                    &&& *act is SendResponse
                    &&& act->SendResponse_0@ == zeros(RESP_HEADER_SIZE as nat)
                } else {
                    new.phase == UnlockPhase::Done && *act == UnlockAction::Complete(self.outcome)
                }
            },
            UnlockPhase::Responding => {
                let result = match ev {
                    Event::Done(Ok(())) => Ok(()),
                    Event::Done(Err(c)) => Err(RomError::Driver(*c)),
                    _ => Err(RomError::UnexpectedEvent),
                };
                &&& new.phase == UnlockPhase::Done
                &&& new.unlocked == self.unlocked
                &&& new.outcome == result
                &&& *act == UnlockAction::Complete(result)
            },
            UnlockPhase::Done => {
                &&& new.phase == UnlockPhase::Done
                &&& new.unlocked == self.unlocked
                &&& new.outcome == self.outcome
                &&& *act == UnlockAction::Complete(self.outcome)
            },
        }
    }
}


fn phase_closes_on_failure(p: UnlockPhase) -> (r: bool)
    ensures
        r == closes_on_failure(p),
{
    match p {
        UnlockPhase::ProdAwaitTokenCommand | UnlockPhase::ProdReadToken => true,
        _ => phase_in_progress(p),
    }
}

fn phase_in_progress(p: UnlockPhase) -> (r: bool)
    ensures
        r == in_progress(p),
{
    match p {
        UnlockPhase::ManufMarkInProgress
        | UnlockPhase::ManufAwaitNonce
        | UnlockPhase::ManufAwaitInputDigest
        | UnlockPhase::ManufAwaitFuseDigest
        | UnlockPhase::ProdMarkInProgress
        | UnlockPhase::ProdAwaitKeyHash
        | UnlockPhase::ProdAwaitKeyDigest
        | UnlockPhase::ProdAwaitEccDigest
        | UnlockPhase::ProdAwaitEccVerdict
        | UnlockPhase::ProdAwaitMldsaDigest
        | UnlockPhase::ProdAwaitMldsaVerdict => true,
        _ => false,
    }
}

fn phase_is_manuf(p: UnlockPhase) -> (r: bool)
    ensures
        r == manuf_phase(p),
{
    match p {
        UnlockPhase::ManufAwaitCommand
        | UnlockPhase::ManufReadRequest
        | UnlockPhase::ManufMarkInProgress
        | UnlockPhase::ManufAwaitNonce
        | UnlockPhase::ManufAwaitInputDigest
        | UnlockPhase::ManufAwaitFuseDigest => true,
        _ => false,
    }
}

fn phase_is_prod(p: UnlockPhase) -> (r: bool)
    ensures
        r == prod_phase(p),
{
    match p {
        UnlockPhase::ManufAwaitCommand
        | UnlockPhase::ManufReadRequest
        | UnlockPhase::ManufMarkInProgress
        | UnlockPhase::ManufAwaitNonce
        | UnlockPhase::ManufAwaitInputDigest
        | UnlockPhase::ManufAwaitFuseDigest
        | UnlockPhase::Committing
        | UnlockPhase::Responding
        | UnlockPhase::Done => false,
        _ => true,
    }
}

impl DebugUnlockFlow {
    /// Starts the debug-unlock flow of this boot.
    ///
    /// Without a pending unlock request, or in a lifecycle state other than
    /// manufacturing or production, there is nothing to do and the flow is
    /// complete with success. Otherwise the first action polls the mailbox.
    pub fn debug_unlock(requested: bool, lifecycle: Lifecycle, fuse_token: &[u8], ueid: &[u8]) -> (r: (
        DebugUnlockFlow,
        UnlockAction,
    ))
        requires
            fuse_token@.len() == MANUF_TOKEN_SIZE,
            ueid@.len() == UEID_SIZE,
        ensures
            r.0.wf(),
            !r.0.unlocked,
            r.0.lifecycle == lifecycle,
            r.0.fuse_token@ == fuse_token@,
            r.0.ueid@ == ueid@,
            requested && lifecycle == Lifecycle::Manufacturing ==> r.0.phase
                == UnlockPhase::ManufAwaitCommand && r.1 == UnlockAction::PollMailbox,
            requested && lifecycle == Lifecycle::Production ==> r.0.phase
                == UnlockPhase::ProdAwaitRequestCommand && r.1 == UnlockAction::PollMailbox,
            !requested || (lifecycle != Lifecycle::Manufacturing && lifecycle
                != Lifecycle::Production) ==> r.0.phase == UnlockPhase::Done && r.0.outcome
                == Ok::<(), RomError>(()) && r.1 == UnlockAction::Complete(Ok(())),
    {
        let phase = if !requested {
            UnlockPhase::Done
        } else {
            match lifecycle {
                Lifecycle::Manufacturing => UnlockPhase::ManufAwaitCommand,
                Lifecycle::Production => UnlockPhase::ProdAwaitRequestCommand,
                _ => UnlockPhase::Done,
            }
        };
        let action = match phase {
            UnlockPhase::Done => UnlockAction::Complete(Ok(())),
            _ => UnlockAction::PollMailbox,
        };
        let flow = DebugUnlockFlow {
            lifecycle,
            phase,
            fuse_token: copy_all(fuse_token),
            ueid: copy_all(ueid),
            token: Vec::new(),
            nonce: Vec::new(),
            input_digest: Vec::new(),
            fuse_digest: Vec::new(),
            vendor_id: Vec::new(),
            object_data_type: 0,
            category: 0,
            challenge: Vec::new(),
            unlock_token: None,
            key_hash: Vec::new(),
            key_digest: Vec::new(),
            ecc_verified: false,
            mldsa_verified: false,
            unlocked: false,
            outcome: Ok(()),
        };
        (flow, action)
    }

    /// Ends the exchange with `e`, committing the latch closed first when the
    /// in-progress bit has been requested.
    fn fail(&mut self, e: RomError) -> (r: UnlockAction)
        ensures
            old(self).fails_with(final(self), &r, e),
            *final(self) == (DebugUnlockFlow {
                phase: final(self).phase,
                outcome: Err(e),
                unlocked: false,
                ..*old(self)
            }),
    {
        self.outcome = Err(e);
        self.unlocked = false;
        if phase_closes_on_failure(self.phase) {
            self.phase = UnlockPhase::Committing;
            UnlockAction::Commit(false)
        } else {
            self.phase = UnlockPhase::Done;
            UnlockAction::Complete(Err(e))
        }
    }

    /// One step of the manufacturing exchange.
    fn step_manuf(&mut self, ev: Event) -> (r: UnlockAction)
        requires
            old(self).wf(),
            manuf_phase(old(self).phase),
        ensures
            final(self).wf(),
            old(self).transition(&ev, final(self), &r),
            final(self).lifecycle == old(self).lifecycle,
            final(self).fuse_token@ == old(self).fuse_token@,
            final(self).ueid@ == old(self).ueid@,
    {
        match self.phase {
            UnlockPhase::ManufAwaitCommand => match ev {
                Event::Mailbox(None) => UnlockAction::PollMailbox,
                Event::Mailbox(Some(c)) => {
                    if c == MANUF_DEBUG_UNLOCK_REQ_TOKEN {
                        self.phase = UnlockPhase::ManufReadRequest;
                        UnlockAction::ReadPayload
                    } else {
                        self.fail(RomError::DbgUnlockManufInvalidMboxCmd)
                    }
                },
                _ => self.fail(RomError::UnexpectedEvent),
            },
            UnlockPhase::ManufReadRequest => match ev {
                Event::Bytes(Ok(b)) => match parse_manuf_request(b.as_slice()) {
                    Ok(token) => {
                        self.token = token;
                        self.phase = UnlockPhase::ManufMarkInProgress;
                        UnlockAction::MarkInProgress
                    },
                    Err(e) => self.fail(e),
                },
                Event::Bytes(Err(c)) => self.fail(RomError::Driver(c)),
                _ => self.fail(RomError::UnexpectedEvent),
            },
            UnlockPhase::ManufMarkInProgress => match ev {
                Event::Done(Ok(())) => {
                    self.phase = UnlockPhase::ManufAwaitNonce;
                    UnlockAction::GenerateRandom
                },
                Event::Done(Err(c)) => self.fail(RomError::Driver(c)),
                _ => self.fail(RomError::UnexpectedEvent),
            },
            UnlockPhase::ManufAwaitNonce => match ev {
                Event::Bytes(Ok(r)) => {
                    if r.len() >= NONCE_SIZE {
                        self.nonce = copy_range(r.as_slice(), 0, NONCE_SIZE);
                        self.phase = UnlockPhase::ManufAwaitInputDigest;
                        UnlockAction::Sha512(
                            build_token_block(self.token.as_slice(), self.nonce.as_slice()),
                        )
                    } else {
                        self.fail(RomError::UnexpectedLength)
                    }
                },
                Event::Bytes(Err(c)) => self.fail(RomError::Driver(c)),
                _ => self.fail(RomError::UnexpectedEvent),
            },
            UnlockPhase::ManufAwaitInputDigest => match ev {
                Event::Bytes(Ok(d)) => {
                    self.input_digest = d;
                    self.phase = UnlockPhase::ManufAwaitFuseDigest;
                    UnlockAction::Sha512(
                        build_token_block(self.fuse_token.as_slice(), self.nonce.as_slice()),
                    )
                },
                Event::Bytes(Err(c)) => self.fail(RomError::Driver(c)),
                _ => self.fail(RomError::UnexpectedEvent),
            },
            UnlockPhase::ManufAwaitFuseDigest => match ev {
                Event::Bytes(Ok(d)) => {
                    self.fuse_digest = d;
                    match secure_eq(
                        self.input_digest.as_slice(),
                        self.fuse_digest.as_slice(),
                        RomError::DbgUnlockManufInvalidToken,
                    ) {
                        Ok(()) => {
                            self.unlocked = true;
                            self.outcome = Ok(());
                            self.phase = UnlockPhase::Committing;
                            UnlockAction::Commit(true)
                        },
                        Err(e) => self.fail(e),
                    }
                },
                Event::Bytes(Err(c)) => self.fail(RomError::Driver(c)),
                _ => self.fail(RomError::UnexpectedEvent),
            },
            _ => UnlockAction::Complete(self.outcome),
        }
    }

    /// One step of the production exchange, up to the accepted token.
    fn step_prod_req(&mut self, ev: Event) -> (r: UnlockAction)
        requires
            old(self).wf(),
            prod_phase(old(self).phase) && !in_progress(old(self).phase),
        ensures
            final(self).wf(),
            old(self).transition(&ev, final(self), &r),
            final(self).lifecycle == old(self).lifecycle,
            final(self).fuse_token@ == old(self).fuse_token@,
            final(self).ueid@ == old(self).ueid@,
    {
        match self.phase {
            UnlockPhase::ProdAwaitRequestCommand => match ev {
                Event::Mailbox(None) => UnlockAction::PollMailbox,
                Event::Mailbox(Some(c)) => {
                    if c == PRODUCTION_AUTH_DEBUG_UNLOCK_REQ {
                        self.phase = UnlockPhase::ProdReadRequest;
                        UnlockAction::ReadPayload
                    } else {
                        self.fail(RomError::DbgUnlockProdInvalidReqMboxCmd)
                    }
                },
                _ => self.fail(RomError::UnexpectedEvent),
            },
            UnlockPhase::ProdReadRequest => match ev {
                Event::Bytes(Ok(b)) => match parse_request(b.as_slice()) {
                    Ok(req) => {
                        self.vendor_id = req.vendor_id;
                        self.object_data_type = req.object_data_type;
                        self.category = req.unlock_category;
                        self.phase = UnlockPhase::ProdAwaitChallenge;
                        UnlockAction::GenerateRandom
                    },
                    Err(e) => self.fail(e),
                },
                Event::Bytes(Err(c)) => self.fail(RomError::Driver(c)),
                _ => self.fail(RomError::UnexpectedEvent),
            },
            UnlockPhase::ProdAwaitChallenge => match ev {
                Event::Bytes(Ok(r)) => {
                    if r.len() == CHALLENGE_SIZE {
                        let req = crate::mailbox::ProdUnlockRequest {
                            vendor_id: copy_all(self.vendor_id.as_slice()),
                            object_data_type: self.object_data_type,
                            unlock_category: self.category,
                        };
                        let record = encode_challenge(&req, self.ueid.as_slice(), r.as_slice());
                        self.challenge = r;
                        self.phase = UnlockPhase::ProdSendChallenge;
                        UnlockAction::SendResponse(record)
                    } else {
                        self.fail(RomError::UnexpectedLength)
                    }
                },
                Event::Bytes(Err(c)) => self.fail(RomError::Driver(c)),
                _ => self.fail(RomError::UnexpectedEvent),
            },
            UnlockPhase::ProdSendChallenge => match ev {
                Event::Done(Ok(())) => {
                    self.phase = UnlockPhase::ProdAwaitTokenCommand;
                    UnlockAction::PollMailbox
                },
                Event::Done(Err(c)) => self.fail(RomError::Driver(c)),
                _ => self.fail(RomError::UnexpectedEvent),
            },
            UnlockPhase::ProdAwaitTokenCommand => match ev {
                Event::Mailbox(None) => UnlockAction::PollMailbox,
                Event::Mailbox(Some(c)) => {
                    if c == PRODUCTION_AUTH_DEBUG_UNLOCK_TOKEN {
                        self.phase = UnlockPhase::ProdReadToken;
                        UnlockAction::ReadPayload
                    } else {
                        self.fail(RomError::DbgUnlockProdInvalidTokenMboxCmd)
                    }
                },
                _ => self.fail(RomError::UnexpectedEvent),
            },
            UnlockPhase::ProdReadToken => match ev {
                Event::Bytes(Ok(b)) => match parse_token(
                    b.as_slice(),
                    self.category,
                    self.challenge.as_slice(),
                ) {
                    Ok(tok) => {
                        proof {
                            assert(tok.unlock_category@ == b@.subrange(8, 11));
                            assert(be24(tok.unlock_category@, 0) == be24(b@, 8));
                        }
                        self.unlock_token = Some(tok);
                        self.phase = UnlockPhase::ProdMarkInProgress;
                        UnlockAction::MarkInProgress
                    },
                    Err(e) => self.fail(e),
                },
                Event::Bytes(Err(c)) => self.fail(RomError::Driver(c)),
                _ => self.fail(RomError::UnexpectedEvent),
            },
            _ => UnlockAction::Complete(self.outcome),
        }
    }

    /// One step of the production exchange, from the accepted token to the decision.
    fn step_prod_tok(&mut self, ev: Event) -> (r: UnlockAction)
        requires
            old(self).wf(),
            prod_phase(old(self).phase) && in_progress(old(self).phase),
        ensures
            final(self).wf(),
            old(self).transition(&ev, final(self), &r),
            final(self).lifecycle == old(self).lifecycle,
            final(self).fuse_token@ == old(self).fuse_token@,
            final(self).ueid@ == old(self).ueid@,
    {
        match self.phase {
            UnlockPhase::ProdMarkInProgress => match ev {
                Event::Done(Ok(())) => {
                    self.phase = UnlockPhase::ProdAwaitKeyHash;
                    UnlockAction::ReadAuthorizedKeyHash(self.category)
                },
                Event::Done(Err(c)) => self.fail(RomError::Driver(c)),
                _ => self.fail(RomError::UnexpectedEvent),
            },
            UnlockPhase::ProdAwaitKeyHash => match ev {
                Event::Bytes(Ok(h)) => {
                    self.key_hash = h;
                    self.phase = UnlockPhase::ProdAwaitKeyDigest;
                    match &self.unlock_token {
                        Some(tok) => UnlockAction::Sha512(tok.keys()),
                        None => UnlockAction::Sha512(Vec::new()),
                    }
                },
                Event::Bytes(Err(c)) => self.fail(RomError::Driver(c)),
                _ => self.fail(RomError::UnexpectedEvent),
            },
            UnlockPhase::ProdAwaitKeyDigest => match ev {
                Event::Bytes(Ok(d)) => {
                    match secure_eq(
                        d.as_slice(),
                        self.key_hash.as_slice(),
                        RomError::DbgUnlockProdInvalidToken,
                    ) {
                        Ok(()) => {
                            self.key_digest = d;
                            self.phase = UnlockPhase::ProdAwaitEccDigest;
                            match &self.unlock_token {
                                Some(tok) => UnlockAction::Sha384(tok.message()),
                                None => UnlockAction::Sha384(Vec::new()),
                            }
                        },
                        Err(e) => self.fail(e),
                    }
                },
                Event::Bytes(Err(c)) => self.fail(RomError::Driver(c)),
                _ => self.fail(RomError::UnexpectedEvent),
            },
            UnlockPhase::ProdAwaitEccDigest => match ev {
                Event::Bytes(Ok(d)) => {
                    self.phase = UnlockPhase::ProdAwaitEccVerdict;
                    match &self.unlock_token {
                        Some(tok) => UnlockAction::EccVerify {
                            public_key: copy_all(tok.ecc_public_key.as_slice()),
                            digest: d,
                            signature: copy_all(tok.ecc_signature.as_slice()),
                        },
                        None => UnlockAction::EccVerify {
                            public_key: Vec::new(),
                            digest: d,
                            signature: Vec::new(),
                        },
                    }
                },
                Event::Bytes(Err(c)) => self.fail(RomError::Driver(c)),
                _ => self.fail(RomError::UnexpectedEvent),
            },
            UnlockPhase::ProdAwaitEccVerdict => match ev {
                Event::Verified(Ok(verified)) => match cfi_branch(verified) {
                    Ok(true) => {
                        self.ecc_verified = true;
                        self.phase = UnlockPhase::ProdAwaitMldsaDigest;
                        match &self.unlock_token {
                            Some(tok) => UnlockAction::Sha512(tok.message()),
                            None => UnlockAction::Sha512(Vec::new()),
                        }
                    },
                    Ok(false) => self.fail(RomError::DbgUnlockProdEccSignatureInvalid),
                    Err(e) => self.fail(e),
                },
                Event::Verified(Err(c)) => self.fail(RomError::Driver(c)),
                _ => self.fail(RomError::UnexpectedEvent),
            },
            UnlockPhase::ProdAwaitMldsaDigest => match ev {
                Event::Bytes(Ok(d)) => {
                    self.phase = UnlockPhase::ProdAwaitMldsaVerdict;
                    match &self.unlock_token {
                        Some(tok) => UnlockAction::MldsaVerify {
                            public_key: copy_all(tok.mldsa_public_key.as_slice()),
                            digest: d,
                            signature: copy_all(tok.mldsa_signature.as_slice()),
                        },
                        None => UnlockAction::MldsaVerify {
                            public_key: Vec::new(),
                            digest: d,
                            signature: Vec::new(),
                        },
                    }
                },
                Event::Bytes(Err(c)) => self.fail(RomError::Driver(c)),
                _ => self.fail(RomError::UnexpectedEvent),
            },
            UnlockPhase::ProdAwaitMldsaVerdict => match ev {
                Event::Verified(Ok(verified)) => match cfi_branch(verified) {
                    Ok(true) => {
                        self.mldsa_verified = true;
                        self.unlocked = true;
                        self.outcome = Ok(());
                        self.phase = UnlockPhase::Committing;
                        UnlockAction::Commit(true)
                    },
                    Ok(false) => self.fail(RomError::DbgUnlockProdMldsaSignatureInvalid),
                    Err(e) => self.fail(e),
                },
                Event::Verified(Err(c)) => self.fail(RomError::Driver(c)),
                _ => self.fail(RomError::UnexpectedEvent),
            },
            _ => UnlockAction::Complete(self.outcome),
        }
    }

    /// One step of the exchange once the decision is made.
    fn step_finish(&mut self, ev: Event) -> (r: UnlockAction)
        requires
            old(self).wf(),
            !manuf_phase(old(self).phase) && !prod_phase(old(self).phase),
        ensures
            final(self).wf(),
            old(self).transition(&ev, final(self), &r),
            final(self).lifecycle == old(self).lifecycle,
            final(self).fuse_token@ == old(self).fuse_token@,
            final(self).ueid@ == old(self).ueid@,
    {
        match self.phase {
            UnlockPhase::Committing => {
                match self.outcome {
                    Ok(()) => {
                        self.phase = UnlockPhase::Responding;
                        UnlockAction::SendResponse(success_header())
                    },
                    Err(e) => {
                        self.phase = UnlockPhase::Done;
                        UnlockAction::Complete(Err(e))
                    },
                }
            },
            UnlockPhase::Responding => {
                let result = match ev {
                    Event::Done(Ok(())) => Ok(()),
                    Event::Done(Err(c)) => Err(RomError::Driver(c)),
                    _ => Err(RomError::UnexpectedEvent),
                };
                self.outcome = result;
                self.phase = UnlockPhase::Done;
                UnlockAction::Complete(result)
            },
            UnlockPhase::Done => UnlockAction::Complete(self.outcome),
            _ => UnlockAction::Complete(self.outcome),
        }
    }

    /// Advances the exchange by one event and returns the next action.
    pub fn step(&mut self, ev: Event) -> (r: UnlockAction)
        requires
            old(self).wf(),
        ensures
            final(self).wf(),
            old(self).transition(&ev, final(self), &r),
            final(self).lifecycle == old(self).lifecycle,
            final(self).fuse_token@ == old(self).fuse_token@,
            final(self).ueid@ == old(self).ueid@,
    {
        if phase_is_manuf(self.phase) {
            self.step_manuf(ev)
        } else if phase_is_prod(self.phase) {
            if phase_in_progress(self.phase) {
                self.step_prod_tok(ev)
            } else {
                self.step_prod_req(ev)
            }
        } else {
            self.step_finish(ev)
        }
    }

}

/// With one nonce, the blocks hashed for two manufacturing tokens are equal
/// exactly when the tokens are: the request and fuse digests are computed
/// over the same bytes if and only if the request carries the fuse token.
pub proof fn token_blocks_match_iff_tokens_match(t1: Seq<u8>, t2: Seq<u8>, nonce: Seq<u8>)
    requires
        t1.len() == MANUF_TOKEN_SIZE,
        t2.len() == MANUF_TOKEN_SIZE,
    ensures
        token_block(t1, nonce) == token_block(t2, nonce) <==> t1 == t2,
{
    if token_block(t1, nonce) == token_block(t2, nonce) {
        assert(t1 =~= token_block(t1, nonce).subrange(8, 24));
        assert(t2 =~= token_block(t2, nonce).subrange(8, 24));
    }
}

/// The manufacturing decision: the flow commits the latch open exactly when
/// the fuse token digest equals the request token digest, and closed with
/// `DbgUnlockManufInvalidToken` otherwise.
pub proof fn manuf_unlock_iff_digests_match(
    f: &DebugUnlockFlow,
    ev: &Event,
    next: &DebugUnlockFlow,
    act: &UnlockAction,
)
    requires
        f.wf(),
        f.phase == UnlockPhase::ManufAwaitFuseDigest,
        *ev is Bytes,
        ev->Bytes_0 is Ok,
        f.transition(ev, next, act),
    ensures
        next.unlocked <==> ev->Bytes_0->Ok_0@ == f.input_digest@,
        next.unlocked ==> *act == UnlockAction::Commit(true),
        !next.unlocked ==> *act == UnlockAction::Commit(false) && next.outcome == Err::<
            (),
            RomError,
        >(RomError::DbgUnlockManufInvalidToken),
{
}

/// Every mismatch takes the same path: whichever bytes of the token
/// differ, two manufacturing exchanges whose digests both mismatch reach the
/// same state with the same action.
pub proof fn manuf_mismatch_path_is_uniform(
    f1: &DebugUnlockFlow,
    ev1: &Event,
    n1: &DebugUnlockFlow,
    a1: &UnlockAction,
    f2: &DebugUnlockFlow,
    ev2: &Event,
    n2: &DebugUnlockFlow,
    a2: &UnlockAction,
)
    requires
        f1.wf() && f2.wf(),
        f1.phase == UnlockPhase::ManufAwaitFuseDigest,
        f2.phase == UnlockPhase::ManufAwaitFuseDigest,
        *ev1 is Bytes && ev1->Bytes_0 is Ok && ev1->Bytes_0->Ok_0@ != f1.input_digest@,
        *ev2 is Bytes && ev2->Bytes_0 is Ok && ev2->Bytes_0->Ok_0@ != f2.input_digest@,
        f1.transition(ev1, n1, a1),
        f2.transition(ev2, n2, a2),
    ensures
        *a1 == *a2,
        n1.phase == n2.phase,
        n1.outcome == n2.outcome,
        n1.unlocked == n2.unlocked,
{
}

/// A production request whose category does not fit in four bits is
/// rejected as invalid, before any challenge is drawn or sent.
pub proof fn wide_category_rejected_before_challenge(
    f: &DebugUnlockFlow,
    ev: &Event,
    next: &DebugUnlockFlow,
    act: &UnlockAction,
)
    requires
        f.wf(),
        f.phase == UnlockPhase::ProdReadRequest,
        *ev is Bytes,
        ev->Bytes_0 is Ok,
        ev->Bytes_0->Ok_0@.len() == crate::mailbox::PROD_REQ_SIZE,
        be24(ev->Bytes_0->Ok_0@, 12) > 0xf,
        f.transition(ev, next, act),
    ensures
        next.phase == UnlockPhase::Done,
        !next.unlocked,
        *act == UnlockAction::Complete(Err(RomError::DbgUnlockProdInvalidReq)),
{
}

/// A production token that echoes any challenge other than the one issued in
/// its own exchange (a challenge of an earlier exchange, say) is rejected,
/// and the latch is committed closed.
pub proof fn stale_challenge_rejected(
    f: &DebugUnlockFlow,
    ev: &Event,
    next: &DebugUnlockFlow,
    act: &UnlockAction,
)
    requires
        f.wf(),
        f.phase == UnlockPhase::ProdReadToken,
        *ev is Bytes,
        ev->Bytes_0 is Ok,
        ev->Bytes_0->Ok_0@.len() == crate::mailbox::PROD_TOKEN_SIZE,
        ev->Bytes_0->Ok_0@.subrange(12, 60) != f.challenge@,
        f.transition(ev, next, act),
    ensures
        next.phase == UnlockPhase::Committing,
        !next.unlocked,
        next.outcome == Err::<(), RomError>(RomError::DbgUnlockProdInvalidToken),
        *act == UnlockAction::Commit(false),
{
}

/// Once a production token is accepted, every later step works on that same
/// token, category and challenge: the keys hashed against the fuse value are
/// the keys whose signatures are verified, and the verify actions carry the
/// token's own keys and signatures.
pub proof fn accepted_token_is_kept(
    f: &DebugUnlockFlow,
    ev: &Event,
    next: &DebugUnlockFlow,
    act: &UnlockAction,
)
    requires
        prod_token_known(f.phase),
        f.transition(ev, next, act),
    ensures
        next.unlock_token == f.unlock_token,
        next.category == f.category,
        next.challenge == f.challenge,
        prod_keys_authorized(f.phase) ==> next.key_hash == f.key_hash && next.key_digest
            == f.key_digest,
{
}

/// The latch is only ever committed open after everything the lifecycle's
/// protocol requires: in manufacturing, matching token digests; in
/// production, the category and challenge echoes, the authorized key hash
/// and both signatures.
pub proof fn unlock_requires_authorization(f: &DebugUnlockFlow)
    requires
        f.wf(),
        f.unlocked,
    ensures
        f.authorized(),
{
}

} // verus!
