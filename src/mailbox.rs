use vstd::prelude::*;

use crate::bytes::{be24, be24_bytes, copy_range, push_all, push_be24, push_zeros, read_be24, zeros};
use crate::cfi::secure_eq;
use crate::error::RomError;

verus! {

/// Command id of a manufacturing debug-unlock token request.
pub const MANUF_DEBUG_UNLOCK_REQ_TOKEN: u32 = 0x4d44_5554;

/// Command id of a production debug-unlock request.
pub const PRODUCTION_AUTH_DEBUG_UNLOCK_REQ: u32 = 0x5044_5552;

/// Command id of a production debug-unlock token.
pub const PRODUCTION_AUTH_DEBUG_UNLOCK_TOKEN: u32 = 0x5044_5554;

/// Size of a request header (its checksum).
pub const REQ_HEADER_SIZE: usize = 4;

/// Size of a response header (checksum and FIPS status).
pub const RESP_HEADER_SIZE: usize = 8;

/// Manufacturing token request: header, 16-byte token.
pub const MANUF_TOKEN_REQ_SIZE: usize = 20;

/// Size of the manufacturing unlock token.
pub const MANUF_TOKEN_SIZE: usize = 16;

/// Production request: header, vendor id (2), object type (1), reserved (1),
/// length (3), reserved (1), unlock category (3), reserved (1).
pub const PROD_REQ_SIZE: usize = 16;

/// Production challenge: header, vendor id (2), object type (1), reserved (1),
/// length (3), reserved (1), device id (32), challenge (48).
pub const PROD_CHALLENGE_SIZE: usize = 96;

/// Production token: header, length (3), reserved (1), unlock category (3),
/// reserved (1), challenge (48), device id (32), ECC public key (96), ECC
/// signature (96), ML-DSA public key (2592), ML-DSA signature (4628).
pub const PROD_TOKEN_SIZE: usize = 7504;

/// Size of the challenge issued to a production requester.
pub const CHALLENGE_SIZE: usize = 48;

/// Size of the device identifier field of the production records.
pub const DEVICE_ID_SIZE: usize = 32;

/// Size of the unique device identifier held in fuses.
pub const UEID_SIZE: usize = 17;

/// Largest unlock category: the category is four bits wide.
pub const MAX_UNLOCK_CATEGORY: u32 = 0xf;

pub const ECC_PUB_KEY_SIZE: usize = 96;

pub const ECC_SIGNATURE_SIZE: usize = 96;

pub const MLDSA_PUB_KEY_SIZE: usize = 2592;

pub const MLDSA_SIGNATURE_SIZE: usize = 4628;

// Offsets within a production token.
pub const TOKEN_LENGTH_AT: usize = 4;

pub const TOKEN_CATEGORY_AT: usize = 8;

pub const TOKEN_CHALLENGE_AT: usize = 12;

pub const TOKEN_DEVICE_ID_AT: usize = 60;

pub const TOKEN_ECC_PUB_KEY_AT: usize = 92;

pub const TOKEN_ECC_SIGNATURE_AT: usize = 188;

pub const TOKEN_MLDSA_PUB_KEY_AT: usize = 284;

pub const TOKEN_MLDSA_SIGNATURE_AT: usize = 2876;

/// The declared length of a record: its size without the request header,
/// counted in 4-byte words.
pub open spec fn word_count(record_size: int) -> int {
    (record_size - REQ_HEADER_SIZE) / 4
}

/// A production debug-unlock request that passed validation.
pub struct ProdUnlockRequest {
    pub vendor_id: Vec<u8>,
    pub object_data_type: u8,
    /// The requested debug category, at most `MAX_UNLOCK_CATEGORY`.
    pub unlock_category: u32,
}

/// A production debug-unlock token that passed validation.
pub struct ProdUnlockToken {
    /// The category field as sent, three bytes.
    pub unlock_category: Vec<u8>,
    pub challenge: Vec<u8>,
    pub device_id: Vec<u8>,
    pub ecc_public_key: Vec<u8>,
    pub ecc_signature: Vec<u8>,
    pub mldsa_public_key: Vec<u8>,
    pub mldsa_signature: Vec<u8>,
}

/// The request's declared length and category are within bounds.
pub open spec fn request_fields_valid(b: Seq<u8>) -> bool {
    &&& be24(b, 8) == word_count(PROD_REQ_SIZE as int)
    &&& be24(b, 12) <= MAX_UNLOCK_CATEGORY
}

/// The token's declared length is right and it echoes the category and the
/// challenge of the exchange.
pub open spec fn token_fields_valid(b: Seq<u8>, category: int, challenge: Seq<u8>) -> bool {
    &&& be24(b, TOKEN_LENGTH_AT as int) == word_count(PROD_TOKEN_SIZE as int)
    &&& be24(b, TOKEN_CATEGORY_AT as int) == category
    &&& b.subrange(TOKEN_CHALLENGE_AT as int, TOKEN_DEVICE_ID_AT as int) == challenge
}

impl ProdUnlockToken {
    /// The token holds the fields of the payload `b`.
    pub open spec fn holds_fields_of(&self, b: Seq<u8>) -> bool {
        &&& self.unlock_category@ == b.subrange(8, 11)
        &&& self.challenge@ == b.subrange(12, 60)
        &&& self.device_id@ == b.subrange(60, 92)
        &&& self.ecc_public_key@ == b.subrange(92, 188)
        &&& self.ecc_signature@ == b.subrange(188, 284)
        &&& self.mldsa_public_key@ == b.subrange(284, 2876)
        &&& self.mldsa_signature@ == b.subrange(2876, 7504)
    }

    /// The message both signatures are made over: challenge, device id and
    /// category, in that order.
    pub open spec fn signed_message(&self) -> Seq<u8> {
        self.challenge@ + self.device_id@ + self.unlock_category@
    }

    /// The public keys whose digest must match the authorized key hash.
    pub open spec fn public_keys(&self) -> Seq<u8> {
        self.ecc_public_key@ + self.mldsa_public_key@
    }

    /// Builds the message both signatures are made over.
    pub fn message(&self) -> (r: Vec<u8>)
        ensures
            r@ == self.signed_message(),
    {
        let mut r: Vec<u8> = Vec::new();
        push_all(&mut r, self.challenge.as_slice());
        push_all(&mut r, self.device_id.as_slice());
        push_all(&mut r, self.unlock_category.as_slice());
        r
    }

    /// Concatenates the two public keys, classical first.
    pub fn keys(&self) -> (r: Vec<u8>)
        ensures
            r@ == self.public_keys(),
    {
        let mut r: Vec<u8> = Vec::new();
        push_all(&mut r, self.ecc_public_key.as_slice());
        push_all(&mut r, self.mldsa_public_key.as_slice());
        r
    }
}

/// Extracts the token of a manufacturing token request.
///
/// A payload of the wrong size is `MailboxPayloadSize`.
pub fn parse_manuf_request(b: &[u8]) -> (r: Result<Vec<u8>, RomError>)
    ensures
        b@.len() == MANUF_TOKEN_REQ_SIZE <==> r is Ok,
        r is Ok ==> r->Ok_0@ == b@.subrange(4, 20),
        r is Err ==> r == Err::<Vec<u8>, RomError>(RomError::MailboxPayloadSize),
{
    if b.len() != MANUF_TOKEN_REQ_SIZE {
        return Err(RomError::MailboxPayloadSize);
    }
    Ok(copy_range(b, REQ_HEADER_SIZE, MANUF_TOKEN_REQ_SIZE))
}

/// Validates a production unlock request.
///
/// A payload of the wrong size is `MailboxPayloadSize`; a declared length
/// other than the record's, or a category wider than four bits, is
/// `DbgUnlockProdInvalidReq`.
pub fn parse_request(b: &[u8]) -> (r: Result<ProdUnlockRequest, RomError>)
    ensures
        b@.len() != PROD_REQ_SIZE ==> r == Err::<ProdUnlockRequest, RomError>(
            RomError::MailboxPayloadSize,
        ),
        b@.len() == PROD_REQ_SIZE ==> (r is Ok <==> request_fields_valid(b@)),
        b@.len() == PROD_REQ_SIZE && !request_fields_valid(b@) ==> r == Err::<
            ProdUnlockRequest,
            RomError,
        >(RomError::DbgUnlockProdInvalidReq),
        r is Ok ==> {
            &&& r->Ok_0.vendor_id@ == b@.subrange(4, 6)
            &&& r->Ok_0.object_data_type == b@[6]
            &&& r->Ok_0.unlock_category == be24(b@, 12)
        },
{
    if b.len() != PROD_REQ_SIZE {
        return Err(RomError::MailboxPayloadSize);
    }
    if read_be24(b, 8) != 3 {
        return Err(RomError::DbgUnlockProdInvalidReq);
    }
    let category = read_be24(b, 12);
    if category > MAX_UNLOCK_CATEGORY {
        return Err(RomError::DbgUnlockProdInvalidReq);
    }
    Ok(ProdUnlockRequest {
        vendor_id: copy_range(b, 4, 6),
        object_data_type: b[6],
        unlock_category: category,
    })
}

/// Validates a production unlock token against the category that was
/// requested and the challenge that was issued.
///
/// A payload of the wrong size is `MailboxPayloadSize`; a wrong declared
/// length, category echo or challenge echo is `DbgUnlockProdInvalidToken`.
pub fn parse_token(b: &[u8], category: u32, challenge: &[u8]) -> (r: Result<
    ProdUnlockToken,
    RomError,
>)
    ensures
        b@.len() != PROD_TOKEN_SIZE ==> r == Err::<ProdUnlockToken, RomError>(
            RomError::MailboxPayloadSize,
        ),
        b@.len() == PROD_TOKEN_SIZE ==> (r is Ok <==> token_fields_valid(
            b@,
            category as int,
            challenge@,
        )),
        b@.len() == PROD_TOKEN_SIZE && !token_fields_valid(b@, category as int, challenge@) ==> r
            == Err::<ProdUnlockToken, RomError>(RomError::DbgUnlockProdInvalidToken),
        r is Ok ==> r->Ok_0.holds_fields_of(b@),
{
    if b.len() != PROD_TOKEN_SIZE {
        return Err(RomError::MailboxPayloadSize);
    }
    if read_be24(b, TOKEN_LENGTH_AT) != 1875 {
        return Err(RomError::DbgUnlockProdInvalidToken);
    }
    if read_be24(b, TOKEN_CATEGORY_AT) != category {
        return Err(RomError::DbgUnlockProdInvalidToken);
    }
    let echoed = copy_range(b, TOKEN_CHALLENGE_AT, TOKEN_DEVICE_ID_AT);
    match secure_eq(echoed.as_slice(), challenge, RomError::DbgUnlockProdInvalidToken) {
        Ok(()) => {},
        Err(_) => {
            return Err(RomError::DbgUnlockProdInvalidToken);
        },
    }
    Ok(ProdUnlockToken {
        unlock_category: copy_range(b, TOKEN_CATEGORY_AT, TOKEN_CATEGORY_AT + 3),
        challenge: echoed,
        device_id: copy_range(b, TOKEN_DEVICE_ID_AT, TOKEN_ECC_PUB_KEY_AT),
        ecc_public_key: copy_range(b, TOKEN_ECC_PUB_KEY_AT, TOKEN_ECC_SIGNATURE_AT),
        ecc_signature: copy_range(b, TOKEN_ECC_SIGNATURE_AT, TOKEN_MLDSA_PUB_KEY_AT),
        mldsa_public_key: copy_range(b, TOKEN_MLDSA_PUB_KEY_AT, TOKEN_MLDSA_SIGNATURE_AT),
        mldsa_signature: copy_range(b, TOKEN_MLDSA_SIGNATURE_AT, PROD_TOKEN_SIZE),
    })
}

/// The challenge record sent to a production requester.
pub open spec fn challenge_record(
    vendor_id: Seq<u8>,
    object_data_type: u8,
    ueid: Seq<u8>,
    challenge: Seq<u8>,
) -> Seq<u8> {
    zeros(RESP_HEADER_SIZE as nat) + vendor_id + seq![object_data_type, 0u8]
        + be24_bytes(word_count(PROD_CHALLENGE_SIZE as int)) + seq![0u8] + ueid + zeros(
        (DEVICE_ID_SIZE - UEID_SIZE) as nat,
    ) + challenge
}

/// Encodes the challenge record: the request's vendor id and object type,
/// the declared length, the device identifier padded to 32 bytes, and the
/// challenge.
pub fn encode_challenge(req: &ProdUnlockRequest, ueid: &[u8], challenge: &[u8]) -> (r: Vec<u8>)
    requires
        req.vendor_id@.len() == 2,
        ueid@.len() == UEID_SIZE,
        challenge@.len() == CHALLENGE_SIZE,
    ensures
        r@ == challenge_record(req.vendor_id@, req.object_data_type, ueid@, challenge@),
        r@.len() == PROD_CHALLENGE_SIZE,
{
    let mut r: Vec<u8> = Vec::new();
    push_zeros(&mut r, RESP_HEADER_SIZE);
    push_all(&mut r, req.vendor_id.as_slice());
    r.push(req.object_data_type);
    r.push(0u8);
    push_be24(&mut r, 23);
    r.push(0u8);
    push_all(&mut r, ueid);
    push_zeros(&mut r, DEVICE_ID_SIZE - UEID_SIZE);
    push_all(&mut r, challenge);
    assert(r@ =~= challenge_record(req.vendor_id@, req.object_data_type, ueid@, challenge@));
    r
}

/// The header of a successful response: zero checksum and status.
pub fn success_header() -> (r: Vec<u8>)
    ensures
        r@ == zeros(RESP_HEADER_SIZE as nat),
{
    let mut r: Vec<u8> = Vec::new();
    push_zeros(&mut r, RESP_HEADER_SIZE);
    r
}

} // verus!
