use vstd::prelude::*;

use crate::bytes::{copy_range, push_all};
use crate::error::RomError;

verus! {

/// Size of a subject key identifier.
pub const KEY_ID_SIZE: usize = 20;

/// Size of a certificate serial number.
pub const CERT_SN_SIZE: usize = 20;

/// Size of an ECC-384 public key: x then y, 48 bytes each.
pub const ECC_PUB_KEY_SIZE: usize = 96;

/// Digest used to compute a subject key identifier, chosen by fuses.
#[derive(Clone, Copy, Debug, PartialEq, Eq, Structural)]
pub enum X509KeyIdAlgo {
    Sha1,
    Sha256,
    Sha384,
    /// The identifier is the value held in fuses.
    Fuse,
}

/// The fuse value of each algorithm.
pub open spec fn key_id_algo_of(config: u32) -> Option<X509KeyIdAlgo> {
    if config == 0 {
        Some(X509KeyIdAlgo::Sha1)
    } else if config == 1 {
        Some(X509KeyIdAlgo::Sha256)
    } else if config == 2 {
        Some(X509KeyIdAlgo::Sha384)
    } else if config == 3 {
        Some(X509KeyIdAlgo::Fuse)
    } else {
        None
    }
}

/// Size of the digest each algorithm produces; the fuse value is a full
/// identifier.
pub open spec fn digest_size(algo: X509KeyIdAlgo) -> nat {
    match algo {
        X509KeyIdAlgo::Sha1 => 20,
        X509KeyIdAlgo::Sha256 => 32,
        X509KeyIdAlgo::Sha384 => 48,
        X509KeyIdAlgo::Fuse => 20,
    }
}

impl X509KeyIdAlgo {
    /// Selects the algorithm from its fuse value; an unknown value is a
    /// configuration error.
    pub fn from_fuse(config: u32) -> (r: Result<X509KeyIdAlgo, RomError>)
        ensures
            key_id_algo_of(config) is Some ==> r == Ok::<X509KeyIdAlgo, RomError>(
                key_id_algo_of(config)->Some_0,
            ),
            key_id_algo_of(config) is None ==> r == Err::<X509KeyIdAlgo, RomError>(
                RomError::X509KeyIdAlgoUnsupported,
            ),
    {
        match config {
            0 => Ok(X509KeyIdAlgo::Sha1),
            1 => Ok(X509KeyIdAlgo::Sha256),
            2 => Ok(X509KeyIdAlgo::Sha384),
            3 => Ok(X509KeyIdAlgo::Fuse),
            _ => Err(RomError::X509KeyIdAlgoUnsupported),
        }
    }

    /// Whether the identifier comes from a digest computed over the key.
    pub fn needs_digest(&self) -> (r: bool)
        ensures
            r == (*self != X509KeyIdAlgo::Fuse),
    {
        match self {
            X509KeyIdAlgo::Fuse => false,
            _ => true,
        }
    }
}

/// X.509 subject identifiers.
pub struct X509;

impl X509 {
    /// The subject key identifier of a public key.
    ///
    /// `digest` is the digest of the key's encoding under `algo` (ignored for
    /// `Fuse`). SHA-1 is used as it is, SHA-256 and SHA-384 are truncated to
    /// 20 bytes, and `Fuse` yields `fuse_key_id`. A digest of the wrong size is
    /// `UnexpectedLength`.
    pub fn idev_subj_key_id(algo: X509KeyIdAlgo, digest: &[u8], fuse_key_id: &[u8]) -> (r: Result<
        Vec<u8>,
        RomError,
    >)
        requires
            fuse_key_id@.len() == KEY_ID_SIZE,
        ensures
            algo == X509KeyIdAlgo::Fuse ==> r is Ok && r->Ok_0@ == fuse_key_id@,
            algo != X509KeyIdAlgo::Fuse ==> (r is Ok <==> digest@.len() == digest_size(algo)),
            algo != X509KeyIdAlgo::Fuse && r is Ok ==> r->Ok_0@ == digest@.subrange(0, 20),
            r is Err ==> r == Err::<Vec<u8>, RomError>(RomError::UnexpectedLength),
    {
        let size: usize = match algo {
            X509KeyIdAlgo::Sha1 => 20,
            X509KeyIdAlgo::Sha256 => 32,
            X509KeyIdAlgo::Sha384 => 48,
            X509KeyIdAlgo::Fuse => {
                let r = copy_range(fuse_key_id, 0, KEY_ID_SIZE);
                assert(fuse_key_id@.subrange(0, 20) == fuse_key_id@);
                return Ok(r);
            },
        };
        if digest.len() != size {
            return Err(RomError::UnexpectedLength);
        }
        Ok(copy_range(digest, 0, KEY_ID_SIZE))
    }

    /// The certificate serial number derived from the SHA-256 digest of the
    /// public key: its first 20 bytes, with the first byte made positive and
    /// non-zero as a DER integer.
    pub fn cert_sn(sha256_digest: &[u8]) -> (r: Result<Vec<u8>, RomError>)
        ensures
            r is Ok <==> sha256_digest@.len() == 32,
            r is Ok ==> r->Ok_0@ == cert_sn_of(sha256_digest@),
            r is Err ==> r == Err::<Vec<u8>, RomError>(RomError::UnexpectedLength),
    {
        if sha256_digest.len() != 32 {
            return Err(RomError::UnexpectedLength);
        }
        let mut sn = copy_range(sha256_digest, 0, CERT_SN_SIZE);
        let first = (sn[0] & 0x7f) | 0x04;
        sn.set(0, first);
        Ok(sn)
    }

    /// The subject serial number: the SHA-256 digest of the public key in
    /// upper-case hexadecimal.
    pub fn subj_sn(sha256_digest: &[u8]) -> (r: Result<Vec<u8>, RomError>)
        ensures
            r is Ok <==> sha256_digest@.len() == 32,
            r is Ok ==> r->Ok_0@ == hex_of(sha256_digest@),
            r is Err ==> r == Err::<Vec<u8>, RomError>(RomError::UnexpectedLength),
    {
        if sha256_digest.len() != 32 {
            return Err(RomError::UnexpectedLength);
        }
        Ok(hex_upper(sha256_digest))
    }
}

/// The certificate serial number of a SHA-256 digest.
pub open spec fn cert_sn_of(d: Seq<u8>) -> Seq<u8> {
    d.subrange(0, 20).update(0, (d[0] & 0x7f) | 0x04)
}

/// The upper-case ASCII hexadecimal digit of a value below 16.
pub open spec fn hex_digit(n: u8) -> u8 {
    if n < 10 {
        (48 + n) as u8
    } else {
        (55 + n) as u8
    }
}

/// Two upper-case hexadecimal digits per byte, high nibble first.
pub open spec fn hex_of(s: Seq<u8>) -> Seq<u8> {
    Seq::new(
        2 * s.len(),
        |i: int|
            if i % 2 == 0 {
                hex_digit(s[i / 2] / 16)
            } else {
                hex_digit(s[i / 2] % 16)
            },
    )
}

fn hex_digit_exec(n: u8) -> (r: u8)
    requires
        n < 16,
    ensures
        r == hex_digit(n),
{
    if n < 10 {
        48 + n
    } else {
        55 + n
    }
}

/// Encodes bytes as upper-case hexadecimal.
pub fn hex_upper(s: &[u8]) -> (r: Vec<u8>)
    requires
        s@.len() <= 0x1000_0000,
    ensures
        r@ == hex_of(s@),
{
    let mut r: Vec<u8> = Vec::new();
    let mut i: usize = 0;
    while i < s.len()
        invariant
            i <= s@.len() <= 0x1000_0000,
            r@ =~= hex_of(s@.subrange(0, i as int)),
        decreases s@.len() - i,
    {
        let b = s[i];
        r.push(hex_digit_exec(b / 16));
        r.push(hex_digit_exec(b % 16));
        proof {
            let next = s@.subrange(0, i + 1);
            assert(next.subrange(0, i as int) == s@.subrange(0, i as int));
            assert forall|k: int| 0 <= k < 2 * (i + 1) implies r@[k] == hex_of(next)[k] by {
                if k < 2 * i {
                    assert(k / 2 < i);
                } else {
                    assert(k / 2 == i);
                }
            }
        }
        i = i + 1;
    }
    assert(s@.subrange(0, s@.len() as int) == s@);
    r
}

/// The encoding of an ECC public key hashed for its identifiers: the
/// uncompressed point marker 0x04, then x and y.
pub open spec fn ecc_pub_key_encoding(pub_key: Seq<u8>) -> Seq<u8> {
    seq![4u8] + pub_key
}

/// Encodes an ECC public key for hashing.
pub fn encode_ecc_pub_key(pub_key: &[u8]) -> (r: Vec<u8>)
    ensures
        r@ == ecc_pub_key_encoding(pub_key@),
{
    let mut r: Vec<u8> = Vec::new();
    r.push(4u8);
    push_all(&mut r, pub_key);
    assert(r@ =~= ecc_pub_key_encoding(pub_key@));
    r
}

} // verus!
