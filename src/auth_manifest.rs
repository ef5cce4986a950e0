use vstd::prelude::*;

use crate::lms::{LmsPrivateKey, LmsPublicKey, LmsSignature};

verus! {

/// Marker at the start of an image authorization manifest ("ATMN").
pub const AUTH_MANIFEST_MARKER: u32 = 0x4154_4D4E;

/// Capacity of the image metadata list.
pub const AUTH_MANIFEST_IMAGE_METADATA_MAX_COUNT: usize = 16;

/// Words of a SHA-192 digest, the LMS hash used for images.
pub const IMAGE_LMS_DIGEST_WORDS: usize = 6;

/// Size in bytes of an image ECC public key (x and y, 12 words each).
pub const IMAGE_ECC_PUB_KEY_SIZE: usize = 96;

/// Size in bytes of an image ECC signature (r and s, 12 words each).
pub const IMAGE_ECC_SIGNATURE_SIZE: usize = 96;

/// Size in bytes of an image LMS public key: two typecodes, the 16-byte
/// identifier and the digest.
pub const IMAGE_LMS_PUB_KEY_SIZE: usize = 4 + 4 + 16 + 4 * IMAGE_LMS_DIGEST_WORDS;

/// Size in bytes of an image LMS signature: `q`, the one-time signature (its
/// typecode, nonce and 51 chains), the tree typecode and the 15-node path.
pub const IMAGE_LMS_SIGNATURE_SIZE: usize = 4 + (4 + 4 * IMAGE_LMS_DIGEST_WORDS + 4
    * IMAGE_LMS_DIGEST_WORDS * 51) + 4 + 4 * IMAGE_LMS_DIGEST_WORDS * 15;

/// Size in bytes of a set of public keys.
pub const AUTH_MANIFEST_PUB_KEYS_SIZE: usize = IMAGE_ECC_PUB_KEY_SIZE + IMAGE_LMS_PUB_KEY_SIZE;

/// Size in bytes of a set of signatures.
pub const AUTH_MANIFEST_SIGNATURES_SIZE: usize = IMAGE_ECC_SIGNATURE_SIZE
    + IMAGE_LMS_SIGNATURE_SIZE;

/// Offsets of the preamble fields: four words, then the key and signature
/// sets in order, without padding.
pub const PREAMBLE_VERSION_OFFSET: usize = 8;

pub const PREAMBLE_VENDOR_PUB_KEYS_OFFSET: usize = 16;

pub const PREAMBLE_VENDOR_SIGNATURES_OFFSET: usize = PREAMBLE_VENDOR_PUB_KEYS_OFFSET
    + AUTH_MANIFEST_PUB_KEYS_SIZE;

pub const PREAMBLE_OWNER_PUB_KEYS_OFFSET: usize = PREAMBLE_VENDOR_SIGNATURES_OFFSET
    + AUTH_MANIFEST_SIGNATURES_SIZE;

pub const PREAMBLE_OWNER_SIGNATURES_OFFSET: usize = PREAMBLE_OWNER_PUB_KEYS_OFFSET
    + AUTH_MANIFEST_PUB_KEYS_SIZE;

pub const PREAMBLE_SIZE: usize = PREAMBLE_OWNER_SIGNATURES_OFFSET + AUTH_MANIFEST_SIGNATURES_SIZE;

/// Manifest flags; only the vendor-signature-required bit is defined.
#[derive(Clone, Copy, Debug, Default, PartialEq, Eq, Structural)]
pub struct AuthManifestFlags(pub u32);

impl AuthManifestFlags {
    pub const VENDOR_SIGNATURE_REQURIED: u32 = 0b1;
}

impl From<u32> for AuthManifestFlags {
    /// Keeps the defined bits and drops the others.
    fn from(value: u32) -> (r: Self) {
        AuthManifestFlags(value & 1)
    }
}

impl vstd::std_specs::convert::FromSpecImpl<u32> for AuthManifestFlags {
    open spec fn obeys_from_spec() -> bool {
        true
    }

    open spec fn from_spec(value: u32) -> Self {
        AuthManifestFlags(value & 1)
    }
}

/// An image ECC-384 public key.
#[derive(Clone, Copy, Debug, Default)]
pub struct ImageEccPubKey {
    pub x: [u32; 12],
    pub y: [u32; 12],
}

/// An image ECC-384 signature.
#[derive(Clone, Copy, Debug, Default)]
pub struct ImageEccSignature {
    pub r: [u32; 12],
    pub s: [u32; 12],
}

/// An image ECC-384 private key.
#[derive(Clone, Copy, Debug, Default)]
pub struct ImageEccPrivKey(pub [u32; 12]);

#[derive(Clone, Copy, Debug, Default)]
pub struct AuthManifestPubKeys {
    pub ecc_pub_key: ImageEccPubKey,
    pub lms_pub_key: LmsPublicKey<6>,
}

#[derive(Clone, Copy, Debug, Default)]
pub struct AuthManifestPrivKeys {
    pub ecc_priv_key: ImageEccPrivKey,
    pub lms_priv_key: LmsPrivateKey<6>,
}

#[derive(Clone, Copy, Debug, Default)]
pub struct AuthManifestSignatures {
    pub ecc_sig: ImageEccSignature,
    pub lms_sig: LmsSignature<6, 51, 15>,
}

/// Image authorization manifest preamble.
#[derive(Clone, Copy, Debug, Default)]
pub struct AuthManifestPreamble {
    pub marker: u32,
    pub size: u32,
    pub version: u32,
    pub flags: u32,
    pub vendor_pub_keys: AuthManifestPubKeys,
    pub vendor_pub_keys_signatures: AuthManifestSignatures,
    pub owner_pub_keys: AuthManifestPubKeys,
    pub owner_pub_keys_signatures: AuthManifestSignatures,
}

impl AuthManifestPreamble {
    /// The bytes signed by the vendor: version, flags and vendor public keys.
    pub fn vendor_signed_data_range() -> (r: core::ops::Range<u32>)
        ensures
            r.start == PREAMBLE_VERSION_OFFSET,
            r.end == PREAMBLE_VENDOR_SIGNATURES_OFFSET,
    {
        (PREAMBLE_VERSION_OFFSET as u32)..(PREAMBLE_VENDOR_SIGNATURES_OFFSET as u32)
    }

    /// The bytes of the vendor public key signatures.
    pub fn vendor_pub_keys_signatures_range() -> (r: core::ops::Range<u32>)
        ensures
            r.start == PREAMBLE_VENDOR_SIGNATURES_OFFSET,
            r.end == PREAMBLE_OWNER_PUB_KEYS_OFFSET,
    {
        (PREAMBLE_VENDOR_SIGNATURES_OFFSET as u32)..(PREAMBLE_OWNER_PUB_KEYS_OFFSET as u32)
    }

    /// The bytes of the owner public keys.
    pub fn owner_pub_keys_range() -> (r: core::ops::Range<u32>)
        ensures
            r.start == PREAMBLE_OWNER_PUB_KEYS_OFFSET,
            r.end == PREAMBLE_OWNER_SIGNATURES_OFFSET,
    {
        (PREAMBLE_OWNER_PUB_KEYS_OFFSET as u32)..(PREAMBLE_OWNER_SIGNATURES_OFFSET as u32)
    }

    /// The bytes of the owner public key signatures.
    pub fn owner_pub_keys_signatures_range() -> (r: core::ops::Range<u32>)
        ensures
            r.start == PREAMBLE_OWNER_SIGNATURES_OFFSET,
            r.end == PREAMBLE_SIZE,
    {
        (PREAMBLE_OWNER_SIGNATURES_OFFSET as u32)..(PREAMBLE_SIZE as u32)
    }
}

/// Metadata of one authorized image: its digest and where it comes from.
#[derive(Clone, Copy, Debug)]
pub struct AuthManifestImageMetadata {
    pub digest: [u8; 48],
    pub image_source: u32,
}

impl Default for AuthManifestImageMetadata {
    fn default() -> (r: Self)
        ensures
            r.image_source == 0,
            forall|i: int| 0 <= i < 48 ==> r.digest@[i] == 0,
    {
        AuthManifestImageMetadata { digest: [0u8; 48], image_source: 0 }
    }
}

#[derive(Clone, Copy, Debug, Default)]
pub struct AuthManifestImageMetadataSetHeader {
    pub revision: u32,
    pub reserved: [u8; 12],
    pub entry_count: u32,
}

#[derive(Clone, Copy, Debug, Default)]
pub struct AuthManifestImageMetadataSet {
    pub header: AuthManifestImageMetadataSetHeader,
    pub image_metadata_list: [AuthManifestImageMetadata; 16],
}

#[derive(Clone, Copy, Debug, Default)]
pub struct AuthManifestImageMetadataSetWithPublicKeys {
    pub auth_manifest_flags: u32,
    pub vendor_pub_keys: AuthManifestPubKeys,
    pub owner_pub_keys: AuthManifestPubKeys,
    pub image_metadata: AuthManifestImageMetadataSet,
}

#[derive(Clone, Copy, Debug, Default)]
pub struct AuthManifestImageMetadataWithSignatures {
    pub vendor_signatures: AuthManifestSignatures,
    pub owner_signatures: AuthManifestSignatures,
    pub image_metadata: AuthManifestImageMetadataSet,
}

/// Image authorization manifest.
#[derive(Clone, Copy, Debug, Default)]
pub struct AuthorizationManifest {
    pub preamble: AuthManifestPreamble,
}

} // verus!
