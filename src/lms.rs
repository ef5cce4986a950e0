use vstd::prelude::*;

use crate::cfi::ct_eq;

verus! {

/// The little-endian value of the four bytes of `s` at `at`.
pub open spec fn le_word(s: Seq<u8>, at: int) -> u32 {
    (s[at] as int + s[at + 1] as int * 256 + s[at + 2] as int * 65536 + s[at + 3] as int
        * 16777216) as u32
}

/// The 16-byte identifier of an LMS tree.
pub type LmsIdentifier = [u8; 16];

/// An LMS tree algorithm identifier (RFC 8554 typecode).
#[derive(Clone, Copy, Debug, PartialEq, Eq, Structural)]
pub struct LmsAlgorithmType(pub u32);

impl LmsAlgorithmType {
    #[allow(non_upper_case_globals)]
    pub const LmsReserved: u32 = 0;

    #[allow(non_upper_case_globals)]
    pub const LmsSha256N32H5: u32 = 5;

    #[allow(non_upper_case_globals)]
    pub const LmsSha256N32H10: u32 = 6;

    #[allow(non_upper_case_globals)]
    pub const LmsSha256N32H15: u32 = 7;

    #[allow(non_upper_case_globals)]
    pub const LmsSha256N32H20: u32 = 8;

    #[allow(non_upper_case_globals)]
    pub const LmsSha256N32H25: u32 = 9;

    #[allow(non_upper_case_globals)]
    pub const LmsSha256N24H5: u32 = 10;

    #[allow(non_upper_case_globals)]
    pub const LmsSha256N24H10: u32 = 11;

    #[allow(non_upper_case_globals)]
    pub const LmsSha256N24H15: u32 = 12;

    #[allow(non_upper_case_globals)]
    pub const LmsSha256N24H20: u32 = 13;

    #[allow(non_upper_case_globals)]
    pub const LmsSha256N24H25: u32 = 14;

    pub fn new(val: u32) -> (r: Self)
        ensures
            r.0 == val,
    {
        LmsAlgorithmType(val)
    }
}

/// An LM-OTS algorithm identifier (RFC 8554 typecode).
#[derive(Clone, Copy, Debug, PartialEq, Eq, Structural)]
pub struct LmotsAlgorithmType(pub u32);

impl LmotsAlgorithmType {
    #[allow(non_upper_case_globals)]
    pub const LmotsReserved: u32 = 0;

    #[allow(non_upper_case_globals)]
    pub const LmotsSha256N32W1: u32 = 1;

    #[allow(non_upper_case_globals)]
    pub const LmotsSha256N32W2: u32 = 2;

    #[allow(non_upper_case_globals)]
    pub const LmotsSha256N32W4: u32 = 3;

    #[allow(non_upper_case_globals)]
    pub const LmotsSha256N32W8: u32 = 4;

    #[allow(non_upper_case_globals)]
    pub const LmotsSha256N24W1: u32 = 5;

    #[allow(non_upper_case_globals)]
    pub const LmotsSha256N24W2: u32 = 6;

    #[allow(non_upper_case_globals)]
    pub const LmotsSha256N24W4: u32 = 7;

    #[allow(non_upper_case_globals)]
    pub const LmotsSha256N24W8: u32 = 8;

    pub fn new(val: u32) -> (r: Self)
        ensures
            r.0 == val,
    {
        LmotsAlgorithmType(val)
    }
}

fn word_at(bytes: &[u8], at: usize) -> (r: u32)
    requires
        at + 4 <= bytes@.len(),
    ensures
        r == le_word(bytes@, at as int),
{
    (bytes[at] as u32) + (bytes[at + 1] as u32) * 256 + (bytes[at + 2] as u32) * 65536 + (bytes[at
        + 3] as u32) * 16777216
}

/// Converts 24 bytes to six little-endian words.
pub fn bytes_to_words_6(bytes: [u8; 24]) -> (r: [u32; 6])
    ensures
        forall|i: int| 0 <= i < 6 ==> r@[i] == le_word(bytes@, 4 * i),
{
    let mut result: [u32; 6] = [0u32; 6];
    let mut i: usize = 0;
    while i < 6
        invariant
            i <= 6,
            forall|k: int| 0 <= k < i ==> result@[k] == le_word(bytes@, 4 * k),
        decreases 6 - i,
    {
        result[i] = word_at(&bytes, i * 4);
        i = i + 1;
    }
    result
}

/// Converts 32 bytes to eight little-endian words.
pub fn bytes_to_words_8(bytes: [u8; 32]) -> (r: [u32; 8])
    ensures
        forall|i: int| 0 <= i < 8 ==> r@[i] == le_word(bytes@, 4 * i),
{
    let mut result: [u32; 8] = [0u32; 8];
    let mut i: usize = 0;
    while i < 8
        invariant
            i <= 8,
            forall|k: int| 0 <= k < i ==> result@[k] == le_word(bytes@, 4 * k),
        decreases 8 - i,
    {
        result[i] = word_at(&bytes, i * 4);
        i = i + 1;
    }
    result
}

/// The four little-endian bytes of a word.
pub open spec fn word_le(w: u32) -> Seq<u8> {
    seq![(w & 0xff) as u8, ((w >> 8) & 0xff) as u8, ((w >> 16) & 0xff) as u8, ((w >> 24) & 0xff) as u8]
}

/// The little-endian bytes of a sequence of words.
pub open spec fn words_le(ws: Seq<u32>) -> Seq<u8>
    decreases ws.len(),
{
    if ws.len() == 0 {
        Seq::empty()
    } else {
        words_le(ws.drop_last()) + word_le(ws.last())
    }
}

proof fn word_le_injective(a: u32, b: u32)
    requires
        word_le(a) == word_le(b),
    ensures
        a == b,
{
    assert(word_le(a)[0] == word_le(b)[0]);
    assert(word_le(a)[1] == word_le(b)[1]);
    assert(word_le(a)[2] == word_le(b)[2]);
    assert(word_le(a)[3] == word_le(b)[3]);
    assert((a & 0xff) < 256 && ((a >> 8) & 0xff) < 256 && ((a >> 16) & 0xff) < 256 && ((a >> 24)
        & 0xff) < 256) by (bit_vector);
    assert((b & 0xff) < 256 && ((b >> 8) & 0xff) < 256 && ((b >> 16) & 0xff) < 256 && ((b >> 24)
        & 0xff) < 256) by (bit_vector);
    assert(((a & 0xff) == (b & 0xff) && ((a >> 8) & 0xff) == ((b >> 8) & 0xff) && ((a >> 16)
        & 0xff) == ((b >> 16) & 0xff) && ((a >> 24) & 0xff) == ((b >> 24) & 0xff)) ==> a == b)
        by (bit_vector);
}

proof fn words_le_len(ws: Seq<u32>)
    ensures
        words_le(ws).len() == 4 * ws.len(),
    decreases ws.len(),
{
    if ws.len() > 0 {
        words_le_len(ws.drop_last());
    }
}

proof fn words_le_injective(a: Seq<u32>, b: Seq<u32>)
    requires
        a.len() == b.len(),
        words_le(a) == words_le(b),
    ensures
        a == b,
    decreases a.len(),
{
    if a.len() > 0 {
        let (pa, pb) = (words_le(a.drop_last()), words_le(b.drop_last()));
        words_le_len(a.drop_last());
        words_le_len(b.drop_last());
        assert(pa =~= words_le(a).subrange(0, pa.len() as int));
        assert(pb =~= words_le(b).subrange(0, pb.len() as int));
        assert(word_le(a.last()) =~= words_le(a).subrange(pa.len() as int, words_le(a).len() as int));
        assert(word_le(b.last()) =~= words_le(b).subrange(pb.len() as int, words_le(b).len() as int));
        words_le_injective(a.drop_last(), b.drop_last());
        word_le_injective(a.last(), b.last());
        assert(a =~= a.drop_last().push(a.last()));
        assert(b =~= b.drop_last().push(b.last()));
    }
}

/// The little-endian bytes of `ws`.
pub fn words_to_bytes(ws: &[u32]) -> (r: Vec<u8>)
    ensures
        r@ == words_le(ws@),
{
    let mut r: Vec<u8> = Vec::new();
    let mut i: usize = 0;
    while i < ws.len()
        invariant
            i <= ws@.len(),
            r@ == words_le(ws@.subrange(0, i as int)),
        decreases ws@.len() - i,
    {
        let w = ws[i];
        r.push((w & 0xff) as u8);
        r.push(((w >> 8) & 0xff) as u8);
        r.push(((w >> 16) & 0xff) as u8);
        r.push(((w >> 24) & 0xff) as u8);
        proof {
            let next = ws@.subrange(0, i + 1);
            assert(next.drop_last() =~= ws@.subrange(0, i as int));
            assert(r@ =~= words_le(next));
        }
        i = i + 1;
    }
    assert(ws@.subrange(0, ws@.len() as int) =~= ws@);
    r
}

/// Compares two word strings of one length in constant time.
pub fn ct_words_eq(a: &[u32], b: &[u32]) -> (r: bool)
    requires
        a@.len() == b@.len(),
    ensures
        r == (a@ == b@),
{
    let ab = words_to_bytes(a);
    let bb = words_to_bytes(b);
    let r = ct_eq(ab.as_slice(), bb.as_slice());
    proof {
        if r {
            words_le_injective(a@, b@);
        }
    }
    r
}

/// Compares two arrays of rows in constant time: every row is compared,
/// whatever the outcome of the others.
pub fn ct_rows_eq<const N: usize, const P: usize>(a: &[[u32; N]; P], b: &[[u32; N]; P]) -> (r: bool)
    ensures
        r == (a@ == b@),
{
    let mut all = true;
    let mut i: usize = 0;
    while i < P
        invariant
            i <= P,
            a@.len() == P && b@.len() == P,
            all == (forall|k: int| 0 <= k < i ==> a@[k]@ == b@[k]@),
        decreases P - i,
    {
        let same = ct_words_eq(&a[i], &b[i]);
        all = all && same;
        i = i + 1;
    }
    proof {
        if all {
            assert forall|k: int| 0 <= k < P implies a@[k] == b@[k] by {
                assert(a@[k]@ == b@[k]@);
                assert(a@[k] =~= b@[k]);
            }
            assert(a@ =~= b@);
        }
    }
    all
}

/// An LMS public key with `N`-word digests.
#[derive(Clone, Copy, Debug)]
pub struct LmsPublicKey<const N: usize> {
    pub tree_type: LmsAlgorithmType,
    pub otstype: LmotsAlgorithmType,
    pub id: [u8; 16],
    pub digest: [u32; N],
}

impl<const N: usize> Default for LmsPublicKey<N> {
    fn default() -> (r: Self)
        ensures
            r.tree_type.0 == 0 && r.otstype.0 == 0,
            forall|i: int| 0 <= i < 16 ==> r.id@[i] == 0,
            forall|i: int| 0 <= i < N ==> r.digest@[i] == 0,
    {
        LmsPublicKey {
            tree_type: LmsAlgorithmType(0),
            otstype: LmotsAlgorithmType(0),
            id: [0u8; 16],
            digest: [0u32; N],
        }
    }
}

impl<const N: usize> PartialEq for LmsPublicKey<N> {
    /// Compares the key material in constant time.
    fn eq(&self, other: &Self) -> (r: bool) {
        let same_types = self.tree_type.0 == other.tree_type.0 && self.otstype.0 == other.otstype.0;
        let same_id = ct_eq(&self.id, &other.id);
        let same_digest = ct_words_eq(&self.digest, &other.digest);
        proof {
            if same_id {
                assert(self.id =~= other.id);
            }
        }
        same_types && same_id && same_digest
    }
}

impl<const N: usize> vstd::std_specs::cmp::PartialEqSpecImpl for LmsPublicKey<N> {
    open spec fn obeys_eq_spec() -> bool {
        true
    }

    open spec fn eq_spec(&self, other: &Self) -> bool {
        &&& self.tree_type == other.tree_type
        &&& self.otstype == other.otstype
        &&& self.id@ == other.id@
        &&& self.digest@ == other.digest@
    }
}

/// An LM-OTS signature: `N`-word nonce and `P` chains of `N` words.
#[derive(Clone, Copy, Debug)]
pub struct LmotsSignature<const N: usize, const P: usize> {
    pub ots_type: LmotsAlgorithmType,
    pub nonce: [u32; N],
    pub y: [[u32; N]; P],
}

impl<const N: usize, const P: usize> Default for LmotsSignature<N, P> {
    fn default() -> (r: Self)
        ensures
            r.ots_type.0 == 0,
            forall|i: int| 0 <= i < N ==> r.nonce@[i] == 0,
            forall|i: int, j: int| 0 <= i < P && 0 <= j < N ==> r.y@[i]@[j] == 0,
    {
        LmotsSignature {
            ots_type: LmotsAlgorithmType(0),
            nonce: [0u32; N],
            y: [[0u32; N]; P],
        }
    }
}

impl<const N: usize, const P: usize> PartialEq for LmotsSignature<N, P> {
    /// Compares the signature material in constant time.
    fn eq(&self, other: &Self) -> (r: bool) {
        let same_type = self.ots_type.0 == other.ots_type.0;
        let same_nonce = ct_words_eq(&self.nonce, &other.nonce);
        let same_y = ct_rows_eq(&self.y, &other.y);
        same_type && same_nonce && same_y
    }
}

impl<const N: usize, const P: usize> vstd::std_specs::cmp::PartialEqSpecImpl for LmotsSignature<N, P> {
    open spec fn obeys_eq_spec() -> bool {
        true
    }

    open spec fn eq_spec(&self, other: &Self) -> bool {
        &&& self.ots_type == other.ots_type
        &&& self.nonce@ == other.nonce@
        &&& self.y@ == other.y@
    }
}

/// An LMS signature: leaf index `q`, the one-time signature, and an
/// authentication path of `H` nodes of `N` words.
#[derive(Clone, Copy, Debug)]
pub struct LmsSignature<const N: usize, const P: usize, const H: usize> {
    pub q: u32,
    pub ots: LmotsSignature<N, P>,
    pub tree_type: LmsAlgorithmType,
    pub tree_path: [[u32; N]; H],
}

impl<const N: usize, const P: usize, const H: usize> Default for LmsSignature<N, P, H> {
    fn default() -> (r: Self)
        ensures
            r.q == 0 && r.tree_type.0 == 0 && r.ots.ots_type.0 == 0,
            forall|i: int, j: int| 0 <= i < H && 0 <= j < N ==> r.tree_path@[i]@[j] == 0,
    {
        LmsSignature {
            q: 0,
            ots: LmotsSignature::default(),
            tree_type: LmsAlgorithmType(0),
            tree_path: [[0u32; N]; H],
        }
    }
}

impl<const N: usize, const P: usize, const H: usize> PartialEq for LmsSignature<N, P, H> {
    /// Compares the signature material in constant time.
    fn eq(&self, other: &Self) -> (r: bool) {
        let same_q = self.q == other.q;
        let same_ots = self.ots.eq(&other.ots);
        let same_type = self.tree_type.0 == other.tree_type.0;
        let same_path = ct_rows_eq(&self.tree_path, &other.tree_path);
        same_q && same_ots && same_type && same_path
    }
}

impl<const N: usize, const P: usize, const H: usize> vstd::std_specs::cmp::PartialEqSpecImpl for LmsSignature<N, P, H> {
    open spec fn obeys_eq_spec() -> bool {
        true
    }

    open spec fn eq_spec(&self, other: &Self) -> bool {
        &&& self.q == other.q
        &&& self.ots.ots_type == other.ots.ots_type
        &&& self.ots.nonce@ == other.ots.nonce@
        &&& self.ots.y@ == other.ots.y@
        &&& self.tree_type == other.tree_type
        &&& self.tree_path@ == other.tree_path@
    }
}

/// An LMS private key with an `N`-word seed.
#[derive(Clone, Copy, Debug)]
pub struct LmsPrivateKey<const N: usize> {
    pub tree_type: LmsAlgorithmType,
    pub otstype: LmotsAlgorithmType,
    pub id: LmsIdentifier,
    pub seed: [u32; N],
}

impl<const N: usize> Default for LmsPrivateKey<N> {
    fn default() -> (r: Self)
        ensures
            r.tree_type.0 == 0 && r.otstype.0 == 0,
            forall|i: int| 0 <= i < 16 ==> r.id@[i] == 0,
            forall|i: int| 0 <= i < N ==> r.seed@[i] == 0,
    {
        LmsPrivateKey {
            tree_type: LmsAlgorithmType(0),
            otstype: LmotsAlgorithmType(0),
            id: [0u8; 16],
            seed: [0u32; N],
        }
    }
}

} // verus!
