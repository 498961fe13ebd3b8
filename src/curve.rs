use vstd::prelude::*;

use crate::block::Block;
use crate::error::MalformedPoint;
use curve25519_dalek::constants::RISTRETTO_BASEPOINT_TABLE;
use curve25519_dalek::ristretto::CompressedRistretto;
use curve25519_dalek::scalar::Scalar as DalekScalar;
use rand::SeedableRng;
use rand_chacha::ChaCha20Rng;

verus! {

/// Whether 32 bytes are the canonical encoding of a Ristretto group element.
pub uninterp spec fn is_point(b: Seq<u8>) -> bool;

/// The encoding of `s·G`, for the scalar with bytes `s` and the base point `G`.
pub uninterp spec fn base_mul_of(s: Seq<u8>) -> Seq<u8>;

/// The encoding of `s·P`, for the scalar with bytes `s` and the point encoded by `p`.
pub uninterp spec fn mul_of(s: Seq<u8>, p: Seq<u8>) -> Seq<u8>;

/// The encoding of `P + Q`.
pub uninterp spec fn add_of(p: Seq<u8>, q: Seq<u8>) -> Seq<u8>;

/// The encoding of `P - Q`.
pub uninterp spec fn sub_of(p: Seq<u8>, q: Seq<u8>) -> Seq<u8>;

/// The scalar that `Scalar::random` draws from a ChaCha20 generator seeded
/// with `seed` and set to word position `word_pos`.
pub uninterp spec fn chacha_scalar(seed: Seq<u8>, word_pos: u128) -> Seq<u8>;

/// The `k`-th scalar of the stream seeded with `seed`: each scalar takes 16
/// words of the stream.
pub open spec fn seeded_scalar(seed: Seq<u8>, k: nat) -> Seq<u8> {
    chacha_scalar(seed, (16 * k) as u128)
}

/// The `n` scalars of the stream seeded with `seed` from the `start`-th on.
pub open spec fn seeded_scalars(seed: Seq<u8>, start: nat, n: nat) -> Seq<Seq<u8>> {
    Seq::new(n, |i: int| seeded_scalar(seed, start + i as nat))
}

/// The BLAKE3 digest of a message.
pub uninterp spec fn blake3_of(m: Seq<u8>) -> Seq<u8>;

/// Relies on `CompressedRistretto::decompress`: it succeeds exactly on the
/// canonical encodings of group elements.
#[verifier::external_body]
fn decompresses(b: &[u8; 32]) -> (r: bool)
    ensures
        r == is_point(b@),
{
    CompressedRistretto(*b).decompress().is_some()
}

/// Relies on multiplication by `RISTRETTO_BASEPOINT_TABLE`; the compressed
/// result is a canonical encoding.
#[verifier::external_body]
fn base_mul_bytes(s: &[u8; 32]) -> (r: [u8; 32])
    ensures
        r@ == base_mul_of(s@),
        is_point(r@),
{
    (&DalekScalar::from_bytes_mod_order(*s) * RISTRETTO_BASEPOINT_TABLE).compress().to_bytes()
}

/// Relies on `Scalar * RistrettoPoint`; the compressed result is a canonical
/// encoding.
#[verifier::external_body]
fn mul_bytes(s: &[u8; 32], p: &[u8; 32]) -> (r: [u8; 32])
    requires
        is_point(p@),
    ensures
        r@ == mul_of(s@, p@),
        is_point(r@),
{
    let q = CompressedRistretto(*p).decompress().unwrap();
    (DalekScalar::from_bytes_mod_order(*s) * q).compress().to_bytes()
}

/// Relies on `RistrettoPoint + RistrettoPoint`; the compressed result is a
/// canonical encoding.
#[verifier::external_body]
fn add_bytes(p: &[u8; 32], q: &[u8; 32]) -> (r: [u8; 32])
    requires
        is_point(p@),
        is_point(q@),
    ensures
        r@ == add_of(p@, q@),
        is_point(r@),
{
    let p = CompressedRistretto(*p).decompress().unwrap();
    let q = CompressedRistretto(*q).decompress().unwrap();
    (p + q).compress().to_bytes()
}

/// Relies on `RistrettoPoint - RistrettoPoint`; the compressed result is a
/// canonical encoding.
#[verifier::external_body]
fn sub_bytes(p: &[u8; 32], q: &[u8; 32]) -> (r: [u8; 32])
    requires
        is_point(p@),
        is_point(q@),
    ensures
        r@ == sub_of(p@, q@),
        is_point(r@),
{
    let p = CompressedRistretto(*p).decompress().unwrap();
    let q = CompressedRistretto(*q).decompress().unwrap();
    (p - q).compress().to_bytes()
}

/// Relies on `ChaCha20Rng::from_seed`, `set_word_pos` and `Scalar::random`:
/// the scalar drawn from the generator seeded with `seed` once it stands at
/// word `word_pos`, as its canonical bytes. It reads 64 bytes, that is 16
/// words, of the stream.
#[verifier::external_body]
fn scalar_at(seed: &[u8; 32], word_pos: u128) -> (r: [u8; 32])
    ensures
        r@ == chacha_scalar(seed@, word_pos),
{
    let mut rng = ChaCha20Rng::from_seed(*seed);
    rng.set_word_pos(word_pos);
    DalekScalar::random(&mut rng).to_bytes()
}

/// Relies on `ChaCha20Rng::from_entropy` and `get_seed`: a seed drawn from
/// system entropy.
#[verifier::external_body]
pub(crate) fn entropy_seed() -> (r: [u8; 32]) {
    ChaCha20Rng::from_entropy().get_seed()
}

/// Relies on `blake3::hash`: the 32-byte digest of the message.
#[verifier::external_body]
fn blake3_digest(m: &[u8]) -> (r: [u8; 32])
    ensures
        r@ == blake3_of(m@),
{
    *blake3::hash(m).as_bytes()
}

/// A secret scalar, held as its 32 canonical bytes.
pub struct Secret {
    bytes: [u8; 32],
}

impl View for Secret {
    type V = Seq<u8>;

    closed spec fn view(&self) -> Seq<u8> {
        self.bytes@
    }
}

impl Secret {
    /// The `k`-th scalar of the stream seeded with `seed`.
    pub(crate) fn seeded(seed: &[u8; 32], k: usize) -> (r: Secret)
        ensures
            r@ == seeded_scalar(seed@, k as nat),
    {
        let word_pos: u128 = 16 * (k as u128);
        Secret { bytes: scalar_at(seed, word_pos) }
    }
}

/// A Ristretto group element, held as its canonical 32-byte encoding.
#[derive(Clone, Copy, Debug)]
pub struct Point {
    bytes: [u8; 32],
}

impl View for Point {
    type V = Seq<u8>;

    closed spec fn view(&self) -> Seq<u8> {
        self.bytes@
    }
}

impl Point {
    #[verifier::type_invariant]
    spec fn inv(&self) -> bool {
        is_point(self.bytes@)
    }

    /// Reads a point from its encoding; `None` on a non-canonical or
    /// non-group encoding.
    pub fn from_bytes(bytes: [u8; 32]) -> (r: Option<Point>)
        ensures
            r.is_some() == is_point(bytes@),
            r matches Some(p) ==> p@ == bytes@,
    {
        if decompresses(&bytes) {
            Some(Point { bytes })
        } else {
            None
        }
    }

    /// The canonical encoding of the point.
    pub fn to_bytes(&self) -> (r: [u8; 32])
        ensures
            r@ == self@,
    {
        self.bytes
    }

    /// `s·G`.
    pub fn base_mul(s: &Secret) -> (r: Point)
        ensures
            r@ == base_mul_of(s@),
    {
        Point { bytes: base_mul_bytes(&s.bytes) }
    }

    /// `s·P`.
    pub fn mul(&self, s: &Secret) -> (r: Point)
        ensures
            r@ == mul_of(s@, self@),
    {
        proof {
            use_type_invariant(self);
        }
        Point { bytes: mul_bytes(&s.bytes, &self.bytes) }
    }

    /// `P + Q`.
    pub fn add(&self, q: &Point) -> (r: Point)
        ensures
            r@ == add_of(self@, q@),
    {
        proof {
            use_type_invariant(self);
            use_type_invariant(q);
        }
        Point { bytes: add_bytes(&self.bytes, &q.bytes) }
    }

    /// `P - Q`.
    pub fn sub(&self, q: &Point) -> (r: Point)
        ensures
            r@ == sub_of(self@, q@),
    {
        proof {
            use_type_invariant(self);
            use_type_invariant(q);
        }
        Point { bytes: sub_bytes(&self.bytes, &q.bytes) }
    }

    /// Equality of the encodings, which for canonical encodings is equality
    /// of the group elements.
    pub fn equals(&self, q: &Point) -> (r: bool)
        ensures
            r == (self@ == q@),
    {
        let mut i: usize = 0;
        while i < 32
            invariant
                i <= 32,
                forall|j: int| 0 <= j < i ==> self.bytes@[j] == q.bytes@[j],
            decreases 32 - i,
        {
            if self.bytes[i] != q.bytes[i] {
                return false;
            }
            i = i + 1;
        }
        assert(self.bytes@ =~= q.bytes@);
        true
    }
}

/// The encodings of a sequence of points.
pub open spec fn encodings(v: Seq<Point>) -> Seq<Seq<u8>> {
    v.map_values(|p: Point| p@)
}

/// Reads a sequence of points from their encodings; `MalformedPoint` when
/// any of them is not the canonical encoding of a group element.
pub fn decode_points(encoded: &[[u8; 32]]) -> (r: Result<Vec<Point>, MalformedPoint>)
    ensures
        r is Ok <==> forall|i: int| 0 <= i < encoded@.len() ==> is_point(#[trigger] encoded@[i]@),
        r matches Ok(v) ==> encodings(v@) == encoded@.map_values(|e: [u8; 32]| e@),
{
    let mut out: Vec<Point> = Vec::new();
    let mut i: usize = 0;
    while i < encoded.len()
        invariant
            i <= encoded@.len(),
            out@.len() == i,
            forall|j: int| 0 <= j < i ==> is_point(#[trigger] encoded@[j]@),
            forall|j: int| 0 <= j < i ==> (#[trigger] out@[j])@ == encoded@[j]@,
        decreases encoded@.len() - i,
    {
        match Point::from_bytes(encoded[i]) {
            Some(p) => out.push(p),
            None => {
                return Err(MalformedPoint);
            },
        }
        i = i + 1;
    }
    assert(encodings(out@) =~= encoded@.map_values(|e: [u8; 32]| e@));
    Ok(out)
}

/// The 16 little-endian bytes of a tweak.
pub open spec fn tweak_bytes(t: u128) -> Seq<u8> {
    Seq::new(16, |i: int| ((t >> ((8 * i) as u128)) & 0xffu128) as u8)
}

/// The key derived from a point under a tweak: the first 16 bytes of the
/// BLAKE3 digest of the tweak's little-endian bytes followed by the point's
/// encoding.
pub open spec fn point_key(p: Seq<u8>, t: u128) -> Seq<u8> {
    blake3_of(tweak_bytes(t) + p).subrange(0, 16)
}

/// Derives a block from a point and a tweak.
pub fn hash_point(p: &Point, tweak: u128) -> (r: Block)
    ensures
        r.bytes@ == point_key(p@, tweak),
{
    let mut msg: Vec<u8> = Vec::new();
    let mut i: usize = 0;
    while i < 16
        invariant
            i <= 16,
            msg@ =~= tweak_bytes(tweak).subrange(0, i as int),
        decreases 16 - i,
    {
        let sh: u128 = 8 * (i as u128);
        msg.push(((tweak >> sh) & 0xffu128) as u8);
        i = i + 1;
    }
    let enc = p.to_bytes();
    let mut j: usize = 0;
    while j < 32
        invariant
            j <= 32,
            enc@ == p@,
            p@.len() == 32,
            msg@ =~= tweak_bytes(tweak) + p@.subrange(0, j as int),
        decreases 32 - j,
    {
        msg.push(enc[j]);
        j = j + 1;
    }
    assert(p@.subrange(0, 32) =~= p@);
    let digest = blake3_digest(msg.as_slice());
    let mut out: [u8; 16] = [0u8; 16];
    let mut k: usize = 0;
    while k < 16
        invariant
            k <= 16,
            digest@ == blake3_of(tweak_bytes(tweak) + p@),
            forall|m: int| 0 <= m < k ==> out@[m] == digest@[m],
        decreases 16 - k,
    {
        out[k] = digest[k];
        k = k + 1;
    }
    let r = Block { bytes: out };
    assert(r.bytes@ =~= point_key(p@, tweak));
    r
}

} // verus!
