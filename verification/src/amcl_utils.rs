//! The arithmetic that the schemes take from `amcl`, on byte encodings, and
//! the hashing and sampling helpers built on it.
use vstd::prelude::*;
use amcl::bls381::big::BIG;
use amcl::bls381::ecp::ECP;
use amcl::bls381::ecp2::ECP2;
use amcl::bls381::fp12::FP12;
use amcl::rand::RAND;
use rand::rngs::EntropyRng;
use rand::RngCore;
use crate::constants::{
    g1_generator_encoding, g1_identity_encoding, g2_generator_encoding, group_order,
    group_order_encoding, scalar_value, ENTROPY_SIZE, FP12_SIZE, GroupG1_SIZE, GroupG2_SIZE, MODBYTES,
};
use crate::bytes::{bytes_equal, wipe};
use crate::errors::{EntropyUnavailable, SerzDeserzError};

verus! {

/// The entropy source of the `rand` crate.
#[verifier::external_type_specification]
#[verifier::external_body]
pub struct ExEntropyRng(EntropyRng);

/// The scalar that `BIG::randomnum` draws below `order` from a generator
/// seeded with `seed`.
pub uninterp spec fn seeded_random(order: Seq<u8>, seed: Seq<u8>) -> Seq<u8>;

/// The SHA-256 digest of a message, as `mpin::hash_id` computes it.
pub uninterp spec fn sha256_digest(msg: Seq<u8>) -> Seq<u8>;

/// The field-width digest of a message: sixteen zero bytes, then its
/// SHA-256 digest.
pub open spec fn hash_id_sha256(msg: Seq<u8>) -> Seq<u8> {
    Seq::new(16, |i: int| 0u8) + sha256_digest(msg)
}

/// The canonical encoding of the point that `ECP::frombytes` reads.
pub uninterp spec fn g1_decode(b: Seq<u8>) -> Seq<u8>;

/// The encoding of the point that `ECP::mapit` maps a digest to.
pub uninterp spec fn g1_map(h: Seq<u8>) -> Seq<u8>;

/// The encoding of the scalar multiple as `ECP::mul` leaves it.
pub uninterp spec fn g1_mul(p: Seq<u8>, k: Seq<u8>) -> Seq<u8>;

/// The encoding of the sum as `ECP::add` leaves it.
pub uninterp spec fn g1_add(p: Seq<u8>, q: Seq<u8>) -> Seq<u8>;

/// The canonical encoding of the point that `ECP2::frombytes` reads.
pub uninterp spec fn g2_decode(b: Seq<u8>) -> Seq<u8>;

/// The encoding of the point that `ECP2::mapit` maps a digest to.
pub uninterp spec fn g2_map(h: Seq<u8>) -> Seq<u8>;

/// The encoding of the scalar multiple as `ECP2::mul` leaves it.
pub uninterp spec fn g2_mul(p: Seq<u8>, k: Seq<u8>) -> Seq<u8>;

/// The encoding of the Miller-loop value that `pair::ate` computes.
pub uninterp spec fn ate_miller(p2: Seq<u8>, p1: Seq<u8>) -> Seq<u8>;

/// The encoding of the value that `pair::fexp` computes.
pub uninterp spec fn final_exp(f: Seq<u8>) -> Seq<u8>;

/// Whether `FP12::equals` holds of the two encoded target-group elements.
pub uninterp spec fn gt_equal(a: Seq<u8>, b: Seq<u8>) -> bool;

/// An encoding that decodes to itself: the canonical encoding of a point.
pub open spec fn g1_canonical(b: Seq<u8>) -> bool {
    b.len() == GroupG1_SIZE && g1_decode(b) == b
}

/// What decoding a byte string as a point of the first source group gives:
/// the string itself where it is the canonical encoding of a point, and
/// nothing where it is not.
pub open spec fn g1_decoded(bytes: Seq<u8>) -> Option<Seq<u8>> {
    if g1_canonical(bytes) {
        Some(bytes)
    } else {
        None
    }
}

/// An encoding of the second source group that decodes to itself.
pub open spec fn g2_canonical(b: Seq<u8>) -> bool {
    b.len() == GroupG2_SIZE && g2_decode(b) == b
}

/// What decoding a byte string as a point of the second source group
/// gives: the string itself where it is the canonical encoding of a point,
/// and nothing where it is not.
pub open spec fn g2_decoded(bytes: Seq<u8>) -> Option<Seq<u8>> {
    if g2_canonical(bytes) {
        Some(bytes)
    } else {
        None
    }
}

/// The pairing of two encoded points, final exponentiation applied.
pub open spec fn pairing(p2: Seq<u8>, p1: Seq<u8>) -> Seq<u8> {
    final_exp(ate_miller(p2, p1))
}

/// `rom::CURVE_ORDER` through `BIG::new_ints`: the encoded group order.
#[verifier::external_body]
pub(crate) fn curve_order() -> (r: Vec<u8>)
    ensures
        r@ == group_order_encoding(),
        r.len() == MODBYTES,
        scalar_value(r@) == group_order(),
{
    let mut out = [0u8; MODBYTES];
    BIG::new_ints(&amcl::bls381::rom::CURVE_ORDER).tobytes(&mut out);
    out.to_vec()
}

/// `BIG::modmul`: the product of the two scalars, reduced modulo `m`.
#[verifier::external_body]
pub(crate) fn big_modmul(a: &Vec<u8>, b: &Vec<u8>, m: &Vec<u8>) -> (r: Vec<u8>)
    requires
        a.len() == MODBYTES,
        b.len() == MODBYTES,
        m.len() == MODBYTES,
        scalar_value(m@) > 0,
    ensures
        r.len() == MODBYTES,
        scalar_value(r@) == (scalar_value(a@) * scalar_value(b@)) % scalar_value(m@),
{
    let mut out = [0u8; MODBYTES];
    BIG::modmul(&BIG::frombytes(a), &BIG::frombytes(b), &BIG::frombytes(m)).tobytes(&mut out);
    out.to_vec()
}

/// `BIG::add`: the sum of two scalars below the group order, which the
/// encoding holds in full.
#[verifier::external_body]
pub(crate) fn big_add(a: &Vec<u8>, b: &Vec<u8>) -> (r: Vec<u8>)
    requires
        a.len() == MODBYTES,
        b.len() == MODBYTES,
        scalar_value(a@) < group_order(),
        scalar_value(b@) < group_order(),
    ensures
        r.len() == MODBYTES,
        scalar_value(r@) == scalar_value(a@) + scalar_value(b@),
{
    let mut out = [0u8; MODBYTES];
    let mut sum = BIG::frombytes(a);
    sum.add(&BIG::frombytes(b));
    sum.tobytes(&mut out);
    out.to_vec()
}

/// `BIG::rmod`: the scalar reduced modulo `m`.
#[verifier::external_body]
pub(crate) fn big_rmod(a: &Vec<u8>, m: &Vec<u8>) -> (r: Vec<u8>)
    requires
        a.len() == MODBYTES,
        m.len() == MODBYTES,
        scalar_value(m@) > 0,
    ensures
        r.len() == MODBYTES,
        scalar_value(r@) == scalar_value(a@) % scalar_value(m@),
{
    let mut out = [0u8; MODBYTES];
    let mut x = BIG::frombytes(a);
    x.rmod(&BIG::frombytes(m));
    x.tobytes(&mut out);
    out.to_vec()
}

/// `BIG::randomnum` on a `RAND` seeded with `seed`: a scalar below `order`
/// that the seed and the order determine.
#[verifier::external_body]
pub(crate) fn seeded_scalar(order: &Vec<u8>, seed: &Vec<u8>) -> (r: Vec<u8>)
    requires
        order.len() == MODBYTES,
        scalar_value(order@) > 0,
    ensures
        r@ == seeded_random(order@, seed@),
        r.len() == MODBYTES,
        scalar_value(r@) < scalar_value(order@),
{
    let mut out = [0u8; MODBYTES];
    let mut generator = RAND::new();
    generator.clean();
    generator.seed(seed.len(), seed);
    BIG::randomnum(&BIG::frombytes(order), &mut generator).tobytes(&mut out);
    out.to_vec()
}

/// `EntropyRng::new`: a handle on the process-wide entropy source.
#[verifier::external_body]
pub(crate) fn default_entropy() -> (r: EntropyRng) {
    EntropyRng::new()
}

/// `RngCore::try_fill_bytes`: overwrites the buffer with entropy and tells
/// whether the source could supply it. The length of the buffer stays.
#[verifier::external_body]
pub(crate) fn try_fill_entropy(rng: &mut EntropyRng, buf: &mut Vec<u8>) -> (filled: bool)
    ensures
        final(buf).len() == old(buf).len(),
{
    rng.try_fill_bytes(buf.as_mut_slice()).is_ok()
}

/// `mpin::hash_id` with SHA-256: the digest of the message, padded in
/// front with zero bytes to the width of a scalar.
#[verifier::external_body]
pub(crate) fn sha256_id(msg: &[u8]) -> (r: Vec<u8>)
    ensures
        r@ == hash_id_sha256(msg@),
        r@.subrange(16, 48) == sha256_digest(msg@),
        r.len() == MODBYTES,
{
    let mut out = [0u8; MODBYTES];
    amcl::bls381::mpin::hash_id(amcl::bls381::mpin::SHA256, msg, &mut out);
    out.to_vec()
}

/// `ECP::generator`: the encoded generator of the first source group.
#[verifier::external_body]
pub(crate) fn g1_generator() -> (r: Vec<u8>)
    ensures
        r@ == g1_generator_encoding(),
        g1_canonical(r@),
{
    let mut out = [0u8; GroupG1_SIZE];
    ECP::generator().tobytes(&mut out, false);
    out.to_vec()
}

/// `ECP::inf`: the encoded identity of the first source group, which is
/// the affine pair (0, 1) behind the marker byte of an uncompressed point.
#[verifier::external_body]
pub(crate) fn g1_identity() -> (r: Vec<u8>)
    ensures
        r@ == g1_identity_encoding(),
        g1_canonical(r@),
{
    let mut out = [0u8; GroupG1_SIZE];
    let mut point = ECP::new();
    point.inf();
    point.tobytes(&mut out, false);
    out.to_vec()
}

/// `ECP::frombytes`: reads a point and encodes it again. What is no point
/// of the curve is read as the identity.
#[verifier::external_body]
pub(crate) fn g1_from_bytes(bytes: &[u8]) -> (r: Vec<u8>)
    requires
        bytes.len() == GroupG1_SIZE,
    ensures
        r@ == g1_decode(bytes@),
        g1_canonical(r@),
{
    let mut out = [0u8; GroupG1_SIZE];
    ECP::frombytes(bytes).tobytes(&mut out, false);
    out.to_vec()
}

/// `ECP::mapit`: the point that a digest is mapped to.
#[verifier::external_body]
pub(crate) fn g1_mapit(h: &Vec<u8>) -> (r: Vec<u8>)
    requires
        h.len() == MODBYTES,
    ensures
        r@ == g1_map(h@),
        g1_canonical(r@),
{
    let mut out = [0u8; GroupG1_SIZE];
    ECP::mapit(h).tobytes(&mut out, false);
    out.to_vec()
}

/// `ECP::mul`: an encoding of the point multiplied by the scalar. Where
/// the product is the identity, the encoding need not be the canonical one.
#[verifier::external_body]
pub(crate) fn g1_scalar_mul(p: &Vec<u8>, k: &Vec<u8>) -> (r: Vec<u8>)
    requires
        p.len() == GroupG1_SIZE,
        k.len() == MODBYTES,
    ensures
        r@ == g1_mul(p@, k@),
        r.len() == GroupG1_SIZE,
{
    let mut out = [0u8; GroupG1_SIZE];
    ECP::frombytes(p).mul(&BIG::frombytes(k)).tobytes(&mut out, false);
    out.to_vec()
}

/// `ECP::add`: an encoding of the sum of the two points. Where the sum is
/// the identity, the encoding need not be the canonical one.
#[verifier::external_body]
pub(crate) fn g1_point_add(p: &Vec<u8>, q: &Vec<u8>) -> (r: Vec<u8>)
    requires
        p.len() == GroupG1_SIZE,
        q.len() == GroupG1_SIZE,
    ensures
        r@ == g1_add(p@, q@),
        r.len() == GroupG1_SIZE,
{
    let mut out = [0u8; GroupG1_SIZE];
    let mut sum = ECP::frombytes(p);
    sum.add(&ECP::frombytes(q));
    sum.tobytes(&mut out, false);
    out.to_vec()
}

/// `ECP::is_infinity`: whether the bytes are read as the identity.
#[verifier::external_body]
pub(crate) fn g1_is_infinity(p: &Vec<u8>) -> (r: bool)
    requires
        p.len() == GroupG1_SIZE,
    ensures
        r == (g1_decode(p@) == g1_identity_encoding()),
{
    ECP::frombytes(p).is_infinity()
}

/// `ECP::equals`: whether the two byte strings are read as the same point.
#[verifier::external_body]
pub(crate) fn g1_equals(p: &Vec<u8>, q: &Vec<u8>) -> (r: bool)
    requires
        p.len() == GroupG1_SIZE,
        q.len() == GroupG1_SIZE,
    ensures
        r == (g1_decode(p@) == g1_decode(q@)),
{
    ECP::frombytes(p).equals(&ECP::frombytes(q))
}

/// `ECP2::generator`: the encoded generator of the second source group.
#[verifier::external_body]
pub(crate) fn g2_generator() -> (r: Vec<u8>)
    ensures
        r@ == g2_generator_encoding(),
        g2_canonical(r@),
{
    let mut out = [0u8; GroupG2_SIZE];
    ECP2::generator().tobytes(&mut out);
    out.to_vec()
}

/// `ECP2::frombytes`: reads a point of the second source group and encodes
/// it again. What is no point of the curve is read as the identity.
#[verifier::external_body]
pub(crate) fn g2_from_bytes(bytes: &[u8]) -> (r: Vec<u8>)
    requires
        bytes.len() == GroupG2_SIZE,
    ensures
        r@ == g2_decode(bytes@),
        g2_canonical(r@),
{
    let mut out = [0u8; GroupG2_SIZE];
    ECP2::frombytes(bytes).tobytes(&mut out);
    out.to_vec()
}

/// `ECP2::mapit`: an encoding of the point of the second source group that
/// a digest is mapped to.
#[verifier::external_body]
pub(crate) fn g2_mapit(h: &Vec<u8>) -> (r: Vec<u8>)
    requires
        h.len() == MODBYTES,
    ensures
        r@ == g2_map(h@),
        r.len() == GroupG2_SIZE,
{
    let mut out = [0u8; GroupG2_SIZE];
    ECP2::mapit(h).tobytes(&mut out);
    out.to_vec()
}

/// `ECP2::mul`: an encoding of the point of the second source group
/// multiplied by the scalar. Where the product is the identity, the
/// encoding need not be the canonical one.
#[verifier::external_body]
pub(crate) fn g2_scalar_mul(p: &Vec<u8>, k: &Vec<u8>) -> (r: Vec<u8>)
    requires
        p.len() == GroupG2_SIZE,
        k.len() == MODBYTES,
    ensures
        r@ == g2_mul(p@, k@),
        r.len() == GroupG2_SIZE,
{
    let mut out = [0u8; GroupG2_SIZE];
    ECP2::frombytes(p).mul(&BIG::frombytes(k)).tobytes(&mut out);
    out.to_vec()
}

/// `pair::ate`: the Miller loop of the two points.
#[verifier::external_body]
pub(crate) fn ate(p2: &Vec<u8>, p1: &Vec<u8>) -> (r: Vec<u8>)
    requires
        p2.len() == GroupG2_SIZE,
        p1.len() == GroupG1_SIZE,
    ensures
        r@ == ate_miller(p2@, p1@),
        r.len() == FP12_SIZE,
{
    let mut out = [0u8; FP12_SIZE];
    amcl::bls381::pair::ate(&ECP2::frombytes(p2), &ECP::frombytes(p1)).tobytes(&mut out);
    out.to_vec()
}

/// `pair::fexp`: the final exponentiation of a Miller-loop value.
#[verifier::external_body]
pub(crate) fn fexp(f: &Vec<u8>) -> (r: Vec<u8>)
    requires
        f.len() == FP12_SIZE,
    ensures
        r@ == final_exp(f@),
        r.len() == FP12_SIZE,
{
    let mut out = [0u8; FP12_SIZE];
    amcl::bls381::pair::fexp(&FP12::frombytes(f)).tobytes(&mut out);
    out.to_vec()
}

/// `FP12::equals`: whether the two encodings are read as the same element
/// of the target group.
#[verifier::external_body]
pub(crate) fn fp12_equals(a: &Vec<u8>, b: &Vec<u8>) -> (r: bool)
    requires
        a.len() == FP12_SIZE,
        b.len() == FP12_SIZE,
    ensures
        r == gt_equal(a@, b@),
{
    FP12::frombytes(a).equals(&FP12::frombytes(b))
}

/// The scalar drawn from a filled entropy buffer, or the failure of the
/// source that could not fill it.
pub fn scalar_from_entropy(order: &Vec<u8>, filled: bool, entropy: &Vec<u8>) -> (r: Result<
    Vec<u8>,
    EntropyUnavailable,
>)
    requires
        order.len() == MODBYTES,
        scalar_value(order@) > 0,
    ensures
        match r {
            Ok(scalar) => {
                &&& filled
                &&& scalar@ == seeded_random(order@, entropy@)
                &&& scalar.len() == MODBYTES
                &&& scalar_value(scalar@) < scalar_value(order@)
            },
            Err(_) => !filled,
        },
{
    if filled {
        Ok(seeded_scalar(order, entropy))
    } else {
        Err(EntropyUnavailable)
    }
}

/// Draws a uniform scalar below `order` from `ENTROPY_SIZE` bytes of
/// entropy, taken from `rng` or, without one, from the process-wide source.
/// Fails only when the source cannot supply the bytes.
pub fn random_big_number(order: &Vec<u8>, rng: Option<EntropyRng>) -> (r: Result<
    Vec<u8>,
    EntropyUnavailable,
>)
    requires
        order.len() == MODBYTES,
        scalar_value(order@) > 0,
    ensures
        match r {
            Ok(scalar) => {
                &&& scalar.len() == MODBYTES
                &&& scalar_value(scalar@) < scalar_value(order@)
                &&& exists|seed: Seq<u8>|
                    seed.len() == ENTROPY_SIZE && scalar@ == #[trigger] seeded_random(
                        order@,
                        seed,
                    )
            },
            Err(_) => true,
        },
{
    let drawn = draw_entropy(rng);
    let filled = drawn.0;
    let mut entropy = drawn.1;
    let scalar = scalar_from_entropy(order, filled, &entropy);
    wipe(&mut entropy);
    scalar
}

/// Hashes a message onto the first source group.
pub fn hash_on_GroupG1(msg: &[u8]) -> (r: Vec<u8>)
    ensures
        r@ == g1_map(hash_id_sha256(msg@)),
        g1_canonical(r@),
{
    let h = sha256_id(msg);
    g1_mapit(&h)
}

/// Hashes a message onto the second source group, in canonical encoding.
pub fn hash_on_GroupG2(msg: &[u8]) -> (r: Vec<u8>)
    ensures
        r@ == g2_decode(g2_map(hash_id_sha256(msg@))),
        g2_canonical(r@),
{
    let h = sha256_id(msg);
    let raw = g2_mapit(&h);
    g2_from_bytes(raw.as_slice())
}

/// Hashes a message to a scalar.
pub fn hash_as_BigNum(msg: &[u8]) -> (r: Vec<u8>)
    ensures
        r@ == hash_id_sha256(msg@),
        r.len() == MODBYTES,
{
    sha256_id(msg)
}

/// The pairing of a point of the second source group with one of the first,
/// with the final exponentiation applied.
pub fn ate_pairing(point_G2: &Vec<u8>, point_G1: &Vec<u8>) -> (r: Vec<u8>)
    requires
        point_G2.len() == GroupG2_SIZE,
        point_G1.len() == GroupG1_SIZE,
    ensures
        r@ == pairing(point_G2@, point_G1@),
        r.len() == FP12_SIZE,
{
    let e = ate(point_G2, point_G1);
    fexp(&e)
}

/// Asks the entropy source for `ENTROPY_SIZE` bytes: `rng` or, without
/// one, the process-wide source. Returns whether the source supplied them,
/// and the buffer.
pub fn draw_entropy(rng: Option<EntropyRng>) -> (r: (bool, Vec<u8>))
    ensures
        r.1.len() == ENTROPY_SIZE,
{
    let mut entropy: Vec<u8> = Vec::new();
    let mut i: usize = 0;
    while i < ENTROPY_SIZE
        invariant
            i <= ENTROPY_SIZE,
            entropy.len() == i,
        decreases ENTROPY_SIZE - i,
    {
        entropy.push(0u8);
        i = i + 1;
    }
    let mut source = match rng {
        Some(given) => given,
        None => default_entropy(),
    };
    let filled = try_fill_entropy(&mut source, &mut entropy);
    (filled, entropy)
}

/// The scalar below the group order that a filled entropy buffer gives.
pub open spec fn scalar_of_entropy(entropy: Seq<u8>) -> Seq<u8> {
    seeded_random(group_order_encoding(), entropy)
}

/// Whether a scalar is one that some filled entropy buffer of
/// `ENTROPY_SIZE` bytes gives.
pub open spec fn drawn_scalar(x: Seq<u8>) -> bool {
    &&& x.len() == MODBYTES
    &&& scalar_value(x) < group_order()
    &&& exists|seed: Seq<u8>| seed.len() == ENTROPY_SIZE && x == #[trigger] scalar_of_entropy(seed)
}

/// The scalar below the group order that an entropy buffer gives, or the
/// failure of the source that could not fill it.
pub fn order_scalar_from_entropy(filled: bool, entropy: &Vec<u8>) -> (r: Result<
    Vec<u8>,
    EntropyUnavailable,
>)
    ensures
        match r {
            Ok(scalar) => {
                &&& filled
                &&& scalar@ == scalar_of_entropy(entropy@)
                &&& scalar.len() == MODBYTES
                &&& scalar_value(scalar@) < group_order()
            },
            Err(_) => !filled,
        },
{
    let order = curve_order();
    scalar_from_entropy(&order, filled, entropy)
}

/// The canonical encoding of a point times a scalar.
pub open spec fn g1_product(p: Seq<u8>, k: Seq<u8>) -> Seq<u8> {
    g1_decode(g1_mul(p, k))
}

/// The canonical encoding of the sum of two points.
pub open spec fn g1_sum(p: Seq<u8>, q: Seq<u8>) -> Seq<u8> {
    g1_decode(g1_add(p, q))
}

/// The canonical encoding of a point of the second source group times a
/// scalar.
pub open spec fn g2_product(p: Seq<u8>, k: Seq<u8>) -> Seq<u8> {
    g2_decode(g2_mul(p, k))
}

/// A point times a scalar, in canonical encoding.
pub fn g1_multiply(p: &Vec<u8>, k: &Vec<u8>) -> (r: Vec<u8>)
    requires
        p.len() == GroupG1_SIZE,
        k.len() == MODBYTES,
    ensures
        r@ == g1_product(p@, k@),
        g1_canonical(r@),
{
    let raw = g1_scalar_mul(p, k);
    g1_from_bytes(raw.as_slice())
}

/// The sum of two points, in canonical encoding.
pub fn g1_combine(p: &Vec<u8>, q: &Vec<u8>) -> (r: Vec<u8>)
    requires
        p.len() == GroupG1_SIZE,
        q.len() == GroupG1_SIZE,
    ensures
        r@ == g1_sum(p@, q@),
        g1_canonical(r@),
{
    let raw = g1_point_add(p, q);
    g1_from_bytes(raw.as_slice())
}

/// A point of the second source group times a scalar, in canonical
/// encoding.
pub fn g2_multiply(p: &Vec<u8>, k: &Vec<u8>) -> (r: Vec<u8>)
    requires
        p.len() == GroupG2_SIZE,
        k.len() == MODBYTES,
    ensures
        r@ == g2_product(p@, k@),
        g2_canonical(r@),
{
    let raw = g2_scalar_mul(p, k);
    g2_from_bytes(raw.as_slice())
}

/// Decodes a point of the first source group. Succeeds exactly on the
/// canonical encoding of a point, and then returns it; a string of another
/// width, or one that reads back as other bytes, is an error.
pub fn get_G1_point_from_bytes(bytes: &[u8]) -> (r: Result<Vec<u8>, SerzDeserzError>)
    ensures
        match r {
            Ok(point) => g1_decoded(bytes@) == Some(point@),
            Err(e) => {
                &&& g1_decoded(bytes@).is_none()
                &&& bytes.len() != GroupG1_SIZE ==> e == SerzDeserzError::G1BytesIncorrectSize(
                    bytes.len(),
                    GroupG1_SIZE,
                )
                &&& bytes.len() == GroupG1_SIZE ==> e == SerzDeserzError::G1BytesMalformed
            },
        },
{
    if bytes.len() != GroupG1_SIZE {
        return Err(SerzDeserzError::G1BytesIncorrectSize(bytes.len(), GroupG1_SIZE));
    }
    let point = g1_from_bytes(bytes);
    if bytes_equal(point.as_slice(), bytes) {
        Ok(point)
    } else {
        Err(SerzDeserzError::G1BytesMalformed)
    }
}

/// Decodes a point of the second source group. Succeeds exactly on the
/// canonical encoding of a point, and then returns it; a string of another
/// width, or one that reads back as other bytes, is an error.
pub fn get_G2_point_from_bytes(bytes: &[u8]) -> (r: Result<Vec<u8>, SerzDeserzError>)
    ensures
        match r {
            Ok(point) => g2_decoded(bytes@) == Some(point@),
            Err(e) => {
                &&& g2_decoded(bytes@).is_none()
                &&& bytes.len() != GroupG2_SIZE ==> e == SerzDeserzError::G2BytesIncorrectSize(
                    bytes.len(),
                    GroupG2_SIZE,
                )
                &&& bytes.len() == GroupG2_SIZE ==> e == SerzDeserzError::G2BytesMalformed
            },
        },
{
    if bytes.len() != GroupG2_SIZE {
        return Err(SerzDeserzError::G2BytesIncorrectSize(bytes.len(), GroupG2_SIZE));
    }
    let point = g2_from_bytes(bytes);
    if bytes_equal(point.as_slice(), bytes) {
        Ok(point)
    } else {
        Err(SerzDeserzError::G2BytesMalformed)
    }
}

/// An encoding that differs from a point's encoding never decodes to that
/// point: it is rejected, or it is another point.
pub proof fn lemma_changed_g1_encoding_is_another_point(intact: Seq<u8>, changed: Seq<u8>)
    requires
        changed != intact,
    ensures
        g1_decoded(changed) != Some(intact),
{
}

/// An encoding that differs from the encoding of a point of the second
/// source group never decodes to that point.
pub proof fn lemma_changed_g2_encoding_is_another_point(intact: Seq<u8>, changed: Seq<u8>)
    requires
        changed != intact,
    ensures
        g2_decoded(changed) != Some(intact),
{
}

} // verus!
