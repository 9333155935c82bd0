//! The single-signer scheme: a signature is the hash of the message on the
//! first source group, times the signing key; it is verified by comparing
//! two pairings.
use vstd::prelude::*;
use crate::amcl_utils::{
    ate_pairing, fp12_equals, g1_canonical, g1_decoded, g1_is_infinity, g1_map, g1_multiply,
    g1_product, g2_generator, get_G1_point_from_bytes, gt_equal, hash_id_sha256, hash_on_GroupG1,
    pairing,
};
use crate::bls::common::{SigKey, VerKey};
use crate::bytes::copy_bytes;
use crate::constants::{g1_identity_encoding, g2_generator_encoding, GroupG1_SIZE};
use crate::errors::SerzDeserzError;

verus! {

/// The point that a message is hashed to.
pub open spec fn message_point(msg: Seq<u8>) -> Seq<u8> {
    g1_map(hash_id_sha256(msg))
}

/// The verification equation: the signature is not the identity, and its
/// pairing with the generator equals the pairing of the key with the
/// message's point.
pub open spec fn bls_equation(sig: Seq<u8>, msg: Seq<u8>, ver_key: Seq<u8>) -> bool {
    &&& sig != g1_identity_encoding()
    &&& gt_equal(pairing(g2_generator_encoding(), sig), pairing(ver_key, message_point(msg)))
}

/// A signature: a point of the first source group.
pub struct Signature {
    point: Vec<u8>,
}

impl View for Signature {
    type V = Seq<u8>;

    closed spec fn view(&self) -> Seq<u8> {
        self.point@
    }
}

impl Clone for Signature {
    fn clone(&self) -> (r: Signature)
        ensures
            r@ == self@,
    {
        proof {
            use_type_invariant(self);
        }
        Signature { point: copy_bytes(self.point.as_slice()) }
    }
}

impl Signature {
    #[verifier::type_invariant]
    spec fn well_formed(&self) -> bool {
        g1_canonical(self.point@)
    }

    /// Signs a message: its point times the signing key. The same message
    /// and key always give the same signature.
    pub fn new(msg: &[u8], sig_key: &SigKey) -> (r: Signature)
        ensures
            r@ == g1_product(message_point(msg@), sig_key@),
    {
        let hash_point = hash_on_GroupG1(msg);
        Signature { point: g1_multiply(&hash_point, sig_key.scalar()) }
    }

    /// Whether the signature is one of `ver_key` over `msg`. A signature
    /// that is the identity never verifies.
    pub fn verify(&self, msg: &[u8], ver_key: &VerKey) -> (r: bool)
        ensures
            r == bls_equation(self@, msg@, ver_key@),
            self@ == g1_identity_encoding() ==> !r,
    {
        proof {
            use_type_invariant(self);
        }
        if g1_is_infinity(&self.point) {
            return false;
        }
        let msg_hash_point = hash_on_GroupG1(msg);
        let generator = g2_generator();
        let vk_bytes = ver_key.to_bytes();
        let lhs = ate_pairing(&generator, &self.point);
        let rhs = ate_pairing(&vk_bytes, &msg_hash_point);
        fp12_equals(&lhs, &rhs)
    }

    /// Decodes a signature. Succeeds exactly on the canonical encoding of
    /// a point; an input of another width, or one that encodes no point, is
    /// an error.
    pub fn from_bytes(sig_bytes: &[u8]) -> (r: Result<Signature, SerzDeserzError>)
        ensures
            match r {
                Ok(decoded) => g1_decoded(sig_bytes@) == Some(decoded@),
                Err(e) => {
                    &&& g1_decoded(sig_bytes@).is_none()
                    &&& sig_bytes.len() != GroupG1_SIZE ==> e == SerzDeserzError::G1BytesIncorrectSize(
                        sig_bytes.len(),
                        GroupG1_SIZE,
                    )
                    &&& sig_bytes.len() == GroupG1_SIZE ==> e == SerzDeserzError::G1BytesMalformed
                },
            },
    {
        match get_G1_point_from_bytes(sig_bytes) {
            Ok(point) => Ok(Signature { point }),
            Err(e) => Err(e),
        }
    }

    /// The canonical encoding of the signature. Decoding it gives the
    /// signature back.
    pub fn to_bytes(&self) -> (r: Vec<u8>)
        ensures
            r@ == self@,
            r.len() == GroupG1_SIZE,
            g1_decoded(r@) == Some(self@),
    {
        proof {
            use_type_invariant(self);
        }
        copy_bytes(self.point.as_slice())
    }
}

} // verus!
