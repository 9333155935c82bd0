//! Keys of the single-signer scheme: the signing key is a scalar, the
//! verification key a point of the second source group.
use vstd::prelude::*;
use rand::rngs::EntropyRng;
use crate::amcl_utils::{
    draw_entropy, drawn_scalar, g2_canonical, g2_decoded, g2_generator, g2_multiply, g2_product,
    get_G2_point_from_bytes, order_scalar_from_entropy, scalar_of_entropy,
};
use crate::bytes::{copy_bytes, wipe};
use crate::constants::{
    g2_generator_encoding, group_order, scalar_value, GroupG2_SIZE, MODBYTES,
};
use crate::errors::{EntropyUnavailable, SerzDeserzError};

verus! {

/// A secret signing key: a scalar below the group order.
pub struct SigKey {
    x: Vec<u8>,
}

impl View for SigKey {
    type V = Seq<u8>;

    closed spec fn view(&self) -> Seq<u8> {
        self.x@
    }
}

impl SigKey {
    #[verifier::type_invariant]
    spec fn well_formed(&self) -> bool {
        self.x.len() == MODBYTES
    }

    /// Draws a signing key from `rng` or, without one, from the
    /// process-wide entropy source.
    pub fn new(rng: Option<EntropyRng>) -> (r: Result<SigKey, EntropyUnavailable>)
        ensures
            match r {
                Ok(key) => drawn_scalar(key@),
                Err(_) => true,
            },
    {
        let drawn = draw_entropy(rng);
        let filled = drawn.0;
        let mut entropy = drawn.1;
        let made = SigKey::from_entropy(filled, &entropy);
        wipe(&mut entropy);
        made
    }

    /// The signing key that an entropy buffer gives, or the failure of the
    /// source that could not fill it. The same buffer gives the same key.
    pub fn from_entropy(filled: bool, entropy: &Vec<u8>) -> (r: Result<
        SigKey,
        EntropyUnavailable,
    >)
        ensures
            match r {
                Ok(key) => {
                    &&& filled
                    &&& key@ == scalar_of_entropy(entropy@)
                    &&& key@.len() == MODBYTES
                    &&& scalar_value(key@) < group_order()
                },
                Err(_) => !filled,
            },
    {
        match order_scalar_from_entropy(filled, entropy) {
            Ok(x) => Ok(SigKey { x }),
            Err(_) => Err(EntropyUnavailable),
        }
    }

    /// The signing key with the given encoded scalar. Fails unless the
    /// input has the width of a scalar.
    pub fn from_bytes(bytes: &[u8]) -> (r: Result<SigKey, SerzDeserzError>)
        ensures
            bytes.len() == MODBYTES ==> r.is_ok() && r.unwrap()@ == bytes@,
            bytes.len() != MODBYTES ==> r == Err::<SigKey, SerzDeserzError>(
                SerzDeserzError::ScalarBytesIncorrectSize(bytes.len(), MODBYTES),
            ),
    {
        if bytes.len() != MODBYTES {
            return Err(SerzDeserzError::ScalarBytesIncorrectSize(bytes.len(), MODBYTES));
        }
        Ok(SigKey { x: copy_bytes(bytes) })
    }

    /// Overwrites the secret scalar with zeros, once the key has signed for
    /// the last time.
    pub fn zeroize(&mut self)
        ensures
            final(self)@.len() == MODBYTES,
            forall|i: int| 0 <= i < MODBYTES ==> final(self)@[i] == 0u8,
    {
        proof {
            use_type_invariant(&*self);
        }
        wipe(&mut self.x);
    }

    /// The encoded scalar, lent for the arithmetic of signing: no copy of
    /// the secret is made.
    pub(crate) fn scalar(&self) -> (r: &Vec<u8>)
        ensures
            r@ == self@,
            r.len() == MODBYTES,
    {
        proof {
            use_type_invariant(self);
        }
        &self.x
    }
}

/// A public verification key: the generator of the second source group
/// times the signing key.
pub struct VerKey {
    point: Vec<u8>,
}

impl View for VerKey {
    type V = Seq<u8>;

    closed spec fn view(&self) -> Seq<u8> {
        self.point@
    }
}

impl Clone for VerKey {
    fn clone(&self) -> (r: VerKey)
        ensures
            r@ == self@,
    {
        proof {
            use_type_invariant(self);
        }
        VerKey { point: copy_bytes(self.point.as_slice()) }
    }
}

impl VerKey {
    #[verifier::type_invariant]
    spec fn well_formed(&self) -> bool {
        g2_canonical(self.point@)
    }

    /// The verification key of a signing key.
    pub fn from_sigkey(sk: &SigKey) -> (r: VerKey)
        ensures
            r@ == g2_product(g2_generator_encoding(), sk@),
    {
        let generator = g2_generator();
        VerKey { point: g2_multiply(&generator, sk.scalar()) }
    }

    /// The canonical encoding of the key. Decoding it gives the key back.
    pub fn to_bytes(&self) -> (r: Vec<u8>)
        ensures
            r@ == self@,
            r.len() == GroupG2_SIZE,
            g2_decoded(r@) == Some(self@),
    {
        proof {
            use_type_invariant(self);
        }
        copy_bytes(self.point.as_slice())
    }

    /// Decodes a key. Succeeds exactly on the canonical encoding of a
    /// point; an input of another width, or one that encodes no point, is
    /// an error.
    pub fn from_bytes(bytes: &[u8]) -> (r: Result<VerKey, SerzDeserzError>)
        ensures
            match r {
                Ok(decoded) => g2_decoded(bytes@) == Some(decoded@),
                Err(e) => {
                    &&& g2_decoded(bytes@).is_none()
                    &&& bytes.len() != GroupG2_SIZE ==> e == SerzDeserzError::G2BytesIncorrectSize(
                        bytes.len(),
                        GroupG2_SIZE,
                    )
                    &&& bytes.len() == GroupG2_SIZE ==> e == SerzDeserzError::G2BytesMalformed
                },
            },
    {
        match get_G2_point_from_bytes(bytes) {
            Ok(point) => Ok(VerKey { point }),
            Err(e) => Err(e),
        }
    }
}

/// A signing key with its verification key.
pub struct Keypair {
    pub sig_key: SigKey,
    pub ver_key: VerKey,
}

impl Keypair {
    /// Draws a signing key and derives its verification key.
    pub fn new(rng: Option<EntropyRng>) -> (r: Result<Keypair, EntropyUnavailable>)
        ensures
            match r {
                Ok(keypair) => {
                    &&& drawn_scalar(keypair.sig_key@)
                    &&& keypair.ver_key@ == g2_product(g2_generator_encoding(), keypair.sig_key@)
                },
                Err(_) => true,
            },
    {
        let drawn = draw_entropy(rng);
        let filled = drawn.0;
        let mut entropy = drawn.1;
        let made = Keypair::from_entropy(filled, &entropy);
        wipe(&mut entropy);
        made
    }

    /// The key pair that an entropy buffer gives, or the failure of the
    /// source that could not fill it. The same buffer gives the same pair.
    pub fn from_entropy(filled: bool, entropy: &Vec<u8>) -> (r: Result<
        Keypair,
        EntropyUnavailable,
    >)
        ensures
            match r {
                Ok(keypair) => {
                    &&& filled
                    &&& keypair.sig_key@ == scalar_of_entropy(entropy@)
                    &&& keypair.sig_key@.len() == MODBYTES
                    &&& scalar_value(keypair.sig_key@) < group_order()
                    &&& keypair.ver_key@ == g2_product(g2_generator_encoding(), keypair.sig_key@)
                },
                Err(_) => !filled,
            },
    {
        match SigKey::from_entropy(filled, entropy) {
            Ok(sk) => {
                let vk = VerKey::from_sigkey(&sk);
                Ok(Keypair { sig_key: sk, ver_key: vk })
            },
            Err(_) => Err(EntropyUnavailable),
        }
    }
}

} // verus!
