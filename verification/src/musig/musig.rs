//! MuSig: key aggregation that resists rogue keys, nonce aggregation,
//! partial signatures, their aggregate and its verification.
//!
//! Every signer and the verifier must pass the verification keys in one
//! agreed order: the digest of the key set, and so the aggregated key,
//! depend on it.
use vstd::prelude::*;
use vstd::arithmetic::div_mod::{
    lemma_add_mod_noop, lemma_add_mod_noop_right, lemma_mul_mod_noop_left,
};
use rand::rngs::EntropyRng;
use crate::amcl_utils::{
    big_add, big_modmul, big_rmod, curve_order, draw_entropy, drawn_scalar, g1_canonical,
    g1_combine, g1_decoded, g1_equals, g1_generator, g1_identity, g1_multiply, g1_product, g1_sum,
    get_G1_point_from_bytes, hash_as_BigNum, hash_id_sha256, order_scalar_from_entropy,
    scalar_of_entropy,
};
use crate::bytes::{append_bytes, copy_bytes, take_secret, wipe, wipe_secret, zero_scalar};
use crate::constants::{
    g1_generator_encoding, g1_identity_encoding, group_order, scalar_value,
    GroupG_Size, MODBYTES,
};
use crate::errors::{EntropyUnavailable, SerzDeserzError};

verus! {

/// The scalar of a partial signature: `challenge * coefficient * secret +
/// nonce`, modulo the group order.
pub open spec fn partial_signature_value(
    challenge: nat,
    coefficient: nat,
    secret: nat,
    nonce: nat,
) -> nat {
    (challenge * coefficient * secret + nonce) % group_order()
}

/// The Fiat-Shamir challenge: the digest of the aggregated key, the
/// aggregated nonce and the message, in this order.
pub open spec fn challenge_of(msg: Seq<u8>, aggr_verkey: Seq<u8>, aggr_nonce: Seq<u8>) -> Seq<u8> {
    hash_id_sha256(aggr_verkey + aggr_nonce + msg)
}

/// The coefficient of one key within a key set of the given digest.
pub open spec fn coefficient_of(digest: Seq<u8>, verkey: Seq<u8>) -> Seq<u8> {
    hash_id_sha256(digest + verkey)
}

/// The verification equation: the generator times `s` is the aggregated
/// nonce plus the aggregated key times the challenge.
pub open spec fn musig_equation(s: Seq<u8>, msg: Seq<u8>, aggr_nonce: Seq<u8>, aggr_verkey: Seq<u8>) -> bool {
    g1_sum(
        g1_sum(g1_identity_encoding(), aggr_nonce),
        g1_product(aggr_verkey, challenge_of(msg, aggr_verkey, aggr_nonce)),
    ) == g1_product(g1_generator_encoding(), s)
}

/// A secret signing key: a scalar below the group order.
pub struct SigKey {
    x: Vec<u8>,
}

impl View for SigKey {
    type V = Seq<u8>;

    closed spec fn view(&self) -> Seq<u8> {
        self.x@
    }
}

impl SigKey {
    #[verifier::type_invariant]
    spec fn well_formed(&self) -> bool {
        self.x.len() == MODBYTES
    }

    /// Draws a signing key from `rng` or, without one, from the
    /// process-wide entropy source.
    pub fn new(rng: Option<EntropyRng>) -> (r: Result<SigKey, EntropyUnavailable>)
        ensures
            match r {
                Ok(key) => drawn_scalar(key@),
                Err(_) => true,
            },
    {
        let drawn = draw_entropy(rng);
        let filled = drawn.0;
        let mut entropy = drawn.1;
        let made = SigKey::from_entropy(filled, &entropy);
        wipe(&mut entropy);
        made
    }

    /// The signing key that an entropy buffer gives, or the failure of the
    /// source that could not fill it. The same buffer gives the same key.
    pub fn from_entropy(filled: bool, entropy: &Vec<u8>) -> (r: Result<
        SigKey,
        EntropyUnavailable,
    >)
        ensures
            match r {
                Ok(key) => {
                    &&& filled
                    &&& key@ == scalar_of_entropy(entropy@)
                    &&& key@.len() == MODBYTES
                    &&& scalar_value(key@) < group_order()
                },
                Err(_) => !filled,
            },
    {
        match order_scalar_from_entropy(filled, entropy) {
            Ok(x) => Ok(SigKey { x }),
            Err(_) => Err(EntropyUnavailable),
        }
    }

    /// The signing key with the given encoded scalar. Fails unless the
    /// input has the width of a scalar.
    pub fn from_bytes(bytes: &[u8]) -> (r: Result<SigKey, SerzDeserzError>)
        ensures
            bytes.len() == MODBYTES ==> r.is_ok() && r.unwrap()@ == bytes@,
            bytes.len() != MODBYTES ==> r == Err::<SigKey, SerzDeserzError>(
                SerzDeserzError::ScalarBytesIncorrectSize(bytes.len(), MODBYTES),
            ),
    {
        if bytes.len() != MODBYTES {
            return Err(SerzDeserzError::ScalarBytesIncorrectSize(bytes.len(), MODBYTES));
        }
        Ok(SigKey { x: copy_bytes(bytes) })
    }

    /// Overwrites the secret scalar with zeros, once the key has signed for
    /// the last time.
    pub fn zeroize(&mut self)
        ensures
            final(self)@.len() == MODBYTES,
            forall|i: int| 0 <= i < MODBYTES ==> final(self)@[i] == 0u8,
    {
        proof {
            use_type_invariant(&*self);
        }
        wipe(&mut self.x);
    }
}

/// A public verification key: the generator times the signing key.
pub struct VerKey {
    point: Vec<u8>,
}

impl View for VerKey {
    type V = Seq<u8>;

    closed spec fn view(&self) -> Seq<u8> {
        self.point@
    }
}

impl Clone for VerKey {
    fn clone(&self) -> (r: VerKey)
        ensures
            r@ == self@,
    {
        proof {
            use_type_invariant(self);
        }
        VerKey { point: copy_bytes(self.point.as_slice()) }
    }
}

impl VerKey {
    #[verifier::type_invariant]
    spec fn well_formed(&self) -> bool {
        g1_canonical(self.point@)
    }

    /// The verification key of a signing key.
    pub fn from_sigkey(sk: &SigKey) -> (r: VerKey)
        ensures
            r@ == g1_product(g1_generator_encoding(), sk@),
            g1_canonical(r@),
    {
        proof {
            use_type_invariant(sk);
        }
        let generator = g1_generator();
        VerKey { point: g1_multiply(&generator, &sk.x) }
    }

    /// The canonical encoding of the key. Decoding it gives the key back.
    pub fn to_bytes(&self) -> (r: Vec<u8>)
        ensures
            r@ == self@,
            r.len() == GroupG_Size,
            g1_decoded(r@) == Some(self@),
    {
        proof {
            use_type_invariant(self);
        }
        copy_bytes(self.point.as_slice())
    }

    /// Decodes a key. Succeeds exactly on the canonical encoding of a
    /// point; an input of another width, or one that encodes no point, is
    /// an error.
    pub fn from_bytes(bytes: &[u8]) -> (r: Result<VerKey, SerzDeserzError>)
        ensures
            match r {
                Ok(decoded) => g1_decoded(bytes@) == Some(decoded@),
                Err(e) => {
                    &&& g1_decoded(bytes@).is_none()
                    &&& bytes.len() != GroupG_Size ==> e == SerzDeserzError::G1BytesIncorrectSize(
                        bytes.len(),
                        GroupG_Size,
                    )
                    &&& bytes.len() == GroupG_Size ==> e == SerzDeserzError::G1BytesMalformed
                },
            },
    {
        match get_G1_point_from_bytes(bytes) {
            Ok(point) => Ok(VerKey { point }),
            Err(e) => Err(e),
        }
    }
}

/// A signing key with its verification key.
pub struct Keypair {
    pub sig_key: SigKey,
    pub ver_key: VerKey,
}

impl Keypair {
    /// Draws a signing key and derives its verification key.
    pub fn new(rng: Option<EntropyRng>) -> (r: Result<Keypair, EntropyUnavailable>)
        ensures
            match r {
                Ok(keypair) => {
                    &&& drawn_scalar(keypair.sig_key@)
                    &&& keypair.ver_key@ == g1_product(g1_generator_encoding(), keypair.sig_key@)
                },
                Err(_) => true,
            },
    {
        let drawn = draw_entropy(rng);
        let filled = drawn.0;
        let mut entropy = drawn.1;
        let made = Keypair::from_entropy(filled, &entropy);
        wipe(&mut entropy);
        made
    }

    /// The key pair that an entropy buffer gives, or the failure of the
    /// source that could not fill it. The same buffer gives the same pair.
    pub fn from_entropy(filled: bool, entropy: &Vec<u8>) -> (r: Result<
        Keypair,
        EntropyUnavailable,
    >)
        ensures
            match r {
                Ok(keypair) => {
                    &&& filled
                    &&& keypair.sig_key@ == scalar_of_entropy(entropy@)
                    &&& keypair.sig_key@.len() == MODBYTES
                    &&& scalar_value(keypair.sig_key@) < group_order()
                    &&& keypair.ver_key@ == g1_product(g1_generator_encoding(), keypair.sig_key@)
                },
                Err(_) => !filled,
            },
    {
        match SigKey::from_entropy(filled, entropy) {
            Ok(sk) => {
                let vk = VerKey::from_sigkey(&sk);
                Ok(Keypair { sig_key: sk, ver_key: vk })
            },
            Err(_) => Err(EntropyUnavailable),
        }
    }
}

/// A nonce commitment: a point and, with the signer who drew it only, the
/// secret scalar behind it.
pub struct Nonce {
    x: Option<Vec<u8>>,
    point: Vec<u8>,
}

impl View for Nonce {
    type V = Seq<u8>;

    /// The commitment point.
    closed spec fn view(&self) -> Seq<u8> {
        self.point@
    }
}

impl Clone for Nonce {
    fn clone(&self) -> (r: Nonce)
        ensures
            r@ == self@,
            r.secret_view() == self.secret_view(),
    {
        proof {
            use_type_invariant(self);
        }
        let x = match &self.x {
            Some(secret) => Some(copy_bytes(secret.as_slice())),
            None => None,
        };
        Nonce { x, point: copy_bytes(self.point.as_slice()) }
    }
}

impl Nonce {
    #[verifier::type_invariant]
    spec fn well_formed(&self) -> bool {
        &&& g1_canonical(self.point@)
        &&& self.x.is_some() ==> self.x.unwrap().len() == MODBYTES
    }

    /// The secret scalar, where the nonce carries one.
    pub closed spec fn secret_view(&self) -> Option<Seq<u8>> {
        match self.x {
            Some(secret) => Some(secret@),
            None => None,
        }
    }

    /// Draws a nonce: a secret scalar and the generator times it.
    pub fn new(rng: Option<EntropyRng>) -> (r: Result<Nonce, EntropyUnavailable>)
        ensures
            match r {
                Ok(nonce) => {
                    &&& nonce.secret_view().is_some()
                    &&& drawn_scalar(nonce.secret_view().unwrap())
                    &&& nonce@ == g1_product(g1_generator_encoding(), nonce.secret_view().unwrap())
                },
                Err(_) => true,
            },
    {
        let drawn = draw_entropy(rng);
        let filled = drawn.0;
        let mut entropy = drawn.1;
        let made = Nonce::from_entropy(filled, &entropy);
        wipe(&mut entropy);
        made
    }

    /// The nonce that an entropy buffer gives: the secret scalar drawn from
    /// it and the generator times that scalar; or the failure of the source
    /// that could not fill the buffer.
    pub fn from_entropy(filled: bool, entropy: &Vec<u8>) -> (r: Result<
        Nonce,
        EntropyUnavailable,
    >)
        ensures
            match r {
                Ok(nonce) => {
                    &&& filled
                    &&& nonce.secret_view() == Some(scalar_of_entropy(entropy@))
                    &&& scalar_of_entropy(entropy@).len() == MODBYTES
                    &&& scalar_value(scalar_of_entropy(entropy@)) < group_order()
                    &&& nonce@ == g1_product(g1_generator_encoding(), scalar_of_entropy(entropy@))
                },
                Err(_) => !filled,
            },
    {
        match order_scalar_from_entropy(filled, entropy) {
            Ok(x) => {
                let generator = g1_generator();
                let point = g1_multiply(&generator, &x);
                Ok(Nonce { x: Some(x), point })
            },
            Err(_) => Err(EntropyUnavailable),
        }
    }

    /// The sum of the commitment points, from the identity on, in the
    /// order of the list.
    pub open spec fn sum_of(nonces: Seq<Nonce>) -> Seq<u8>
        decreases nonces.len(),
    {
        if nonces.len() == 0 {
            g1_identity_encoding()
        } else {
            g1_sum(Self::sum_of(nonces.drop_last()), nonces.last()@)
        }
    }

    /// The aggregated nonce: the sum of all commitments, without a secret.
    pub fn aggregate(nonces: &Vec<Nonce>) -> (r: Nonce)
        ensures
            r@ == Self::sum_of(nonces@),
            r.secret_view().is_none(),
    {
        let mut an = g1_identity();
        let mut i: usize = 0;
        while i < nonces.len()
            invariant
                i <= nonces.len(),
                g1_canonical(an@),
                an@ == Self::sum_of(nonces@.take(i as int)),
            decreases nonces.len() - i,
        {
            let n = &nonces[i];
            proof {
                use_type_invariant(n);
                assert(nonces@.take(i + 1).drop_last() =~= nonces@.take(i as int));
            }
            an = g1_combine(&an, &n.point);
            i = i + 1;
        }
        assert(nonces@.take(nonces.len() as int) =~= nonces@);
        Nonce { x: None, point: an }
    }

    /// A copy of the secret scalar, where the nonce carries one.
    pub fn secret(&self) -> (r: Option<Vec<u8>>)
        ensures
            r.is_some() == self.secret_view().is_some(),
            r.is_some() ==> r.unwrap()@ == self.secret_view().unwrap() && r.unwrap().len()
                == MODBYTES,
    {
        proof {
            use_type_invariant(self);
        }
        match &self.x {
            Some(secret) => Some(copy_bytes(secret.as_slice())),
            None => None,
        }
    }

    /// Hands the secret scalar out for its one signing session: the nonce
    /// keeps the commitment and no secret, so that a second session cannot
    /// take the same secret from it.
    pub fn take_secret(&mut self) -> (r: Option<Vec<u8>>)
        ensures
            final(self)@ == old(self)@,
            final(self).secret_view().is_none(),
            r.is_some() == old(self).secret_view().is_some(),
            r.is_some() ==> r.unwrap()@ == old(self).secret_view().unwrap() && r.unwrap().len()
                == MODBYTES,
    {
        proof {
            use_type_invariant(&*self);
        }
        take_secret(&mut self.x)
    }

    /// Overwrites the secret scalar with zeros and drops it, once the
    /// nonce has been used in its one signing session. The commitment
    /// stays.
    pub fn discard_secret(&mut self)
        ensures
            final(self)@ == old(self)@,
            final(self).secret_view().is_none(),
    {
        proof {
            use_type_invariant(&*self);
        }
        wipe_secret(&mut self.x);
    }

    /// The canonical encoding of the commitment point. Decoding it gives
    /// the point back.
    pub fn to_bytes(&self) -> (r: Vec<u8>)
        ensures
            r@ == self@,
            r.len() == GroupG_Size,
            g1_decoded(r@) == Some(self@),
    {
        proof {
            use_type_invariant(self);
        }
        copy_bytes(self.point.as_slice())
    }

    /// Decodes a commitment, which then carries no secret. Succeeds exactly
    /// on the canonical encoding of a point; an input of another width, or
    /// one that encodes no point, is an error.
    pub fn from_bytes(bytes: &[u8]) -> (r: Result<Nonce, SerzDeserzError>)
        ensures
            match r {
                Ok(decoded) => g1_decoded(bytes@) == Some(decoded@) && decoded.secret_view().is_none(),
                Err(e) => {
                    &&& g1_decoded(bytes@).is_none()
                    &&& bytes.len() != GroupG_Size ==> e == SerzDeserzError::G1BytesIncorrectSize(
                        bytes.len(),
                        GroupG_Size,
                    )
                    &&& bytes.len() == GroupG_Size ==> e == SerzDeserzError::G1BytesMalformed
                },
            },
    {
        match get_G1_point_from_bytes(bytes) {
            Ok(point) => Ok(Nonce { x: None, point }),
            Err(e) => Err(e),
        }
    }
}

/// The digest of a set of verification keys, taken in the order given.
pub struct HashedVerKeys {
    b: Vec<u8>,
}

impl View for HashedVerKeys {
    type V = Seq<u8>;

    closed spec fn view(&self) -> Seq<u8> {
        self.b@
    }
}

impl HashedVerKeys {
    #[verifier::type_invariant]
    spec fn well_formed(&self) -> bool {
        self.b.len() == MODBYTES
    }

    /// The encodings of the keys, one after the other.
    pub open spec fn concat_of(verkeys: Seq<VerKey>) -> Seq<u8>
        decreases verkeys.len(),
    {
        if verkeys.len() == 0 {
            Seq::<u8>::empty()
        } else {
            Self::concat_of(verkeys.drop_last()) + verkeys.last()@
        }
    }

    /// Hashes the encodings of all keys, in the order of the list.
    pub fn new(verkeys: &Vec<VerKey>) -> (r: HashedVerKeys)
        ensures
            r@ == hash_id_sha256(Self::concat_of(verkeys@)),
    {
        let mut bytes: Vec<u8> = Vec::new();
        let mut i: usize = 0;
        while i < verkeys.len()
            invariant
                i <= verkeys.len(),
                bytes@ == Self::concat_of(verkeys@.take(i as int)),
            decreases verkeys.len() - i,
        {
            let vk_bytes = verkeys[i].to_bytes();
            proof {
                assert(verkeys@.take(i + 1).drop_last() =~= verkeys@.take(i as int));
            }
            append_bytes(&mut bytes, vk_bytes.as_slice());
            i = i + 1;
        }
        assert(verkeys@.take(verkeys.len() as int) =~= verkeys@);
        HashedVerKeys { b: hash_as_BigNum(bytes.as_slice()) }
    }

    /// The coefficient of one key: the digest of the set, hashed again
    /// together with the key's encoding.
    pub fn hash_with_verkey(&self, verkey: &VerKey) -> (r: Vec<u8>)
        ensures
            r@ == coefficient_of(self@, verkey@),
            r.len() == MODBYTES,
    {
        let mut bytes: Vec<u8> = Vec::new();
        append_bytes(&mut bytes, self.b.as_slice());
        let vk_bytes = verkey.to_bytes();
        append_bytes(&mut bytes, vk_bytes.as_slice());
        assert(bytes@ =~= self@ + verkey@);
        hash_as_BigNum(bytes.as_slice())
    }
}

/// The aggregated verification key of a set of signers.
pub struct AggregatedVerKey {
    point: Vec<u8>,
}

impl View for AggregatedVerKey {
    type V = Seq<u8>;

    closed spec fn view(&self) -> Seq<u8> {
        self.point@
    }
}

impl Clone for AggregatedVerKey {
    fn clone(&self) -> (r: AggregatedVerKey)
        ensures
            r@ == self@,
    {
        proof {
            use_type_invariant(self);
        }
        AggregatedVerKey { point: copy_bytes(self.point.as_slice()) }
    }
}

impl AggregatedVerKey {
    #[verifier::type_invariant]
    spec fn well_formed(&self) -> bool {
        g1_canonical(self.point@)
    }

    /// The sum of the keys, each times its coefficient under `digest`,
    /// from the identity on, in the order of the list.
    pub open spec fn weighted_sum(digest: Seq<u8>, verkeys: Seq<VerKey>) -> Seq<u8>
        decreases verkeys.len(),
    {
        if verkeys.len() == 0 {
            g1_identity_encoding()
        } else {
            g1_sum(
                Self::weighted_sum(digest, verkeys.drop_last()),
                g1_product(verkeys.last()@, coefficient_of(digest, verkeys.last()@)),
            )
        }
    }

    /// The aggregated key of a list of keys.
    pub open spec fn aggregate_of(verkeys: Seq<VerKey>) -> Seq<u8> {
        Self::weighted_sum(hash_id_sha256(HashedVerKeys::concat_of(verkeys)), verkeys)
    }

    /// Aggregates the keys: each is weighted by its coefficient under the
    /// digest of the whole list.
    pub fn new(verkeys: &Vec<VerKey>) -> (r: AggregatedVerKey)
        ensures
            r@ == Self::aggregate_of(verkeys@),
    {
        let L = HashedVerKeys::new(verkeys);
        let mut avk = g1_identity();
        let mut i: usize = 0;
        while i < verkeys.len()
            invariant
                i <= verkeys.len(),
                g1_canonical(avk@),
                avk@ == Self::weighted_sum(L@, verkeys@.take(i as int)),
            decreases verkeys.len() - i,
        {
            let vk = &verkeys[i];
            proof {
                use_type_invariant(vk);
                assert(verkeys@.take(i + 1).drop_last() =~= verkeys@.take(i as int));
            }
            let h = L.hash_with_verkey(vk);
            let point = g1_multiply(&vk.point, &h);
            avk = g1_combine(&avk, &point);
            i = i + 1;
        }
        assert(verkeys@.take(verkeys.len() as int) =~= verkeys@);
        AggregatedVerKey { point: avk }
    }

    /// The canonical encoding of the aggregated key.
    pub fn to_bytes(&self) -> (r: Vec<u8>)
        ensures
            r@ == self@,
            r.len() == GroupG_Size,
            g1_decoded(r@) == Some(self@),
    {
        proof {
            use_type_invariant(self);
        }
        copy_bytes(self.point.as_slice())
    }
}

/// One signer's partial signature: a scalar below the group order.
pub struct Signature {
    x: Vec<u8>,
}

impl View for Signature {
    type V = Seq<u8>;

    closed spec fn view(&self) -> Seq<u8> {
        self.x@
    }
}

impl Signature {
    #[verifier::type_invariant]
    spec fn well_formed(&self) -> bool {
        self.x.len() == MODBYTES
    }

    /// Signs `msg` as one of the signers. The aggregated nonce, the digest
    /// of the key set and the aggregated key are computed from the full
    /// lists, which costs time linear in the number of signers on every
    /// call; `new_using_aggregated_objs` takes them ready-made.
    pub fn new(
        msg: &[u8],
        sig_key: &SigKey,
        nonce: &Vec<u8>,
        verkey: &VerKey,
        all_nonces: &Vec<Nonce>,
        all_verkeys: &Vec<VerKey>,
    ) -> (r: Signature)
        requires
            nonce.len() == MODBYTES,
        ensures
            r@.len() == MODBYTES,
            scalar_value(r@) == partial_signature_value(
                scalar_value(
                    challenge_of(
                        msg@,
                        AggregatedVerKey::aggregate_of(all_verkeys@),
                        Nonce::sum_of(all_nonces@),
                    ),
                ),
                scalar_value(
                    coefficient_of(
                        hash_id_sha256(HashedVerKeys::concat_of(all_verkeys@)),
                        verkey@,
                    ),
                ),
                scalar_value(sig_key@),
                scalar_value(nonce@),
            ),
    {
        let R = Nonce::aggregate(all_nonces);
        let L = HashedVerKeys::new(all_verkeys);
        let avk = AggregatedVerKey::new(all_verkeys);
        Signature::new_using_aggregated_objs(msg, sig_key, nonce, verkey, &R, &L, &avk)
    }

    /// Signs `msg` as one of the signers, given the aggregated nonce `R`,
    /// the digest `L` of the key set and the aggregated key `avk`. The
    /// three must belong to the current signers and nonces: compute them
    /// anew whenever either set changes.
    pub fn new_using_aggregated_objs(
        msg: &[u8],
        sig_key: &SigKey,
        nonce: &Vec<u8>,
        verkey: &VerKey,
        R: &Nonce,
        L: &HashedVerKeys,
        avk: &AggregatedVerKey,
    ) -> (r: Signature)
        requires
            nonce.len() == MODBYTES,
        ensures
            r@.len() == MODBYTES,
            scalar_value(r@) == partial_signature_value(
                scalar_value(challenge_of(msg@, avk@, R@)),
                scalar_value(coefficient_of(L@, verkey@)),
                scalar_value(sig_key@),
                scalar_value(nonce@),
            ),
    {
        proof {
            use_type_invariant(sig_key);
        }
        let h = L.hash_with_verkey(verkey);
        let avk_bytes = avk.to_bytes();
        let nonce_bytes = R.to_bytes();
        let challenge = Signature::compute_challenge(
            msg,
            avk_bytes.as_slice(),
            nonce_bytes.as_slice(),
        );
        let order = curve_order();
        let weighted = big_modmul(&challenge, &h, &order);
        let mut product = big_modmul(&weighted, &sig_key.x, &order);
        let mut reduced_nonce = big_rmod(nonce, &order);
        let mut sum = big_add(&product, &reduced_nonce);
        let x = big_rmod(&sum, &order);
        proof {
            let q = group_order() as int;
            let c = scalar_value(challenge@) as int;
            let hv = scalar_value(h@) as int;
            let sk = scalar_value(sig_key@) as int;
            let n = scalar_value(nonce@) as int;
            lemma_mul_mod_noop_left(c * hv, sk, q);
            lemma_add_mod_noop(c * hv * sk, n, q);
        }
        wipe(&mut product);
        wipe(&mut reduced_nonce);
        wipe(&mut sum);
        Signature { x }
    }

    /// The Fiat-Shamir challenge that binds the message to the aggregated
    /// key and the aggregated nonce.
    pub fn compute_challenge(msg: &[u8], aggr_verkey: &[u8], aggr_nonce: &[u8]) -> (r: Vec<u8>)
        ensures
            r@ == challenge_of(msg@, aggr_verkey@, aggr_nonce@),
            r.len() == MODBYTES,
    {
        let mut challenge_bytes: Vec<u8> = Vec::new();
        append_bytes(&mut challenge_bytes, aggr_verkey);
        append_bytes(&mut challenge_bytes, aggr_nonce);
        append_bytes(&mut challenge_bytes, msg);
        assert(challenge_bytes@ =~= aggr_verkey@ + aggr_nonce@ + msg@);
        hash_as_BigNum(challenge_bytes.as_slice())
    }

    /// The encoded scalar.
    pub fn to_bytes(&self) -> (r: Vec<u8>)
        ensures
            r@ == self@,
            r.len() == MODBYTES,
    {
        proof {
            use_type_invariant(self);
        }
        copy_bytes(self.x.as_slice())
    }

    /// The partial signature with the given encoded scalar. Fails unless
    /// the input has the width of a scalar.
    pub fn from_bytes(bytes: &[u8]) -> (r: Result<Signature, SerzDeserzError>)
        ensures
            bytes.len() == MODBYTES ==> r.is_ok() && r.unwrap()@ == bytes@,
            bytes.len() != MODBYTES ==> r == Err::<Signature, SerzDeserzError>(
                SerzDeserzError::ScalarBytesIncorrectSize(bytes.len(), MODBYTES),
            ),
    {
        if bytes.len() != MODBYTES {
            return Err(SerzDeserzError::ScalarBytesIncorrectSize(bytes.len(), MODBYTES));
        }
        Ok(Signature { x: copy_bytes(bytes) })
    }
}

/// The sum of several partial signatures.
pub struct AggregatedSignature {
    x: Vec<u8>,
}

impl View for AggregatedSignature {
    type V = Seq<u8>;

    closed spec fn view(&self) -> Seq<u8> {
        self.x@
    }
}

impl AggregatedSignature {
    #[verifier::type_invariant]
    spec fn well_formed(&self) -> bool {
        self.x.len() == MODBYTES
    }

    /// The sum of the scalars of the signatures, as an integer.
    pub open spec fn total_of(signatures: Seq<Signature>) -> nat
        decreases signatures.len(),
    {
        if signatures.len() == 0 {
            0
        } else {
            Self::total_of(signatures.drop_last()) + scalar_value(signatures.last()@)
        }
    }

    /// Adds the partial signatures up, modulo the group order.
    pub fn new(signatures: &[Signature]) -> (r: AggregatedSignature)
        ensures
            r@.len() == MODBYTES,
            scalar_value(r@) == Self::total_of(signatures@) % group_order(),
    {
        let order = curve_order();
        let mut aggr_sig = zero_scalar();
        let mut i: usize = 0;
        proof {
            assert(signatures@.take(0).len() == 0);
            assert(Self::total_of(signatures@.take(0)) == 0);
            assert(0nat % group_order() == 0);
        }
        while i < signatures.len()
            invariant
                i <= signatures.len(),
                order.len() == MODBYTES,
                scalar_value(order@) == group_order(),
                aggr_sig.len() == MODBYTES,
                scalar_value(aggr_sig@) == Self::total_of(signatures@.take(i as int))
                    % group_order(),
            decreases signatures.len() - i,
        {
            let sig = &signatures[i];
            proof {
                use_type_invariant(sig);
                assert(signatures@.take(i + 1).drop_last() =~= signatures@.take(i as int));
                lemma_add_mod_noop(
                    Self::total_of(signatures@.take(i as int)) as int,
                    scalar_value(sig@) as int,
                    group_order() as int,
                );
            }
            let reduced = big_rmod(&sig.x, &order);
            let sum = big_add(&aggr_sig, &reduced);
            aggr_sig = big_rmod(&sum, &order);
            i = i + 1;
        }
        assert(signatures@.take(signatures.len() as int) =~= signatures@);
        AggregatedSignature { x: aggr_sig }
    }

    /// Verifies the aggregate against the full lists of nonces and keys,
    /// which must be those, and in the order, that the signers used.
    pub fn verify(&self, msg: &[u8], nonces: &Vec<Nonce>, ver_keys: &Vec<VerKey>) -> (r: bool)
        ensures
            r == musig_equation(
                self@,
                msg@,
                Nonce::sum_of(nonces@),
                AggregatedVerKey::aggregate_of(ver_keys@),
            ),
    {
        let R = Nonce::aggregate(nonces);
        let avk = AggregatedVerKey::new(ver_keys);
        self.verify_using_aggregated_objs(msg, &R, &avk)
    }

    /// Verifies the aggregate against an aggregated nonce and an
    /// aggregated key.
    pub fn verify_using_aggregated_objs(&self, msg: &[u8], R: &Nonce, avk: &AggregatedVerKey) -> (r:
        bool)
        ensures
            r == musig_equation(self@, msg@, R@, avk@),
    {
        proof {
            use_type_invariant(self);
            use_type_invariant(R);
            use_type_invariant(avk);
        }
        let avk_bytes = avk.to_bytes();
        let nonce_bytes = R.to_bytes();
        let challenge = Signature::compute_challenge(
            msg,
            avk_bytes.as_slice(),
            nonce_bytes.as_slice(),
        );
        let generator = g1_generator();
        let lhs = g1_multiply(&generator, &self.x);
        let rhs = g1_identity();
        let rhs = g1_combine(&rhs, &R.point);
        let scaled = g1_multiply(&avk.point, &challenge);
        let rhs = g1_combine(&rhs, &scaled);
        g1_equals(&rhs, &lhs)
    }

    /// The encoded scalar.
    pub fn to_bytes(&self) -> (r: Vec<u8>)
        ensures
            r@ == self@,
            r.len() == MODBYTES,
    {
        proof {
            use_type_invariant(self);
        }
        copy_bytes(self.x.as_slice())
    }

    /// The aggregated signature with the given encoded scalar. Fails
    /// unless the input has the width of a scalar.
    pub fn from_bytes(bytes: &[u8]) -> (r: Result<AggregatedSignature, SerzDeserzError>)
        ensures
            bytes.len() == MODBYTES ==> r.is_ok() && r.unwrap()@ == bytes@,
            bytes.len() != MODBYTES ==> r == Err::<AggregatedSignature, SerzDeserzError>(
                SerzDeserzError::ScalarBytesIncorrectSize(bytes.len(), MODBYTES),
            ),
    {
        if bytes.len() != MODBYTES {
            return Err(SerzDeserzError::ScalarBytesIncorrectSize(bytes.len(), MODBYTES));
        }
        Ok(AggregatedSignature { x: copy_bytes(bytes) })
    }
}

/// The aggregates of one signing session, kept together with the lists
/// of nonces and keys that they were computed from. Signing through a
/// session costs constant time per signer, where `Signature::new` computes
/// the aggregates anew on every call; changing either list computes the
/// aggregates that depend on it anew.
pub struct SigningSession {
    nonces: Vec<Nonce>,
    verkeys: Vec<VerKey>,
    aggr_nonce: Nonce,
    hashed_verkeys: HashedVerKeys,
    aggr_verkey: AggregatedVerKey,
}

impl SigningSession {
    #[verifier::type_invariant]
    spec fn well_formed(&self) -> bool {
        &&& self.aggr_nonce@ == Nonce::sum_of(self.nonces@)
        &&& self.hashed_verkeys@ == hash_id_sha256(HashedVerKeys::concat_of(self.verkeys@))
        &&& self.aggr_verkey@ == AggregatedVerKey::aggregate_of(self.verkeys@)
    }

    /// The nonces of the session.
    pub closed spec fn nonces_view(&self) -> Seq<Nonce> {
        self.nonces@
    }

    /// The verification keys of the session.
    pub closed spec fn verkeys_view(&self) -> Seq<VerKey> {
        self.verkeys@
    }

    /// Opens a session for the given nonces and keys.
    pub fn new(nonces: Vec<Nonce>, verkeys: Vec<VerKey>) -> (r: SigningSession)
        ensures
            r.nonces_view() == nonces@,
            r.verkeys_view() == verkeys@,
    {
        let aggr_nonce = Nonce::aggregate(&nonces);
        let hashed_verkeys = HashedVerKeys::new(&verkeys);
        let aggr_verkey = AggregatedVerKey::new(&verkeys);
        SigningSession { nonces, verkeys, aggr_nonce, hashed_verkeys, aggr_verkey }
    }

    /// The session with another list of nonces: the aggregated nonce is
    /// computed anew, the keys and their aggregates stay.
    pub fn with_nonces(self, nonces: Vec<Nonce>) -> (r: SigningSession)
        ensures
            r.nonces_view() == nonces@,
            r.verkeys_view() == self.verkeys_view(),
    {
        proof {
            use_type_invariant(&self);
        }
        let aggr_nonce = Nonce::aggregate(&nonces);
        SigningSession {
            nonces,
            verkeys: self.verkeys,
            aggr_nonce,
            hashed_verkeys: self.hashed_verkeys,
            aggr_verkey: self.aggr_verkey,
        }
    }

    /// The session with another list of keys: their digest and the
    /// aggregated key are computed anew, the nonces stay.
    pub fn with_verkeys(self, verkeys: Vec<VerKey>) -> (r: SigningSession)
        ensures
            r.nonces_view() == self.nonces_view(),
            r.verkeys_view() == verkeys@,
    {
        proof {
            use_type_invariant(&self);
        }
        let hashed_verkeys = HashedVerKeys::new(&verkeys);
        let aggr_verkey = AggregatedVerKey::new(&verkeys);
        SigningSession {
            nonces: self.nonces,
            verkeys,
            aggr_nonce: self.aggr_nonce,
            hashed_verkeys,
            aggr_verkey,
        }
    }

    /// Signs `msg` as one of the signers of the session: the signature
    /// that `Signature::new` gives for the session's lists.
    pub fn sign(&self, msg: &[u8], sig_key: &SigKey, nonce: &Vec<u8>, verkey: &VerKey) -> (r:
        Signature)
        requires
            nonce.len() == MODBYTES,
        ensures
            r@.len() == MODBYTES,
            scalar_value(r@) == partial_signature_value(
                scalar_value(
                    challenge_of(
                        msg@,
                        AggregatedVerKey::aggregate_of(self.verkeys_view()),
                        Nonce::sum_of(self.nonces_view()),
                    ),
                ),
                scalar_value(
                    coefficient_of(
                        hash_id_sha256(HashedVerKeys::concat_of(self.verkeys_view())),
                        verkey@,
                    ),
                ),
                scalar_value(sig_key@),
                scalar_value(nonce@),
            ),
    {
        proof {
            use_type_invariant(self);
        }
        Signature::new_using_aggregated_objs(
            msg,
            sig_key,
            nonce,
            verkey,
            &self.aggr_nonce,
            &self.hashed_verkeys,
            &self.aggr_verkey,
        )
    }

    /// Verifies an aggregated signature over `msg` against the session's
    /// lists: what `AggregatedSignature::verify` gives for them.
    pub fn verify(&self, signature: &AggregatedSignature, msg: &[u8]) -> (r: bool)
        ensures
            r == musig_equation(
                signature@,
                msg@,
                Nonce::sum_of(self.nonces_view()),
                AggregatedVerKey::aggregate_of(self.verkeys_view()),
            ),
    {
        proof {
            use_type_invariant(self);
        }
        signature.verify_using_aggregated_objs(msg, &self.aggr_nonce, &self.aggr_verkey)
    }
}

/// The total of a list of signatures that is made of two lists is the sum
/// of their totals.
pub proof fn lemma_total_of_concat(first: Seq<Signature>, second: Seq<Signature>)
    ensures
        AggregatedSignature::total_of(first + second) == AggregatedSignature::total_of(first)
            + AggregatedSignature::total_of(second),
    decreases second.len(),
{
    if second.len() == 0 {
        assert(first + second =~= first);
    } else {
        lemma_total_of_concat(first, second.drop_last());
        assert((first + second).drop_last() =~= first + second.drop_last());
        assert((first + second).last() == second.last());
    }
}

/// Aggregation does not depend on which of two groups of signers comes
/// first: both orders give the same aggregated scalar.
pub proof fn lemma_aggregation_commutes(first: Seq<Signature>, second: Seq<Signature>)
    ensures
        AggregatedSignature::total_of(first + second) % group_order()
            == AggregatedSignature::total_of(second + first) % group_order(),
{
    lemma_total_of_concat(first, second);
    lemma_total_of_concat(second, first);
}

/// A partial signature is a scalar below the group order.
pub proof fn lemma_partial_signature_reduced(
    challenge: nat,
    coefficient: nat,
    secret: nat,
    nonce: nat,
)
    ensures
        partial_signature_value(challenge, coefficient, secret, nonce) < group_order(),
{
}

/// The sum of the products of each coefficient with the secret at the
/// same place.
pub open spec fn weighted_secrets(coefficients: Seq<nat>, secrets: Seq<nat>) -> nat
    decreases coefficients.len(),
{
    if coefficients.len() == 0 || secrets.len() != coefficients.len() {
        0
    } else {
        weighted_secrets(coefficients.drop_last(), secrets.drop_last()) + coefficients.last()
            * secrets.last()
    }
}

/// The sum of a list of numbers.
pub open spec fn sum_of_nats(values: Seq<nat>) -> nat
    decreases values.len(),
{
    if values.len() == 0 {
        0
    } else {
        sum_of_nats(values.drop_last()) + values.last()
    }
}

/// Where every signer signed under the same challenge, the aggregated
/// scalar is the challenge times the weighted sum of the signing keys,
/// plus the sum of the nonce secrets, modulo the group order: the scalar
/// on which the verification equation rests.
pub proof fn lemma_aggregate_of_partials(
    signatures: Seq<Signature>,
    challenge: nat,
    coefficients: Seq<nat>,
    secrets: Seq<nat>,
    nonces: Seq<nat>,
)
    requires
        coefficients.len() == signatures.len(),
        secrets.len() == signatures.len(),
        nonces.len() == signatures.len(),
        forall|i: int|
            0 <= i < signatures.len() ==> scalar_value(#[trigger] signatures[i]@)
                == partial_signature_value(challenge, coefficients[i], secrets[i], nonces[i]),
    ensures
        AggregatedSignature::total_of(signatures) % group_order() == (challenge
            * weighted_secrets(coefficients, secrets) + sum_of_nats(nonces)) % group_order(),
    decreases signatures.len(),
{
    if signatures.len() > 0 {
        lemma_aggregate_of_partials(
            signatures.drop_last(),
            challenge,
            coefficients.drop_last(),
            secrets.drop_last(),
            nonces.drop_last(),
        );
        let q = group_order() as int;
        let c = challenge as int;
        let h = coefficients.last() as int;
        let x = secrets.last() as int;
        let earlier = AggregatedSignature::total_of(signatures.drop_last()) as int;
        let weighted = weighted_secrets(coefficients.drop_last(), secrets.drop_last()) as int;
        let blinding = sum_of_nats(nonces.drop_last()) as int;
        let last = c * h * x + nonces.last() as int;
        assert(scalar_value(signatures.last()@) == last % q);
        lemma_add_mod_noop_right(earlier, last, q);
        lemma_add_mod_noop(earlier, last, q);
        lemma_add_mod_noop(c * weighted + blinding, last, q);
        assert(c * weighted + c * h * x == c * (weighted + h * x)) by (nonlinear_arith);
        assert(weighted_secrets(coefficients, secrets) == weighted + h * x);
    } else {
        assert(weighted_secrets(coefficients, secrets) == 0);
    }
}

/// The concatenated encodings of keys that each have the width of a group
/// element are as long as that width times the number of keys.
pub proof fn lemma_concat_len(verkeys: Seq<VerKey>)
    requires
        forall|i: int| 0 <= i < verkeys.len() ==> (#[trigger] verkeys[i]@).len() == GroupG_Size,
    ensures
        HashedVerKeys::concat_of(verkeys).len() == GroupG_Size * verkeys.len(),
    decreases verkeys.len(),
{
    if verkeys.len() > 0 {
        lemma_concat_len(verkeys.drop_last());
    }
}

/// What the digest of a key set is taken of keeps the order of the list:
/// two lists of equally many keys, each of the width of a group element,
/// have the same concatenated encodings only where they hold the same
/// encoding at every place.
pub proof fn lemma_concat_keeps_the_order(first: Seq<VerKey>, second: Seq<VerKey>)
    requires
        first.len() == second.len(),
        forall|i: int| 0 <= i < first.len() ==> (#[trigger] first[i]@).len() == GroupG_Size,
        forall|i: int| 0 <= i < second.len() ==> (#[trigger] second[i]@).len() == GroupG_Size,
        HashedVerKeys::concat_of(first) == HashedVerKeys::concat_of(second),
    ensures
        forall|i: int| 0 <= i < first.len() ==> #[trigger] first[i]@ == second[i]@,
    decreases first.len(),
{
    if first.len() > 0 {
        let f = first.drop_last();
        let s = second.drop_last();
        lemma_concat_len(f);
        lemma_concat_len(s);
        let cf = HashedVerKeys::concat_of(f);
        let cs = HashedVerKeys::concat_of(s);
        let whole = HashedVerKeys::concat_of(first);
        assert(whole == cf + first.last()@);
        assert(whole == cs + second.last()@);
        assert(cf =~= whole.subrange(0, cf.len() as int));
        assert(cs =~= whole.subrange(0, cs.len() as int));
        assert(first.last()@ =~= whole.subrange(cf.len() as int, whole.len() as int));
        assert(second.last()@ =~= whole.subrange(cs.len() as int, whole.len() as int));
        lemma_concat_keeps_the_order(f, s);
        assert forall|i: int| 0 <= i < first.len() implies #[trigger] first[i]@ == second[i]@ by {
            if i < first.len() - 1 {
                assert(f[i] == first[i]);
                assert(s[i] == second[i]);
            }
        }
    }
}

} // verus!
