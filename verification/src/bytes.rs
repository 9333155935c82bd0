//! Small helpers on byte strings.
use vstd::prelude::*;
use crate::constants::{scalar_value, MODBYTES};

verus! {

/// Appends a copy of `src` to `dst`.
pub fn append_bytes(dst: &mut Vec<u8>, src: &[u8])
    ensures
        final(dst)@ == old(dst)@ + src@,
{
    let mut i: usize = 0;
    while i < src.len()
        invariant
            i <= src.len(),
            dst@ == old(dst)@ + src@.take(i as int),
        decreases src.len() - i,
    {
        dst.push(src[i]);
        assert(src@.take(i + 1) =~= src@.take(i as int).push(src@[i as int]));
        i = i + 1;
    }
    assert(src@.take(src.len() as int) =~= src@);
}

/// Whether the two byte strings are the same.
pub fn bytes_equal(a: &[u8], b: &[u8]) -> (r: bool)
    ensures
        r == (a@ == b@),
{
    if a.len() != b.len() {
        return false;
    }
    let mut i: usize = 0;
    while i < a.len()
        invariant
            i <= a.len(),
            a.len() == b.len(),
            a@.take(i as int) == b@.take(i as int),
        decreases a.len() - i,
    {
        if a[i] != b[i] {
            assert(a@[i as int] != b@[i as int]);
            return false;
        }
        assert(a@.take(i + 1) =~= a@.take(i as int).push(a@[i as int]));
        assert(b@.take(i + 1) =~= b@.take(i as int).push(b@[i as int]));
        i = i + 1;
    }
    assert(a@.take(a.len() as int) =~= a@);
    assert(b@.take(b.len() as int) =~= b@);
    true
}

/// A freshly owned copy of `src`.
pub fn copy_bytes(src: &[u8]) -> (r: Vec<u8>)
    ensures
        r@ == src@,
{
    let mut r: Vec<u8> = Vec::new();
    append_bytes(&mut r, src);
    assert(Seq::<u8>::empty() + src@ =~= src@);
    r
}

/// Overwrites every byte of the buffer with zero, in place.
pub fn wipe(bytes: &mut Vec<u8>)
    ensures
        final(bytes).len() == old(bytes).len(),
        forall|i: int| 0 <= i < final(bytes).len() ==> final(bytes)@[i] == 0u8,
    no_unwind
{
    let mut i: usize = 0;
    while i < bytes.len()
        invariant
            i <= bytes.len(),
            bytes.len() == old(bytes).len(),
            forall|j: int| 0 <= j < i ==> bytes@[j] == 0u8,
        decreases bytes.len() - i,
    {
        bytes[i] = 0u8;
        i = i + 1;
    }
}

/// Overwrites a secret with zeros, where there is one, and drops it.
pub fn wipe_secret(secret: &mut Option<Vec<u8>>)
    ensures
        final(secret).is_none(),
    no_unwind
{
    match secret {
        Some(bytes) => {
            wipe(bytes);
        },
        None => {},
    }
    *secret = None;
}

/// Hands a secret out and leaves nothing behind.
pub fn take_secret(secret: &mut Option<Vec<u8>>) -> (r: Option<Vec<u8>>)
    ensures
        r == *old(secret),
        final(secret).is_none(),
    no_unwind
{
    let mut taken: Option<Vec<u8>> = None;
    std::mem::swap(secret, &mut taken);
    taken
}

/// Two byte strings of one length that stand for the same integer are the
/// same string: a scalar's value fixes its encoding.
pub proof fn lemma_scalar_value_injective(a: Seq<u8>, b: Seq<u8>)
    requires
        a.len() == b.len(),
        scalar_value(a) == scalar_value(b),
    ensures
        a == b,
    decreases a.len(),
{
    if a.len() > 0 {
        lemma_scalar_value_injective(a.drop_last(), b.drop_last());
        assert(a =~= a.drop_last().push(a.last()));
        assert(b =~= b.drop_last().push(b.last()));
    } else {
        assert(a =~= b);
    }
}

/// Appending a zero byte to a string that stands for zero leaves it
/// standing for zero.
pub proof fn lemma_zero_push(s: Seq<u8>)
    requires
        scalar_value(s) == 0,
    ensures
        scalar_value(s.push(0u8)) == 0,
{
    assert(s.push(0u8).drop_last() =~= s);
}

/// The encoding of the scalar zero.
pub fn zero_scalar() -> (r: Vec<u8>)
    ensures
        r.len() == MODBYTES,
        scalar_value(r@) == 0,
{
    let mut r: Vec<u8> = Vec::new();
    let mut i: usize = 0;
    while i < MODBYTES
        invariant
            i <= MODBYTES,
            r.len() == i,
            scalar_value(r@) == 0,
        decreases MODBYTES - i,
    {
        proof {
            lemma_zero_push(r@);
        }
        r.push(0u8);
        i = i + 1;
    }
    r
}

} // verus!
