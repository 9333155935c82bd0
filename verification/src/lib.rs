//! Short signatures over the BLS12-381 curve: a single-signer pairing-based
//! scheme and the MuSig multi-signature scheme.
//!
//! Scalars and group elements are held as their fixed-width byte encodings;
//! the curve arithmetic itself is done by the `amcl` crate.
#![allow(non_snake_case)]
#![allow(non_upper_case_globals)]

pub mod constants;
pub mod errors;
pub mod bytes;
pub mod amcl_utils;
pub mod bls;
pub mod musig;
