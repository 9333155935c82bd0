use amcl::bls381::ecp::ECP;
use signature_schemes::amcl_utils::{
    ate_pairing, draw_entropy, hash_as_BigNum, hash_on_GroupG1, hash_on_GroupG2,
    order_scalar_from_entropy, random_big_number, scalar_from_entropy,
};
use signature_schemes::bls::common::{Keypair, SigKey, VerKey};
use signature_schemes::bls::simple::Signature;
use signature_schemes::errors::{EntropyUnavailable, SerzDeserzError};

fn order_bytes() -> Vec<u8> {
    vec![ 0, 0, 0, 0, 0, 0, 0, 0, 0, 0, 0, 0, 0, 0, 0, 0, 115, 237, 167, 83, 41, 157, 125, 72, 51, 57, 216, 8, 9, 161, 216, 5, 83, 189, 164, 2, 255, 254, 91, 254, 255, 255, 255, 255, 0, 0, 0, 1,]
}

fn scalar(n: u8) -> Vec<u8> {
    let mut b = vec![0u8; 48];
    b[47] = n;
    b
}

fn identity_bytes() -> Vec<u8> {
    let mut p = ECP::new();
    p.inf();
    let mut b = [0u8; 97];
    p.tobytes(&mut b, false);
    b.to_vec()
}

#[test]
fn sign_verify() {
    let keypair = Keypair::new(None).unwrap();
    let sk = keypair.sig_key;
    let vk = keypair.ver_key;

    let msg = "Small msg";
    let msg1 = "121220888888822111212";
    let msg2 = "Some message to sign";
    let msg3 = "Some message to sign, making it bigger, ......, still bigger........................, not some entropy, hu2jnnddsssiu8921n ckhddss2222";
    for m in vec![msg, msg1, msg2, msg3] {
        let b = m.as_bytes();
        let sig = Signature::new(&b, &sk);
        assert!(sig.verify(&b, &vk));

        let bs = sig.to_bytes();
        let sig1 = Signature::from_bytes(&bs).unwrap();
        assert_eq!(
            &ECP::frombytes(&sig.to_bytes()).tostring(),
            &ECP::frombytes(&sig1.to_bytes()).tostring()
        );
        assert_eq!(sig.to_bytes(), sig1.to_bytes());
    }
}

#[test]
fn verification_failure() {
    let keypair = Keypair::new(None).unwrap();
    let sk = keypair.sig_key;
    let vk = keypair.ver_key;

    let mut msg = "Some msg";
    let sig = Signature::new(&msg.as_bytes(), &sk);
    msg = "Other msg";
    assert_eq!(sig.verify(&msg.as_bytes(), &vk), false);
    msg = "";
    assert_eq!(sig.verify(&msg.as_bytes(), &vk), false);
}

#[test]
fn signature_at_infinity() {
    let keypair = Keypair::new(None).unwrap();
    let vk = keypair.ver_key;

    let msg = "Small msg".as_bytes();
    let sig = Signature::from_bytes(&identity_bytes()).unwrap();
    assert!(ECP::frombytes(&sig.to_bytes()).is_infinity());
    assert_eq!(sig.verify(&msg, &vk), false);
}

#[test]
fn identity_encoding_is_fixed() {
    let mut expected = vec![0u8; 97];
    expected[0] = 4;
    expected[96] = 1;
    assert_eq!(identity_bytes(), expected);
}

#[test]
fn wrong_key_does_not_verify() {
    let signer = Keypair::new(None).unwrap();
    let other = Keypair::new(None).unwrap();
    let msg = "Small msg".as_bytes();
    let sig = Signature::new(msg, &signer.sig_key);
    assert!(sig.verify(msg, &signer.ver_key));
    assert!(!sig.verify(msg, &other.ver_key));
}

#[test]
fn signing_is_deterministic() {
    let sk = SigKey::from_bytes(&scalar(7)).unwrap();
    let msg = "Some message to sign".as_bytes();
    let first = Signature::new(msg, &sk);
    let second = Signature::new(msg, &sk);
    assert_eq!(first.to_bytes(), second.to_bytes());
    let vk = VerKey::from_sigkey(&sk);
    assert!(first.verify(msg, &vk));
    assert_eq!(first.clone().to_bytes(), first.to_bytes());
}

#[test]
fn signature_with_unit_key_is_message_point() {
    let sk = SigKey::from_bytes(&scalar(1)).unwrap();
    let msg = "Small msg".as_bytes();
    let sig = Signature::new(msg, &sk);
    assert_eq!(sig.to_bytes(), hash_on_GroupG1(msg));
    let doubled = Signature::new(msg, &SigKey::from_bytes(&scalar(2)).unwrap());
    assert_ne!(doubled.to_bytes(), sig.to_bytes());
}

#[test]
fn signature_round_trip() {
    let keypair = Keypair::new(None).unwrap();
    let sig = Signature::new("Small msg".as_bytes(), &keypair.sig_key);
    let bytes = sig.to_bytes();
    assert_eq!(bytes.len(), 97);
    let back = Signature::from_bytes(&bytes).unwrap();
    assert_eq!(back.to_bytes(), bytes);
    assert!(ECP::frombytes(&back.to_bytes()).equals(&ECP::frombytes(&bytes)));
}

#[test]
fn signature_from_bytes_rejects_wrong_length() {
    let short = vec![4u8; 96];
    assert!(matches!(
        Signature::from_bytes(&short),
        Err(SerzDeserzError::G1BytesIncorrectSize(96, 97))
    ));
    let long = vec![4u8; 98];
    assert!(matches!(
        Signature::from_bytes(&long),
        Err(SerzDeserzError::G1BytesIncorrectSize(98, 97))
    ));
    assert!(matches!(
        Signature::from_bytes(&[]),
        Err(SerzDeserzError::G1BytesIncorrectSize(0, 97))
    ));
}

#[test]
fn tampered_signature_is_another_point() {
    let keypair = Keypair::new(None).unwrap();
    let msg = "Small msg".as_bytes();
    let sig = Signature::new(msg, &keypair.sig_key);
    let bytes = sig.to_bytes();
    for position in [0usize, 1, 20, 48, 49, 70, 96] {
        let mut tampered = bytes.clone();
        tampered[position] ^= 1;
        match Signature::from_bytes(&tampered) {
            Ok(decoded) => {
                assert_ne!(decoded.to_bytes(), bytes);
                assert!(!decoded.verify(msg, &keypair.ver_key));
            }
            Err(_) => {}
        }
    }
}

#[test]
fn malformed_signature_is_rejected() {
    let junk = vec![255u8; 97];
    assert!(matches!(
        Signature::from_bytes(&junk),
        Err(SerzDeserzError::G1BytesMalformed)
    ));
    let mut off_curve = identity_bytes();
    off_curve[48] = 1;
    assert!(matches!(
        Signature::from_bytes(&off_curve),
        Err(SerzDeserzError::G1BytesMalformed)
    ));
    assert!(matches!(
        VerKey::from_bytes(&vec![255u8; 192]),
        Err(SerzDeserzError::G2BytesMalformed)
    ));
}

#[test]
fn compressed_marker_is_rejected() {
    let keypair = Keypair::new(None).unwrap();
    let sig = Signature::new("Small msg".as_bytes(), &keypair.sig_key);
    for marker in [0u8, 2, 3, 5, 6] {
        let mut bytes = sig.to_bytes();
        bytes[0] = marker;
        assert!(matches!(
            Signature::from_bytes(&bytes),
            Err(SerzDeserzError::G1BytesMalformed)
        ));
    }
    assert!(Signature::from_bytes(&sig.to_bytes()).is_ok());
}

fn g2_identity_bytes() -> Vec<u8> {
    let mut b = vec![0u8; 192];
    b[143] = 1;
    b
}

#[test]
fn identity_results_have_the_canonical_encoding() {
    let msg = "Small msg".as_bytes();
    for key in [scalar(0), order_bytes()] {
        let sk = SigKey::from_bytes(&key).unwrap();
        let vk = VerKey::from_sigkey(&sk);
        assert_eq!(vk.to_bytes(), g2_identity_bytes());
        let back = VerKey::from_bytes(&vk.to_bytes()).unwrap();
        assert_eq!(back.to_bytes(), vk.to_bytes());
        let sig = Signature::new(msg, &sk);
        assert_eq!(sig.to_bytes(), identity_bytes());
        let again = Signature::from_bytes(&sig.to_bytes()).unwrap();
        assert_eq!(again.to_bytes(), identity_bytes());
        assert!(!sig.verify(msg, &vk));
        assert!(!again.verify(msg, &back));
    }
}

#[test]
fn sig_key_from_bytes_rejects_wrong_length() {
    assert!(matches!(
        SigKey::from_bytes(&[1u8; 47]),
        Err(SerzDeserzError::ScalarBytesIncorrectSize(47, 48))
    ));
    assert!(SigKey::from_bytes(&[1u8; 48]).is_ok());
}

#[test]
fn ver_key_encoding_has_fixed_width() {
    let keypair = Keypair::new(None).unwrap();
    let bytes = keypair.ver_key.to_bytes();
    assert_eq!(bytes.len(), 192);
    assert_eq!(keypair.ver_key.clone().to_bytes(), bytes);
    let again = VerKey::from_sigkey(&keypair.sig_key);
    assert_eq!(again.to_bytes(), bytes);
}

#[test]
fn hash_as_scalar_is_padded_sha256() {
    let digest = hash_as_BigNum("abc".as_bytes());
    let expected: Vec<u8> = vec![
        0, 0, 0, 0, 0, 0, 0, 0, 0, 0, 0, 0, 0, 0, 0, 0, 0xba, 0x78, 0x16, 0xbf, 0x8f, 0x01, 0xcf,
        0xea, 0x41, 0x41, 0x40, 0xde, 0x5d, 0xae, 0x22, 0x23, 0xb0, 0x03, 0x61, 0xa3, 0x96, 0x17,
        0x7a, 0x9c, 0xb4, 0x10, 0xff, 0x61, 0xf2, 0x00, 0x15, 0xad,
    ];
    assert_eq!(digest, expected);
}

#[test]
fn hashes_onto_groups_are_deterministic() {
    let a = hash_on_GroupG1("Small msg".as_bytes());
    let b = hash_on_GroupG1("Small msg".as_bytes());
    let c = hash_on_GroupG1("Other msg".as_bytes());
    assert_eq!(a.len(), 97);
    assert_eq!(a, b);
    assert_ne!(a, c);
    let d = hash_on_GroupG2("Small msg".as_bytes());
    let e = hash_on_GroupG2("Other msg".as_bytes());
    assert_eq!(d.len(), 192);
    assert_ne!(d, e);
}

#[test]
fn pairing_is_bilinear_on_a_sample() {
    let sk = SigKey::from_bytes(&scalar(5)).unwrap();
    let vk = VerKey::from_sigkey(&sk);
    let unit = VerKey::from_sigkey(&SigKey::from_bytes(&scalar(1)).unwrap());
    let msg = "Small msg".as_bytes();
    let point = hash_on_GroupG1(msg);
    let sig = Signature::new(msg, &sk);
    let left = ate_pairing(&unit.to_bytes(), &sig.to_bytes());
    let right = ate_pairing(&vk.to_bytes(), &point);
    assert_eq!(left.len(), 576);
    assert_eq!(left, right);
    let other = ate_pairing(&unit.to_bytes(), &point);
    assert_ne!(left, other);
}

#[test]
fn scalar_from_entropy_follows_the_source() {
    let order = order_bytes();
    let seed = vec![7u8; 256];
    assert!(matches!(
        scalar_from_entropy(&order, false, &seed),
        Err(EntropyUnavailable)
    ));
    let first = scalar_from_entropy(&order, true, &seed).unwrap();
    let second = scalar_from_entropy(&order, true, &seed).unwrap();
    assert_eq!(first.len(), 48);
    assert_eq!(first, second);
    assert!(first < order);
    let other = scalar_from_entropy(&order, true, &vec![8u8; 256]).unwrap();
    assert_ne!(first, other);
}

#[test]
fn random_scalars_stay_below_the_order() {
    let order = order_bytes();
    let first = random_big_number(&order, None).unwrap();
    let second = random_big_number(&order, None).unwrap();
    assert_eq!(first.len(), 48);
    assert!(first < order);
    assert!(second < order);
    assert_ne!(first, second);
    let small = scalar(3);
    for _ in 0..8 {
        let drawn = random_big_number(&small, None).unwrap();
        assert!(drawn < small);
    }
}

#[test]
fn ver_key_round_trip() {
    let keypair = Keypair::new(None).unwrap();
    let bytes = keypair.ver_key.to_bytes();
    let back = VerKey::from_bytes(&bytes).unwrap();
    assert_eq!(back.to_bytes(), bytes);
    let msg = "Small msg".as_bytes();
    let sig = Signature::new(msg, &keypair.sig_key);
    assert!(sig.verify(msg, &back));
}

#[test]
fn ver_key_from_bytes_rejects_wrong_length() {
    assert!(matches!(
        VerKey::from_bytes(&[0u8; 97]),
        Err(SerzDeserzError::G2BytesIncorrectSize(97, 192))
    ));
    assert!(matches!(
        VerKey::from_bytes(&[0u8; 193]),
        Err(SerzDeserzError::G2BytesIncorrectSize(193, 192))
    ));
}

#[test]
fn tampered_ver_key_is_another_point() {
    let keypair = Keypair::new(None).unwrap();
    let msg = "Small msg".as_bytes();
    let sig = Signature::new(msg, &keypair.sig_key);
    let bytes = keypair.ver_key.to_bytes();
    for position in [0usize, 47, 48, 100, 150, 191] {
        let mut tampered = bytes.clone();
        tampered[position] ^= 1;
        match VerKey::from_bytes(&tampered) {
            Ok(decoded) => {
                assert_ne!(decoded.to_bytes(), bytes);
                assert!(!sig.verify(msg, &decoded));
            }
            Err(_) => {}
        }
    }
}

#[test]
fn zeroized_key_holds_zeros() {
    let mut sk = SigKey::from_bytes(&scalar(9)).unwrap();
    let before = VerKey::from_sigkey(&sk).to_bytes();
    sk.zeroize();
    let after = VerKey::from_sigkey(&sk).to_bytes();
    assert_ne!(before, after);
    let zero = VerKey::from_sigkey(&SigKey::from_bytes(&scalar(0)).unwrap());
    assert_eq!(after, zero.to_bytes());
}

#[test]
fn largest_scalar_multiplies_as_its_residue_in_both_groups() {
    let reduced: Vec<u8> = vec![
        0, 0, 0, 0, 0, 0, 0, 0, 0, 0, 0, 0, 0, 0, 0, 0, 45, 190, 175, 31, 212, 132, 58, 203, 122, 187, 229, 104, 115, 105, 81, 10, 146, 119, 239, 184, 172, 10, 96, 13, 207, 42, 178, 27, 248, 31, 113, 44,
    ];
    let large = SigKey::from_bytes(&vec![255u8; 48]).unwrap();
    let small = SigKey::from_bytes(&reduced).unwrap();
    assert_eq!(VerKey::from_sigkey(&large).to_bytes(), VerKey::from_sigkey(&small).to_bytes());
    let msg = "Small msg".as_bytes();
    let sig = Signature::new(msg, &large);
    assert_eq!(sig.to_bytes(), Signature::new(msg, &small).to_bytes());
    assert!(sig.verify(msg, &VerKey::from_sigkey(&small)));
}

#[test]
fn pairing_takes_the_identity() {
    let unit = VerKey::from_sigkey(&SigKey::from_bytes(&scalar(1)).unwrap());
    let zero = VerKey::from_sigkey(&SigKey::from_bytes(&scalar(0)).unwrap());
    let point = hash_on_GroupG1("Small msg".as_bytes());
    let first = ate_pairing(&unit.to_bytes(), &identity_bytes());
    let second = ate_pairing(&zero.to_bytes(), &point);
    assert_eq!(first.len(), 576);
    assert_eq!(second.len(), 576);
    let junk = ate_pairing(&vec![255u8; 192], &vec![255u8; 97]);
    assert_eq!(junk.len(), 576);
}

#[test]
fn drawn_entropy_fills_the_whole_buffer() {
    let (filled, first) = draw_entropy(None);
    let (_, second) = draw_entropy(None);
    assert!(filled);
    assert_eq!(first.len(), 256);
    assert_eq!(second.len(), 256);
    assert_ne!(first, second);
    assert_ne!(first, vec![0u8; 256]);
}

#[test]
fn order_scalar_is_drawn_below_the_group_order() {
    let seed = vec![42u8; 256];
    assert!(matches!(order_scalar_from_entropy(false, &seed), Err(EntropyUnavailable)));
    let drawn = order_scalar_from_entropy(true, &seed).unwrap();
    assert_eq!(drawn, scalar_from_entropy(&order_bytes(), true, &seed).unwrap());
    assert!(drawn < order_bytes());
    assert_ne!(drawn, order_scalar_from_entropy(true, &vec![43u8; 256]).unwrap());
}

#[test]
fn keys_from_entropy_follow_the_buffer() {
    let seed = vec![42u8; 256];
    assert!(SigKey::from_entropy(false, &seed).is_err());
    assert!(Keypair::from_entropy(false, &seed).is_err());
    let sk = SigKey::from_entropy(true, &seed).unwrap();
    let expected = SigKey::from_bytes(&order_scalar_from_entropy(true, &seed).unwrap()).unwrap();
    assert_eq!(VerKey::from_sigkey(&sk).to_bytes(), VerKey::from_sigkey(&expected).to_bytes());
    let keypair = Keypair::from_entropy(true, &seed).unwrap();
    assert_eq!(keypair.ver_key.to_bytes(), VerKey::from_sigkey(&expected).to_bytes());
    assert_eq!(keypair.ver_key.to_bytes(), VerKey::from_sigkey(&keypair.sig_key).to_bytes());
    let other = Keypair::from_entropy(true, &vec![43u8; 256]).unwrap();
    assert_ne!(other.ver_key.to_bytes(), keypair.ver_key.to_bytes());
    let msg = "Small msg".as_bytes();
    assert!(Signature::new(msg, &keypair.sig_key).verify(msg, &keypair.ver_key));
}
