use vstd::prelude::*;

verus! {

/// Width in bytes of an encoded scalar or base-field element.
pub const MODBYTES: usize = 48;

/// Width in bytes of an encoded element of the first source group.
pub const GroupG1_SIZE: usize = 97;

/// Width in bytes of an encoded element of the second source group.
pub const GroupG2_SIZE: usize = 192;

/// Width in bytes of an encoded element of the target group.
pub const FP12_SIZE: usize = 576;

/// Width in bytes of an encoded MuSig group element.
pub const GroupG_Size: usize = 97;

/// Number of bytes drawn from the entropy source for one scalar.
pub const ENTROPY_SIZE: usize = 256;

/// Two to the power 64.
pub open spec fn two_pow_64() -> nat {
    0x1_0000_0000_0000_0000
}

/// The order of the groups, as an integer: the 255-bit prime
/// `0x73eda753299d7d48_3339d80809a1d805_53bda402fffe5bfe_ffffffff00000001`.
pub open spec fn group_order() -> nat {
    ((0x73eda753299d7d48 * two_pow_64() + 0x3339d80809a1d805) * two_pow_64()
        + 0x53bda402fffe5bfe) * two_pow_64() + 0xffffffff00000001
}

/// The integer that a big-endian byte string stands for.
pub open spec fn scalar_value(b: Seq<u8>) -> nat
    decreases b.len(),
{
    if b.len() == 0 {
        0
    } else {
        scalar_value(b.drop_last()) * 256 + b.last() as nat
    }
}

/// The encoding of the identity of the first source group.
pub open spec fn g1_identity_encoding() -> Seq<u8> {
    Seq::new(
        97,
        |i: int|
            if i == 0 {
                4u8
            } else if i == 96 {
                1u8
            } else {
                0u8
            },
    )
}

/// The encoding of the generator of the first source group.
pub closed spec fn g1_generator_encoding() -> Seq<u8> {
    seq![
        4u8, 23u8, 241u8, 211u8, 167u8, 49u8, 151u8, 215u8, 148u8, 38u8, 149u8, 99u8, 140u8, 79u8, 169u8, 172u8,
        15u8, 195u8, 104u8, 140u8, 79u8, 151u8, 116u8, 185u8, 5u8, 161u8, 78u8, 58u8, 63u8, 23u8, 27u8, 172u8,
        88u8, 108u8, 85u8, 232u8, 63u8, 249u8, 122u8, 26u8, 239u8, 251u8, 58u8, 240u8, 10u8, 219u8, 34u8, 198u8,
        187u8, 8u8, 179u8, 244u8, 129u8, 227u8, 170u8, 160u8, 241u8, 160u8, 158u8, 48u8, 237u8, 116u8, 29u8, 138u8,
        228u8, 252u8, 245u8, 224u8, 149u8, 213u8, 208u8, 10u8, 246u8, 0u8, 219u8, 24u8, 203u8, 44u8, 4u8, 179u8,
        237u8, 208u8, 60u8, 199u8, 68u8, 162u8, 136u8, 138u8, 228u8, 12u8, 170u8, 35u8, 41u8, 70u8, 197u8, 231u8,
        225u8,
    ]
}

/// The encoding of the generator of the second source group.
pub closed spec fn g2_generator_encoding() -> Seq<u8> {
    seq![
        2u8, 74u8, 162u8, 178u8, 240u8, 143u8, 10u8, 145u8, 38u8, 8u8, 5u8, 39u8, 45u8, 197u8, 16u8, 81u8,
        198u8, 228u8, 122u8, 212u8, 250u8, 64u8, 59u8, 2u8, 180u8, 81u8, 11u8, 100u8, 122u8, 227u8, 209u8, 119u8,
        11u8, 172u8, 3u8, 38u8, 168u8, 5u8, 187u8, 239u8, 212u8, 128u8, 86u8, 200u8, 193u8, 33u8, 189u8, 184u8,
        19u8, 224u8, 43u8, 96u8, 82u8, 113u8, 159u8, 96u8, 125u8, 172u8, 211u8, 160u8, 136u8, 39u8, 79u8, 101u8,
        89u8, 107u8, 208u8, 208u8, 153u8, 32u8, 182u8, 26u8, 181u8, 218u8, 97u8, 187u8, 220u8, 127u8, 80u8, 73u8,
        51u8, 76u8, 241u8, 18u8, 19u8, 148u8, 93u8, 87u8, 229u8, 172u8, 125u8, 5u8, 93u8, 4u8, 43u8, 126u8,
        12u8, 229u8, 213u8, 39u8, 114u8, 125u8, 110u8, 17u8, 140u8, 201u8, 205u8, 198u8, 218u8, 46u8, 53u8, 26u8,
        173u8, 253u8, 155u8, 170u8, 140u8, 189u8, 211u8, 167u8, 109u8, 66u8, 154u8, 105u8, 81u8, 96u8, 209u8, 44u8,
        146u8, 58u8, 201u8, 204u8, 59u8, 172u8, 162u8, 137u8, 225u8, 147u8, 84u8, 134u8, 8u8, 184u8, 40u8, 1u8,
        6u8, 6u8, 196u8, 160u8, 46u8, 167u8, 52u8, 204u8, 50u8, 172u8, 210u8, 176u8, 43u8, 194u8, 139u8, 153u8,
        203u8, 62u8, 40u8, 126u8, 133u8, 167u8, 99u8, 175u8, 38u8, 116u8, 146u8, 171u8, 87u8, 46u8, 153u8, 171u8,
        63u8, 55u8, 13u8, 39u8, 92u8, 236u8, 29u8, 161u8, 170u8, 169u8, 7u8, 95u8, 240u8, 95u8, 121u8, 190u8,
    ]
}

/// The encoding of the group order: its 48 bytes, the highest first.
pub closed spec fn group_order_encoding() -> Seq<u8> {
    seq![
        0u8, 0u8, 0u8, 0u8, 0u8, 0u8, 0u8, 0u8, 0u8, 0u8, 0u8, 0u8, 0u8, 0u8, 0u8, 0u8,
        115u8, 237u8, 167u8, 83u8, 41u8, 157u8, 125u8, 72u8, 51u8, 57u8, 216u8, 8u8, 9u8, 161u8, 216u8, 5u8,
        83u8, 189u8, 164u8, 2u8, 255u8, 254u8, 91u8, 254u8, 255u8, 255u8, 255u8, 255u8, 0u8, 0u8, 0u8, 1u8,
    ]
}

} // verus!
