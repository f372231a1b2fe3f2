//! Object identifiers, and the table of those that this crate names.

use crate::codec::{SimpleAsn1Readable, SimpleAsn1Writable};
use crate::error::{ParseError, WriteError};
use crate::primitive::{bytes_eq, copy_bytes, oid_tag, spec_oid_tag};
use crate::tag::Tag;
use vstd::prelude::*;

verus! {

/// 1.3.14.3.2.26
const SHA1_OID_DER: [u8; 5] = [0x2b, 0x0e, 0x03, 0x02, 0x1a];

/// 2.16.840.1.101.3.4.2.4
const SHA224_OID_DER: [u8; 9] = [0x60, 0x86, 0x48, 0x01, 0x65, 0x03, 0x04, 0x02, 0x04];

/// 2.16.840.1.101.3.4.2.1
const SHA256_OID_DER: [u8; 9] = [0x60, 0x86, 0x48, 0x01, 0x65, 0x03, 0x04, 0x02, 0x01];

/// 2.16.840.1.101.3.4.2.2
const SHA384_OID_DER: [u8; 9] = [0x60, 0x86, 0x48, 0x01, 0x65, 0x03, 0x04, 0x02, 0x02];

/// 2.16.840.1.101.3.4.2.3
const SHA512_OID_DER: [u8; 9] = [0x60, 0x86, 0x48, 0x01, 0x65, 0x03, 0x04, 0x02, 0x03];

/// 1.3.6.1.4.1.37476.3.2.1.99.7.224
const SHA3_224_OID_DER: [u8; 15] = [
    0x2b, 0x06, 0x01, 0x04, 0x01, 0x82, 0xa4, 0x64, 0x03, 0x02, 0x01, 0x63, 0x07, 0x81, 0x60,
];

/// 1.3.6.1.4.1.37476.3.2.1.99.7.256
const SHA3_256_OID_DER: [u8; 15] = [
    0x2b, 0x06, 0x01, 0x04, 0x01, 0x82, 0xa4, 0x64, 0x03, 0x02, 0x01, 0x63, 0x07, 0x82, 0x00,
];

/// 1.3.6.1.4.1.37476.3.2.1.99.7.384
const SHA3_384_OID_DER: [u8; 15] = [
    0x2b, 0x06, 0x01, 0x04, 0x01, 0x82, 0xa4, 0x64, 0x03, 0x02, 0x01, 0x63, 0x07, 0x83, 0x00,
];

/// 1.3.6.1.4.1.37476.3.2.1.99.7.512
const SHA3_512_OID_DER: [u8; 15] = [
    0x2b, 0x06, 0x01, 0x04, 0x01, 0x82, 0xa4, 0x64, 0x03, 0x02, 0x01, 0x63, 0x07, 0x84, 0x00,
];

/// 1.3.101.112
const ED25519_OID_DER: [u8; 3] = [0x2b, 0x65, 0x70];

/// 1.3.101.113
const ED448_OID_DER: [u8; 3] = [0x2b, 0x65, 0x71];

/// 1.3.101.110
const X25519_OID_DER: [u8; 3] = [0x2b, 0x65, 0x6e];

/// 1.3.101.111
const X448_OID_DER: [u8; 3] = [0x2b, 0x65, 0x6f];

/// 1.2.840.10045.2.1
const EC_OID_DER: [u8; 7] = [0x2a, 0x86, 0x48, 0xce, 0x3d, 0x02, 0x01];

/// 1.2.840.113549.1.1.1
const RSA_OID_DER: [u8; 9] = [0x2a, 0x86, 0x48, 0x86, 0xf7, 0x0d, 0x01, 0x01, 0x01];

/// 2.16.840.1.101.3.4.1.2
const AES_128_CBC_OID_DER: [u8; 9] = [0x60, 0x86, 0x48, 0x01, 0x65, 0x03, 0x04, 0x01, 0x02];

/// 1.2.840.10045.4.3.1
const ECDSA_WITH_SHA224_OID_DER: [u8; 8] = [0x2a, 0x86, 0x48, 0xce, 0x3d, 0x04, 0x03, 0x01];

/// 1.2.840.10045.4.3.2
const ECDSA_WITH_SHA256_OID_DER: [u8; 8] = [0x2a, 0x86, 0x48, 0xce, 0x3d, 0x04, 0x03, 0x02];

/// 1.2.840.10045.4.3.3
const ECDSA_WITH_SHA384_OID_DER: [u8; 8] = [0x2a, 0x86, 0x48, 0xce, 0x3d, 0x04, 0x03, 0x03];

/// 1.2.840.10045.4.3.4
const ECDSA_WITH_SHA512_OID_DER: [u8; 8] = [0x2a, 0x86, 0x48, 0xce, 0x3d, 0x04, 0x03, 0x04];

/// 2.16.840.1.101.3.4.3.9
const ECDSA_WITH_SHA3_224_OID_DER: [u8; 9] = [0x60, 0x86, 0x48, 0x01, 0x65, 0x03, 0x04, 0x03, 0x09];

/// 2.16.840.1.101.3.4.3.10
const ECDSA_WITH_SHA3_256_OID_DER: [u8; 9] = [0x60, 0x86, 0x48, 0x01, 0x65, 0x03, 0x04, 0x03, 0x0a];

/// 2.16.840.1.101.3.4.3.11
const ECDSA_WITH_SHA3_384_OID_DER: [u8; 9] = [0x60, 0x86, 0x48, 0x01, 0x65, 0x03, 0x04, 0x03, 0x0b];

/// 2.16.840.1.101.3.4.3.12
const ECDSA_WITH_SHA3_512_OID_DER: [u8; 9] = [0x60, 0x86, 0x48, 0x01, 0x65, 0x03, 0x04, 0x03, 0x0c];

/// 1.2.840.113549.1.1.5
const RSA_WITH_SHA1_OID_DER: [u8; 9] = [0x2a, 0x86, 0x48, 0x86, 0xf7, 0x0d, 0x01, 0x01, 0x05];

/// 1.3.14.3.2.29
const RSA_WITH_SHA1_ALT_OID_DER: [u8; 5] = [0x2b, 0x0e, 0x03, 0x02, 0x1d];

/// 1.2.840.113549.1.1.14
const RSA_WITH_SHA224_OID_DER: [u8; 9] = [0x2a, 0x86, 0x48, 0x86, 0xf7, 0x0d, 0x01, 0x01, 0x0e];

/// 1.2.840.113549.1.1.11
const RSA_WITH_SHA256_OID_DER: [u8; 9] = [0x2a, 0x86, 0x48, 0x86, 0xf7, 0x0d, 0x01, 0x01, 0x0b];

/// 1.2.840.113549.1.1.12
const RSA_WITH_SHA384_OID_DER: [u8; 9] = [0x2a, 0x86, 0x48, 0x86, 0xf7, 0x0d, 0x01, 0x01, 0x0c];

/// 1.2.840.113549.1.1.13
const RSA_WITH_SHA512_OID_DER: [u8; 9] = [0x2a, 0x86, 0x48, 0x86, 0xf7, 0x0d, 0x01, 0x01, 0x0d];

/// 2.16.840.1.101.3.4.3.13
const RSA_WITH_SHA3_224_OID_DER: [u8; 9] = [0x60, 0x86, 0x48, 0x01, 0x65, 0x03, 0x04, 0x03, 0x0d];

/// 2.16.840.1.101.3.4.3.14
const RSA_WITH_SHA3_256_OID_DER: [u8; 9] = [0x60, 0x86, 0x48, 0x01, 0x65, 0x03, 0x04, 0x03, 0x0e];

/// 2.16.840.1.101.3.4.3.15
const RSA_WITH_SHA3_384_OID_DER: [u8; 9] = [0x60, 0x86, 0x48, 0x01, 0x65, 0x03, 0x04, 0x03, 0x0f];

/// 2.16.840.1.101.3.4.3.16
const RSA_WITH_SHA3_512_OID_DER: [u8; 9] = [0x60, 0x86, 0x48, 0x01, 0x65, 0x03, 0x04, 0x03, 0x10];

/// 1.2.840.113549.1.1.10
const RSASSA_PSS_OID_DER: [u8; 9] = [0x2a, 0x86, 0x48, 0x86, 0xf7, 0x0d, 0x01, 0x01, 0x0a];

/// 1.2.840.10040.4.1
const DSA_OID_DER: [u8; 7] = [0x2a, 0x86, 0x48, 0xce, 0x38, 0x04, 0x01];

/// 2.16.840.1.101.3.4.3.1
const DSA_WITH_SHA224_OID_DER: [u8; 9] = [0x60, 0x86, 0x48, 0x01, 0x65, 0x03, 0x04, 0x03, 0x01];

/// 2.16.840.1.101.3.4.3.2
const DSA_WITH_SHA256_OID_DER: [u8; 9] = [0x60, 0x86, 0x48, 0x01, 0x65, 0x03, 0x04, 0x03, 0x02];

/// 2.16.840.1.101.3.4.3.3
const DSA_WITH_SHA384_OID_DER: [u8; 9] = [0x60, 0x86, 0x48, 0x01, 0x65, 0x03, 0x04, 0x03, 0x03];

/// 2.16.840.1.101.3.4.3.4
const DSA_WITH_SHA512_OID_DER: [u8; 9] = [0x60, 0x86, 0x48, 0x01, 0x65, 0x03, 0x04, 0x03, 0x04];

/// 1.2.840.10046.2.1
const DH_OID_DER: [u8; 7] = [0x2a, 0x86, 0x48, 0xce, 0x3e, 0x02, 0x01];

/// 1.2.840.113549.1.3.1
const DH_KEY_AGREEMENT_OID_DER: [u8; 9] = [0x2a, 0x86, 0x48, 0x86, 0xf7, 0x0d, 0x01, 0x03, 0x01];

/// 1.2.840.113549.1.1.8
const MGF1_OID_DER: [u8; 9] = [0x2a, 0x86, 0x48, 0x86, 0xf7, 0x0d, 0x01, 0x01, 0x08];

/// The object identifiers that this crate names.
#[derive(Clone, Copy, Debug, PartialEq, Eq, Hash, Structural)]
pub enum KnownOid {
    /// 1.3.14.3.2.26
    Sha1,
    /// 2.16.840.1.101.3.4.2.4
    Sha224,
    /// 2.16.840.1.101.3.4.2.1
    Sha256,
    /// 2.16.840.1.101.3.4.2.2
    Sha384,
    /// 2.16.840.1.101.3.4.2.3
    Sha512,
    /// 1.3.6.1.4.1.37476.3.2.1.99.7.224
    Sha3_224,
    /// 1.3.6.1.4.1.37476.3.2.1.99.7.256
    Sha3_256,
    /// 1.3.6.1.4.1.37476.3.2.1.99.7.384
    Sha3_384,
    /// 1.3.6.1.4.1.37476.3.2.1.99.7.512
    Sha3_512,
    /// 1.3.101.112
    Ed25519,
    /// 1.3.101.113
    Ed448,
    /// 1.3.101.110
    X25519,
    /// 1.3.101.111
    X448,
    /// 1.2.840.10045.2.1
    Ec,
    /// 1.2.840.113549.1.1.1
    Rsa,
    /// 2.16.840.1.101.3.4.1.2
    AesCbc,
    /// 1.2.840.10045.4.3.1
    EcDsaWithSha224,
    /// 1.2.840.10045.4.3.2
    EcDsaWithSha256,
    /// 1.2.840.10045.4.3.3
    EcDsaWithSha384,
    /// 1.2.840.10045.4.3.4
    EcDsaWithSha512,
    /// 2.16.840.1.101.3.4.3.9
    EcDsaWithSha3_224,
    /// 2.16.840.1.101.3.4.3.10
    EcDsaWithSha3_256,
    /// 2.16.840.1.101.3.4.3.11
    EcDsaWithSha3_384,
    /// 2.16.840.1.101.3.4.3.12
    EcDsaWithSha3_512,
    /// 1.2.840.113549.1.1.5
    RsaWithSha1,
    /// 1.3.14.3.2.29
    RsaWithSha1Alt,
    /// 1.2.840.113549.1.1.14
    RsaWithSha224,
    /// 1.2.840.113549.1.1.11
    RsaWithSha256,
    /// 1.2.840.113549.1.1.12
    RsaWithSha384,
    /// 1.2.840.113549.1.1.13
    RsaWithSha512,
    /// 2.16.840.1.101.3.4.3.13
    RsaWithSha3_224,
    /// 2.16.840.1.101.3.4.3.14
    RsaWithSha3_256,
    /// 2.16.840.1.101.3.4.3.15
    RsaWithSha3_384,
    /// 2.16.840.1.101.3.4.3.16
    RsaWithSha3_512,
    /// 1.2.840.113549.1.1.10
    RsaPss,
    /// 1.2.840.10040.4.1
    Dsa,
    /// 2.16.840.1.101.3.4.3.1
    DsaWithSha224,
    /// 2.16.840.1.101.3.4.3.2
    DsaWithSha256,
    /// 2.16.840.1.101.3.4.3.3
    DsaWithSha384,
    /// 2.16.840.1.101.3.4.3.4
    DsaWithSha512,
    /// 1.2.840.10046.2.1
    Dh,
    /// 1.2.840.113549.1.3.1
    DhKeyAgreement,
    /// 1.2.840.113549.1.1.8
    Mgf1,
}

impl KnownOid {
    /// The content octets of the identifier.
    pub open spec fn spec_der(self) -> Seq<u8> {
        match self {
            KnownOid::Sha1 => seq![0x2bu8, 0x0e, 0x03, 0x02, 0x1a],
            KnownOid::Sha224 => seq![0x60u8, 0x86, 0x48, 0x01, 0x65, 0x03, 0x04, 0x02, 0x04],
            KnownOid::Sha256 => seq![0x60u8, 0x86, 0x48, 0x01, 0x65, 0x03, 0x04, 0x02, 0x01],
            KnownOid::Sha384 => seq![0x60u8, 0x86, 0x48, 0x01, 0x65, 0x03, 0x04, 0x02, 0x02],
            KnownOid::Sha512 => seq![0x60u8, 0x86, 0x48, 0x01, 0x65, 0x03, 0x04, 0x02, 0x03],
            KnownOid::Sha3_224 => seq![
                0x2bu8, 0x06, 0x01, 0x04, 0x01, 0x82, 0xa4, 0x64, 0x03, 0x02, 0x01, 0x63, 0x07, 0x81, 0x60,
            ],
            KnownOid::Sha3_256 => seq![
                0x2bu8, 0x06, 0x01, 0x04, 0x01, 0x82, 0xa4, 0x64, 0x03, 0x02, 0x01, 0x63, 0x07, 0x82, 0x00,
            ],
            KnownOid::Sha3_384 => seq![
                0x2bu8, 0x06, 0x01, 0x04, 0x01, 0x82, 0xa4, 0x64, 0x03, 0x02, 0x01, 0x63, 0x07, 0x83, 0x00,
            ],
            KnownOid::Sha3_512 => seq![
                0x2bu8, 0x06, 0x01, 0x04, 0x01, 0x82, 0xa4, 0x64, 0x03, 0x02, 0x01, 0x63, 0x07, 0x84, 0x00,
            ],
            KnownOid::Ed25519 => seq![0x2bu8, 0x65, 0x70],
            KnownOid::Ed448 => seq![0x2bu8, 0x65, 0x71],
            KnownOid::X25519 => seq![0x2bu8, 0x65, 0x6e],
            KnownOid::X448 => seq![0x2bu8, 0x65, 0x6f],
            KnownOid::Ec => seq![0x2au8, 0x86, 0x48, 0xce, 0x3d, 0x02, 0x01],
            KnownOid::Rsa => seq![0x2au8, 0x86, 0x48, 0x86, 0xf7, 0x0d, 0x01, 0x01, 0x01],
            KnownOid::AesCbc => seq![0x60u8, 0x86, 0x48, 0x01, 0x65, 0x03, 0x04, 0x01, 0x02],
            KnownOid::EcDsaWithSha224 => seq![0x2au8, 0x86, 0x48, 0xce, 0x3d, 0x04, 0x03, 0x01],
            KnownOid::EcDsaWithSha256 => seq![0x2au8, 0x86, 0x48, 0xce, 0x3d, 0x04, 0x03, 0x02],
            KnownOid::EcDsaWithSha384 => seq![0x2au8, 0x86, 0x48, 0xce, 0x3d, 0x04, 0x03, 0x03],
            KnownOid::EcDsaWithSha512 => seq![0x2au8, 0x86, 0x48, 0xce, 0x3d, 0x04, 0x03, 0x04],
            KnownOid::EcDsaWithSha3_224 => seq![0x60u8, 0x86, 0x48, 0x01, 0x65, 0x03, 0x04, 0x03, 0x09],
            KnownOid::EcDsaWithSha3_256 => seq![0x60u8, 0x86, 0x48, 0x01, 0x65, 0x03, 0x04, 0x03, 0x0a],
            KnownOid::EcDsaWithSha3_384 => seq![0x60u8, 0x86, 0x48, 0x01, 0x65, 0x03, 0x04, 0x03, 0x0b],
            KnownOid::EcDsaWithSha3_512 => seq![0x60u8, 0x86, 0x48, 0x01, 0x65, 0x03, 0x04, 0x03, 0x0c],
            KnownOid::RsaWithSha1 => seq![0x2au8, 0x86, 0x48, 0x86, 0xf7, 0x0d, 0x01, 0x01, 0x05],
            KnownOid::RsaWithSha1Alt => seq![0x2bu8, 0x0e, 0x03, 0x02, 0x1d],
            KnownOid::RsaWithSha224 => seq![0x2au8, 0x86, 0x48, 0x86, 0xf7, 0x0d, 0x01, 0x01, 0x0e],
            KnownOid::RsaWithSha256 => seq![0x2au8, 0x86, 0x48, 0x86, 0xf7, 0x0d, 0x01, 0x01, 0x0b],
            KnownOid::RsaWithSha384 => seq![0x2au8, 0x86, 0x48, 0x86, 0xf7, 0x0d, 0x01, 0x01, 0x0c],
            KnownOid::RsaWithSha512 => seq![0x2au8, 0x86, 0x48, 0x86, 0xf7, 0x0d, 0x01, 0x01, 0x0d],
            KnownOid::RsaWithSha3_224 => seq![0x60u8, 0x86, 0x48, 0x01, 0x65, 0x03, 0x04, 0x03, 0x0d],
            KnownOid::RsaWithSha3_256 => seq![0x60u8, 0x86, 0x48, 0x01, 0x65, 0x03, 0x04, 0x03, 0x0e],
            KnownOid::RsaWithSha3_384 => seq![0x60u8, 0x86, 0x48, 0x01, 0x65, 0x03, 0x04, 0x03, 0x0f],
            KnownOid::RsaWithSha3_512 => seq![0x60u8, 0x86, 0x48, 0x01, 0x65, 0x03, 0x04, 0x03, 0x10],
            KnownOid::RsaPss => seq![0x2au8, 0x86, 0x48, 0x86, 0xf7, 0x0d, 0x01, 0x01, 0x0a],
            KnownOid::Dsa => seq![0x2au8, 0x86, 0x48, 0xce, 0x38, 0x04, 0x01],
            KnownOid::DsaWithSha224 => seq![0x60u8, 0x86, 0x48, 0x01, 0x65, 0x03, 0x04, 0x03, 0x01],
            KnownOid::DsaWithSha256 => seq![0x60u8, 0x86, 0x48, 0x01, 0x65, 0x03, 0x04, 0x03, 0x02],
            KnownOid::DsaWithSha384 => seq![0x60u8, 0x86, 0x48, 0x01, 0x65, 0x03, 0x04, 0x03, 0x03],
            KnownOid::DsaWithSha512 => seq![0x60u8, 0x86, 0x48, 0x01, 0x65, 0x03, 0x04, 0x03, 0x04],
            KnownOid::Dh => seq![0x2au8, 0x86, 0x48, 0xce, 0x3e, 0x02, 0x01],
            KnownOid::DhKeyAgreement => seq![0x2au8, 0x86, 0x48, 0x86, 0xf7, 0x0d, 0x01, 0x03, 0x01],
            KnownOid::Mgf1 => seq![0x2au8, 0x86, 0x48, 0x86, 0xf7, 0x0d, 0x01, 0x01, 0x08],
        }
    }

    /// The length of the identifier and its last three octets, which tell
    /// the identifiers of the table apart.
    pub open spec fn spec_fingerprint(self) -> (nat, u8, u8, u8) {
        match self {
            KnownOid::Sha1 => (5, 0x1a, 0x02, 0x03),
            KnownOid::Sha224 => (9, 0x04, 0x02, 0x04),
            KnownOid::Sha256 => (9, 0x01, 0x02, 0x04),
            KnownOid::Sha384 => (9, 0x02, 0x02, 0x04),
            KnownOid::Sha512 => (9, 0x03, 0x02, 0x04),
            KnownOid::Sha3_224 => (15, 0x60, 0x81, 0x07),
            KnownOid::Sha3_256 => (15, 0x00, 0x82, 0x07),
            KnownOid::Sha3_384 => (15, 0x00, 0x83, 0x07),
            KnownOid::Sha3_512 => (15, 0x00, 0x84, 0x07),
            KnownOid::Ed25519 => (3, 0x70, 0x65, 0x2b),
            KnownOid::Ed448 => (3, 0x71, 0x65, 0x2b),
            KnownOid::X25519 => (3, 0x6e, 0x65, 0x2b),
            KnownOid::X448 => (3, 0x6f, 0x65, 0x2b),
            KnownOid::Ec => (7, 0x01, 0x02, 0x3d),
            KnownOid::Rsa => (9, 0x01, 0x01, 0x01),
            KnownOid::AesCbc => (9, 0x02, 0x01, 0x04),
            KnownOid::EcDsaWithSha224 => (8, 0x01, 0x03, 0x04),
            KnownOid::EcDsaWithSha256 => (8, 0x02, 0x03, 0x04),
            KnownOid::EcDsaWithSha384 => (8, 0x03, 0x03, 0x04),
            KnownOid::EcDsaWithSha512 => (8, 0x04, 0x03, 0x04),
            KnownOid::EcDsaWithSha3_224 => (9, 0x09, 0x03, 0x04),
            KnownOid::EcDsaWithSha3_256 => (9, 0x0a, 0x03, 0x04),
            KnownOid::EcDsaWithSha3_384 => (9, 0x0b, 0x03, 0x04),
            KnownOid::EcDsaWithSha3_512 => (9, 0x0c, 0x03, 0x04),
            KnownOid::RsaWithSha1 => (9, 0x05, 0x01, 0x01),
            KnownOid::RsaWithSha1Alt => (5, 0x1d, 0x02, 0x03),
            KnownOid::RsaWithSha224 => (9, 0x0e, 0x01, 0x01),
            KnownOid::RsaWithSha256 => (9, 0x0b, 0x01, 0x01),
            KnownOid::RsaWithSha384 => (9, 0x0c, 0x01, 0x01),
            KnownOid::RsaWithSha512 => (9, 0x0d, 0x01, 0x01),
            KnownOid::RsaWithSha3_224 => (9, 0x0d, 0x03, 0x04),
            KnownOid::RsaWithSha3_256 => (9, 0x0e, 0x03, 0x04),
            KnownOid::RsaWithSha3_384 => (9, 0x0f, 0x03, 0x04),
            KnownOid::RsaWithSha3_512 => (9, 0x10, 0x03, 0x04),
            KnownOid::RsaPss => (9, 0x0a, 0x01, 0x01),
            KnownOid::Dsa => (7, 0x01, 0x04, 0x38),
            KnownOid::DsaWithSha224 => (9, 0x01, 0x03, 0x04),
            KnownOid::DsaWithSha256 => (9, 0x02, 0x03, 0x04),
            KnownOid::DsaWithSha384 => (9, 0x03, 0x03, 0x04),
            KnownOid::DsaWithSha512 => (9, 0x04, 0x03, 0x04),
            KnownOid::Dh => (7, 0x01, 0x02, 0x3e),
            KnownOid::DhKeyAgreement => (9, 0x01, 0x03, 0x01),
            KnownOid::Mgf1 => (9, 0x08, 0x01, 0x01),
        }
    }

    /// The content octets of the identifier.
    pub fn der(self) -> (r: &'static [u8])
        ensures
            r@ == self.spec_der(),
    {
        match self {
            KnownOid::Sha1 => {
                let r: &'static [u8] = &SHA1_OID_DER;
                r
            },
            KnownOid::Sha224 => {
                let r: &'static [u8] = &SHA224_OID_DER;
                r
            },
            KnownOid::Sha256 => {
                let r: &'static [u8] = &SHA256_OID_DER;
                r
            },
            KnownOid::Sha384 => {
                let r: &'static [u8] = &SHA384_OID_DER;
                r
            },
            KnownOid::Sha512 => {
                let r: &'static [u8] = &SHA512_OID_DER;
                r
            },
            KnownOid::Sha3_224 => {
                let r: &'static [u8] = &SHA3_224_OID_DER;
                r
            },
            KnownOid::Sha3_256 => {
                let r: &'static [u8] = &SHA3_256_OID_DER;
                r
            },
            KnownOid::Sha3_384 => {
                let r: &'static [u8] = &SHA3_384_OID_DER;
                r
            },
            KnownOid::Sha3_512 => {
                let r: &'static [u8] = &SHA3_512_OID_DER;
                r
            },
            KnownOid::Ed25519 => {
                let r: &'static [u8] = &ED25519_OID_DER;
                r
            },
            KnownOid::Ed448 => {
                let r: &'static [u8] = &ED448_OID_DER;
                r
            },
            KnownOid::X25519 => {
                let r: &'static [u8] = &X25519_OID_DER;
                r
            },
            KnownOid::X448 => {
                let r: &'static [u8] = &X448_OID_DER;
                r
            },
            KnownOid::Ec => {
                let r: &'static [u8] = &EC_OID_DER;
                r
            },
            KnownOid::Rsa => {
                let r: &'static [u8] = &RSA_OID_DER;
                r
            },
            KnownOid::AesCbc => {
                let r: &'static [u8] = &AES_128_CBC_OID_DER;
                r
            },
            KnownOid::EcDsaWithSha224 => {
                let r: &'static [u8] = &ECDSA_WITH_SHA224_OID_DER;
                r
            },
            KnownOid::EcDsaWithSha256 => {
                let r: &'static [u8] = &ECDSA_WITH_SHA256_OID_DER;
                r
            },
            KnownOid::EcDsaWithSha384 => {
                let r: &'static [u8] = &ECDSA_WITH_SHA384_OID_DER;
                r
            },
            KnownOid::EcDsaWithSha512 => {
                let r: &'static [u8] = &ECDSA_WITH_SHA512_OID_DER;
                r
            },
            KnownOid::EcDsaWithSha3_224 => {
                let r: &'static [u8] = &ECDSA_WITH_SHA3_224_OID_DER;
                r
            },
            KnownOid::EcDsaWithSha3_256 => {
                let r: &'static [u8] = &ECDSA_WITH_SHA3_256_OID_DER;
                r
            },
            KnownOid::EcDsaWithSha3_384 => {
                let r: &'static [u8] = &ECDSA_WITH_SHA3_384_OID_DER;
                r
            },
            KnownOid::EcDsaWithSha3_512 => {
                let r: &'static [u8] = &ECDSA_WITH_SHA3_512_OID_DER;
                r
            },
            KnownOid::RsaWithSha1 => {
                let r: &'static [u8] = &RSA_WITH_SHA1_OID_DER;
                r
            },
            KnownOid::RsaWithSha1Alt => {
                let r: &'static [u8] = &RSA_WITH_SHA1_ALT_OID_DER;
                r
            },
            KnownOid::RsaWithSha224 => {
                let r: &'static [u8] = &RSA_WITH_SHA224_OID_DER;
                r
            },
            KnownOid::RsaWithSha256 => {
                let r: &'static [u8] = &RSA_WITH_SHA256_OID_DER;
                r
            },
            KnownOid::RsaWithSha384 => {
                let r: &'static [u8] = &RSA_WITH_SHA384_OID_DER;
                r
            },
            KnownOid::RsaWithSha512 => {
                let r: &'static [u8] = &RSA_WITH_SHA512_OID_DER;
                r
            },
            KnownOid::RsaWithSha3_224 => {
                let r: &'static [u8] = &RSA_WITH_SHA3_224_OID_DER;
                r
            },
            KnownOid::RsaWithSha3_256 => {
                let r: &'static [u8] = &RSA_WITH_SHA3_256_OID_DER;
                r
            },
            KnownOid::RsaWithSha3_384 => {
                let r: &'static [u8] = &RSA_WITH_SHA3_384_OID_DER;
                r
            },
            KnownOid::RsaWithSha3_512 => {
                let r: &'static [u8] = &RSA_WITH_SHA3_512_OID_DER;
                r
            },
            KnownOid::RsaPss => {
                let r: &'static [u8] = &RSASSA_PSS_OID_DER;
                r
            },
            KnownOid::Dsa => {
                let r: &'static [u8] = &DSA_OID_DER;
                r
            },
            KnownOid::DsaWithSha224 => {
                let r: &'static [u8] = &DSA_WITH_SHA224_OID_DER;
                r
            },
            KnownOid::DsaWithSha256 => {
                let r: &'static [u8] = &DSA_WITH_SHA256_OID_DER;
                r
            },
            KnownOid::DsaWithSha384 => {
                let r: &'static [u8] = &DSA_WITH_SHA384_OID_DER;
                r
            },
            KnownOid::DsaWithSha512 => {
                let r: &'static [u8] = &DSA_WITH_SHA512_OID_DER;
                r
            },
            KnownOid::Dh => {
                let r: &'static [u8] = &DH_OID_DER;
                r
            },
            KnownOid::DhKeyAgreement => {
                let r: &'static [u8] = &DH_KEY_AGREEMENT_OID_DER;
                r
            },
            KnownOid::Mgf1 => {
                let r: &'static [u8] = &MGF1_OID_DER;
                r
            },
        }
    }
}

/// The length and the last three octets of a byte string of three octets or
/// more.
pub open spec fn fingerprint(s: Seq<u8>) -> (nat, u8, u8, u8) {
    (s.len(), s[s.len() - 1], s[s.len() - 2], s[s.len() - 3])
}

/// The fingerprint of each entry of the table is as the table says.
pub proof fn lemma_known_fingerprint(k: KnownOid)
    ensures
        fingerprint(k.spec_der()) == k.spec_fingerprint(),
        3 <= k.spec_der().len() <= 15,
{
}

/// No two entries of the table have the same octets.
pub proof fn lemma_known_injective(a: KnownOid, b: KnownOid)
    requires
        a.spec_der() == b.spec_der(),
    ensures
        a == b,
{
    lemma_known_fingerprint(a);
    lemma_known_fingerprint(b);
}

/// Whether `s` is an identifier of the table.
pub open spec fn is_listed(s: Seq<u8>) -> bool {
    exists|k: KnownOid| s == #[trigger] k.spec_der()
}

/// The entry of the table whose octets are `s`.
pub open spec fn spec_lookup(s: Seq<u8>) -> Option<KnownOid> {
    if is_listed(s) {
        Some(choose|k: KnownOid| s == #[trigger] k.spec_der())
    } else {
        None
    }
}

/// An entry of the table is found by its octets.
pub proof fn lemma_lookup_known(k: KnownOid)
    ensures
        spec_lookup(k.spec_der()) == Some(k),
        is_listed(k.spec_der()),
{
    let s = k.spec_der();
    assert(is_listed(s));
    let c = choose|c: KnownOid| s == #[trigger] c.spec_der();
    lemma_known_injective(c, k);
}

/// What is found has the octets that were looked for.
pub proof fn lemma_lookup_sound(s: Seq<u8>)
    ensures
        spec_lookup(s) matches Some(k) ==> s == k.spec_der(),
{
}

/// Looks `data` up in the table.
pub fn lookup(data: &[u8]) -> (r: Option<KnownOid>)
    ensures
        r == spec_lookup(data@),
{
    let found = find(data);
    proof {
        match found {
            Some(k) => {
                lemma_lookup_known(k);
            },
            None => {},
        }
    }
    found
}

/// The first entry of the table, in the order of its declaration, whose
/// octets are `data`.
fn find(data: &[u8]) -> (r: Option<KnownOid>)
    ensures
        r matches Some(k) ==> data@ == k.spec_der(),
        r.is_none() ==> forall|k: KnownOid| data@ != #[trigger] k.spec_der(),
{
    if bytes_eq(data, KnownOid::Sha1.der()) {
        Some(KnownOid::Sha1)
    } else if bytes_eq(data, KnownOid::Sha224.der()) {
        Some(KnownOid::Sha224)
    } else if bytes_eq(data, KnownOid::Sha256.der()) {
        Some(KnownOid::Sha256)
    } else if bytes_eq(data, KnownOid::Sha384.der()) {
        Some(KnownOid::Sha384)
    } else if bytes_eq(data, KnownOid::Sha512.der()) {
        Some(KnownOid::Sha512)
    } else if bytes_eq(data, KnownOid::Sha3_224.der()) {
        Some(KnownOid::Sha3_224)
    } else if bytes_eq(data, KnownOid::Sha3_256.der()) {
        Some(KnownOid::Sha3_256)
    } else if bytes_eq(data, KnownOid::Sha3_384.der()) {
        Some(KnownOid::Sha3_384)
    } else if bytes_eq(data, KnownOid::Sha3_512.der()) {
        Some(KnownOid::Sha3_512)
    } else if bytes_eq(data, KnownOid::Ed25519.der()) {
        Some(KnownOid::Ed25519)
    } else if bytes_eq(data, KnownOid::Ed448.der()) {
        Some(KnownOid::Ed448)
    } else if bytes_eq(data, KnownOid::X25519.der()) {
        Some(KnownOid::X25519)
    } else if bytes_eq(data, KnownOid::X448.der()) {
        Some(KnownOid::X448)
    } else if bytes_eq(data, KnownOid::Ec.der()) {
        Some(KnownOid::Ec)
    } else if bytes_eq(data, KnownOid::Rsa.der()) {
        Some(KnownOid::Rsa)
    } else if bytes_eq(data, KnownOid::AesCbc.der()) {
        Some(KnownOid::AesCbc)
    } else if bytes_eq(data, KnownOid::EcDsaWithSha224.der()) {
        Some(KnownOid::EcDsaWithSha224)
    } else if bytes_eq(data, KnownOid::EcDsaWithSha256.der()) {
        Some(KnownOid::EcDsaWithSha256)
    } else if bytes_eq(data, KnownOid::EcDsaWithSha384.der()) {
        Some(KnownOid::EcDsaWithSha384)
    } else if bytes_eq(data, KnownOid::EcDsaWithSha512.der()) {
        Some(KnownOid::EcDsaWithSha512)
    } else if bytes_eq(data, KnownOid::EcDsaWithSha3_224.der()) {
        Some(KnownOid::EcDsaWithSha3_224)
    } else if bytes_eq(data, KnownOid::EcDsaWithSha3_256.der()) {
        Some(KnownOid::EcDsaWithSha3_256)
    } else if bytes_eq(data, KnownOid::EcDsaWithSha3_384.der()) {
        Some(KnownOid::EcDsaWithSha3_384)
    } else if bytes_eq(data, KnownOid::EcDsaWithSha3_512.der()) {
        Some(KnownOid::EcDsaWithSha3_512)
    } else if bytes_eq(data, KnownOid::RsaWithSha1.der()) {
        Some(KnownOid::RsaWithSha1)
    } else if bytes_eq(data, KnownOid::RsaWithSha1Alt.der()) {
        Some(KnownOid::RsaWithSha1Alt)
    } else if bytes_eq(data, KnownOid::RsaWithSha224.der()) {
        Some(KnownOid::RsaWithSha224)
    } else if bytes_eq(data, KnownOid::RsaWithSha256.der()) {
        Some(KnownOid::RsaWithSha256)
    } else if bytes_eq(data, KnownOid::RsaWithSha384.der()) {
        Some(KnownOid::RsaWithSha384)
    } else if bytes_eq(data, KnownOid::RsaWithSha512.der()) {
        Some(KnownOid::RsaWithSha512)
    } else if bytes_eq(data, KnownOid::RsaWithSha3_224.der()) {
        Some(KnownOid::RsaWithSha3_224)
    } else if bytes_eq(data, KnownOid::RsaWithSha3_256.der()) {
        Some(KnownOid::RsaWithSha3_256)
    } else if bytes_eq(data, KnownOid::RsaWithSha3_384.der()) {
        Some(KnownOid::RsaWithSha3_384)
    } else if bytes_eq(data, KnownOid::RsaWithSha3_512.der()) {
        Some(KnownOid::RsaWithSha3_512)
    } else if bytes_eq(data, KnownOid::RsaPss.der()) {
        Some(KnownOid::RsaPss)
    } else if bytes_eq(data, KnownOid::Dsa.der()) {
        Some(KnownOid::Dsa)
    } else if bytes_eq(data, KnownOid::DsaWithSha224.der()) {
        Some(KnownOid::DsaWithSha224)
    } else if bytes_eq(data, KnownOid::DsaWithSha256.der()) {
        Some(KnownOid::DsaWithSha256)
    } else if bytes_eq(data, KnownOid::DsaWithSha384.der()) {
        Some(KnownOid::DsaWithSha384)
    } else if bytes_eq(data, KnownOid::DsaWithSha512.der()) {
        Some(KnownOid::DsaWithSha512)
    } else if bytes_eq(data, KnownOid::Dh.der()) {
        Some(KnownOid::Dh)
    } else if bytes_eq(data, KnownOid::DhKeyAgreement.der()) {
        Some(KnownOid::DhKeyAgreement)
    } else if bytes_eq(data, KnownOid::Mgf1.der()) {
        Some(KnownOid::Mgf1)
    } else {
        None
    }
}

/// What `asn1::ObjectIdentifier::from_der` makes of `data`: nothing where it
/// accepts the octets as an object identifier, else the error.
pub uninterp spec fn der_oid_check(data: Seq<u8>) -> Option<ParseError>;

/// Calls `asn1::ObjectIdentifier::from_der`. Claimed of it: whether it
/// accepts depends on the octets alone; it accepts no empty byte string and
/// none of more than 63 octets; what it does not accept it reports as an
/// invalid value or as too long.
#[verifier::external_body]
fn oid_from_der(data: &[u8]) -> (r: Option<ParseError>)
    ensures
        r == der_oid_check(data@),
        r.is_none() ==> 1 <= data@.len() <= 63,
        r matches Some(e) ==> e is InvalidValue || e is OidTooLong,
{
    match asn1::ObjectIdentifier::from_der(data) {
        Ok(_) => None,
        Err(e) => Some(match e.kind() {
            asn1::ParseErrorKind::OidTooLong => ParseError::OidTooLong,
            _ => ParseError::InvalidValue,
        }),
    }
}

/// Whether `s` is held as an object identifier: the identifiers of the table
/// are, and besides them what `asn1` accepts.
pub open spec fn oid_accepted(s: Seq<u8>) -> bool {
    is_listed(s) || der_oid_check(s).is_none()
}

/// Decoding the content of an OBJECT IDENTIFIER.
pub open spec fn spec_parse_oid(data: Seq<u8>) -> Result<Seq<u8>, ParseError> {
    if is_listed(data) {
        Ok(data)
    } else {
        match der_oid_check(data) {
            None => Ok(data),
            Some(e) => Err(e),
        }
    }
}

/// An object identifier, as the content octets of its DER form.
#[derive(Clone, Copy, Debug, PartialEq, Eq, Hash)]
pub struct ObjectIdentifier<'a> {
    der: &'a [u8],
}

impl<'a> View for ObjectIdentifier<'a> {
    type V = Seq<u8>;

    closed spec fn view(&self) -> Seq<u8> {
        self.der@
    }
}

impl<'a> DeepView for ObjectIdentifier<'a> {
    type V = Seq<u8>;

    open spec fn deep_view(&self) -> Seq<u8> {
        self@
    }
}

impl<'a> ObjectIdentifier<'a> {
    #[verifier::type_invariant]
    spec fn well_formed(self) -> bool {
        oid_accepted(self.der@)
    }

    /// The identifier whose content octets are `data`.
    pub fn from_der(data: &'a [u8]) -> (r: Result<ObjectIdentifier<'a>, ParseError>)
        ensures
            r matches Ok(v) ==> spec_parse_oid(data@) == Ok::<Seq<u8>, ParseError>(v@),
            r matches Err(e) ==> spec_parse_oid(data@) == Err::<Seq<u8>, ParseError>(e),
    {
        match lookup(data) {
            Some(_) => Ok(ObjectIdentifier { der: data }),
            None => match oid_from_der(data) {
                None => Ok(ObjectIdentifier { der: data }),
                Some(e) => Err(e),
            },
        }
    }

    /// An identifier of the table.
    pub fn known(k: KnownOid) -> (r: ObjectIdentifier<'static>)
        ensures
            r@ == k.spec_der(),
    {
        proof {
            lemma_lookup_known(k);
        }
        ObjectIdentifier { der: k.der() }
    }

    /// The content octets of the identifier.
    pub fn as_der(&self) -> (r: &'a [u8])
        ensures
            r@ == self@,
            oid_accepted(self@),
    {
        proof {
            use_type_invariant(self);
        }
        self.der
    }

    /// The entry of the table that this identifier is, if it is one.
    pub fn known_oid(&self) -> (r: Option<KnownOid>)
        ensures
            r == spec_lookup(self@),
    {
        lookup(self.der)
    }

    /// Whether the two identifiers are the same.
    pub fn same(&self, other: &ObjectIdentifier) -> (r: bool)
        ensures
            r == (self@ == other@),
    {
        bytes_eq(self.der, other.der)
    }
}

impl<'a> SimpleAsn1Readable<'a> for ObjectIdentifier<'a> {
    open spec fn spec_tag() -> Tag {
        spec_oid_tag()
    }

    open spec fn spec_parse_data(data: Seq<u8>) -> Result<Seq<u8>, ParseError> {
        spec_parse_oid(data)
    }

    fn tag() -> (r: Tag) {
        oid_tag()
    }

    fn parse_data(data: &'a [u8]) -> (r: Result<Self, ParseError>) {
        ObjectIdentifier::from_der(data)
    }
}

impl<'a> SimpleAsn1Writable for ObjectIdentifier<'a> {
    open spec fn spec_write_tag() -> Tag {
        spec_oid_tag()
    }

    open spec fn spec_content(v: Seq<u8>) -> Seq<u8> {
        v
    }

    /// The content is put together here, with no call that can fail.
    open spec fn spec_content_owed(v: Seq<u8>) -> bool {
        true
    }

    fn write_tag() -> (r: Tag) {
        oid_tag()
    }

    fn write_data(&self) -> (r: Result<Vec<u8>, WriteError>) {
        Ok(copy_bytes(self.as_der()))
    }
}

/// An accepted identifier is read back from its own octets.
pub proof fn lemma_oid_round_trip(v: Seq<u8>)
    requires
        oid_accepted(v),
    ensures
        spec_parse_oid(v) == Ok::<Seq<u8>, ParseError>(v),
{
}

} // verus!
