//! Algorithm identifiers: an object identifier, and parameters whose shape
//! the identifier decides.

use crate::codec::{
    data_view, lemma_parse_simple_sound, read_optional, read_tagged, read_view, spec_finish, spec_parse_simple,
    spec_read_optional, Asn1Readable, Asn1Writable, SimpleAsn1Readable, SimpleAsn1Writable,
};
use crate::der::{element, join_written, max_content_len, write_element, write_framed, Tlv, TlvView};
use crate::dh::{
    spec_basic_dh_params_content, spec_dhx_params_content, spec_dss_params_content, spec_parse_basic_dh_params,
    spec_parse_dhx_params, spec_parse_dss_params, BasicDHParams, BasicDHParamsView, DHXParams, DHXParamsView,
    DssParams, DssParamsView,
};
use crate::ec::{spec_ec_parameters_encoding, spec_read_ec_parameters, EcParameters, EcParametersView};
use crate::error::{ParseError, WriteError};
use crate::laws::{
    algorithm_valid, lemma_algorithm_round_trip, lemma_decoded_algorithm_valid, lemma_decoded_content_valid,
    lemma_known_algorithm, rsa_pss_valid,
};
use crate::oid::{lemma_known_injective, spec_lookup, spec_parse_oid, KnownOid, ObjectIdentifier};
use crate::primitive::{
    explicit_tag, integer_tag, null_tag, octet_string_tag, oid_tag, sequence_tag, spec_explicit_tag,
    spec_integer_tag, spec_null_tag, spec_octet_string_tag, spec_oid_tag, spec_parse_null, spec_parse_uint,
    spec_sequence_tag, uint_content, write_uint, Null,
};
use crate::tag::Tag;
use vstd::prelude::*;

verus! {

/// The shapes that the parameters of an algorithm can have.
#[derive(Clone, Copy, Debug, PartialEq, Eq, Structural)]
pub enum ParamsShape {
    /// No parameters.
    Absent,
    /// A NULL, or no parameters.
    Null,
    /// The parameters of an elliptic-curve key.
    Ec,
    /// An OCTET STRING.
    Iv,
    /// RSASSA-PSS parameters, or none.
    RsaPss,
    /// Dss-Parms.
    Dsa,
    /// X9.42 domain parameters.
    Dh,
    /// PKCS #3 parameters.
    DhKeyAgreement,
    /// Any one element, or none: the parameters of an algorithm that is not
    /// known.
    Any,
}

/// The identifier under which an algorithm is held and written: the older
/// identifier of RSA with SHA-1 stands for the same algorithm as the newer.
pub open spec fn spec_canonical(k: KnownOid) -> KnownOid {
    match k {
        KnownOid::RsaWithSha1Alt => KnownOid::RsaWithSha1,
        _ => k,
    }
}

/// The shape of the parameters that follow an identifier of the table.
pub open spec fn spec_shape(k: KnownOid) -> ParamsShape {
    match k {
        KnownOid::Sha1 | KnownOid::Sha224 | KnownOid::Sha256 | KnownOid::Sha384 | KnownOid::Sha512
        | KnownOid::Sha3_224 | KnownOid::Sha3_256 | KnownOid::Sha3_384 | KnownOid::Sha3_512 | KnownOid::Rsa
        | KnownOid::EcDsaWithSha224 | KnownOid::EcDsaWithSha256 | KnownOid::EcDsaWithSha384
        | KnownOid::EcDsaWithSha512 | KnownOid::RsaWithSha1 | KnownOid::RsaWithSha224
        | KnownOid::RsaWithSha256 | KnownOid::RsaWithSha384 | KnownOid::RsaWithSha512
        | KnownOid::RsaWithSha3_224 | KnownOid::RsaWithSha3_256 | KnownOid::RsaWithSha3_384
        | KnownOid::RsaWithSha3_512 | KnownOid::DsaWithSha224 | KnownOid::DsaWithSha256
        | KnownOid::DsaWithSha384 | KnownOid::DsaWithSha512 | KnownOid::RsaWithSha1Alt => ParamsShape::Null,
        KnownOid::Ed25519 | KnownOid::Ed448 | KnownOid::X25519 | KnownOid::X448
        | KnownOid::EcDsaWithSha3_224 | KnownOid::EcDsaWithSha3_256 | KnownOid::EcDsaWithSha3_384
        | KnownOid::EcDsaWithSha3_512 => ParamsShape::Absent,
        KnownOid::Ec => ParamsShape::Ec,
        KnownOid::AesCbc => ParamsShape::Iv,
        KnownOid::RsaPss => ParamsShape::RsaPss,
        KnownOid::Dsa => ParamsShape::Dsa,
        KnownOid::Dh => ParamsShape::Dh,
        KnownOid::DhKeyAgreement => ParamsShape::DhKeyAgreement,
        KnownOid::Mgf1 => ParamsShape::Any,
    }
}

/// The identifier under which an algorithm is held and written.
#[verifier::when_used_as_spec(spec_canonical)]
pub fn canonical(k: KnownOid) -> (r: KnownOid)
    ensures
        r == spec_canonical(k),
{
    match k {
        KnownOid::RsaWithSha1Alt => KnownOid::RsaWithSha1,
        _ => k,
    }
}

/// The shape of the parameters that follow an identifier of the table.
#[verifier::when_used_as_spec(spec_shape)]
pub fn shape(k: KnownOid) -> (r: ParamsShape)
    ensures
        r == spec_shape(k),
{
    match k {
        KnownOid::Sha1 | KnownOid::Sha224 | KnownOid::Sha256 | KnownOid::Sha384 | KnownOid::Sha512
        | KnownOid::Sha3_224 | KnownOid::Sha3_256 | KnownOid::Sha3_384 | KnownOid::Sha3_512 | KnownOid::Rsa
        | KnownOid::EcDsaWithSha224 | KnownOid::EcDsaWithSha256 | KnownOid::EcDsaWithSha384
        | KnownOid::EcDsaWithSha512 | KnownOid::RsaWithSha1 | KnownOid::RsaWithSha224
        | KnownOid::RsaWithSha256 | KnownOid::RsaWithSha384 | KnownOid::RsaWithSha512
        | KnownOid::RsaWithSha3_224 | KnownOid::RsaWithSha3_256 | KnownOid::RsaWithSha3_384
        | KnownOid::RsaWithSha3_512 | KnownOid::DsaWithSha224 | KnownOid::DsaWithSha256
        | KnownOid::DsaWithSha384 | KnownOid::DsaWithSha512 | KnownOid::RsaWithSha1Alt => ParamsShape::Null,
        KnownOid::Ed25519 | KnownOid::Ed448 | KnownOid::X25519 | KnownOid::X448
        | KnownOid::EcDsaWithSha3_224 | KnownOid::EcDsaWithSha3_256 | KnownOid::EcDsaWithSha3_384
        | KnownOid::EcDsaWithSha3_512 => ParamsShape::Absent,
        KnownOid::Ec => ParamsShape::Ec,
        KnownOid::AesCbc => ParamsShape::Iv,
        KnownOid::RsaPss => ParamsShape::RsaPss,
        KnownOid::Dsa => ParamsShape::Dsa,
        KnownOid::Dh => ParamsShape::Dh,
        KnownOid::DhKeyAgreement => ParamsShape::DhKeyAgreement,
        KnownOid::Mgf1 => ParamsShape::Any,
    }
}

/// The identifier under which the algorithm named by `oid` is held, and the
/// shape of its parameters.
pub open spec fn spec_algorithm(oid: Seq<u8>) -> (Seq<u8>, ParamsShape) {
    match spec_lookup(oid) {
        Some(k) => (spec_canonical(k).spec_der(), spec_shape(k)),
        None => (oid, ParamsShape::Any),
    }
}

/// An algorithm identifier: the parameters, from which the object
/// identifier follows.
#[derive(Debug, PartialEq, Eq, Hash)]
pub struct AlgorithmIdentifier<'a> {
    pub params: AlgorithmParameters<'a>,
}

/// The parameters of an algorithm, one variant for each algorithm that is
/// known and one for all others.
#[derive(Debug, PartialEq, Eq, Hash)]
pub enum AlgorithmParameters<'a> {
    Sha1(Option<Null>),
    Sha224(Option<Null>),
    Sha256(Option<Null>),
    Sha384(Option<Null>),
    Sha512(Option<Null>),
    Sha3_224(Option<Null>),
    Sha3_256(Option<Null>),
    Sha3_384(Option<Null>),
    Sha3_512(Option<Null>),
    Ed25519,
    Ed448,
    X25519,
    X448,
    /// The key algorithm of elliptic curves; used in public key infos.
    Ec(EcParameters<'a>),
    Rsa(Option<Null>),
    /// AES-128 in CBC mode; the parameter is the initialisation vector.
    AesCbc(&'a [u8]),
    /// The ECDSA signatures with SHA-2 have no parameters; an explicit NULL,
    /// which one widespread encoder writes, is taken all the same.
    EcDsaWithSha224(Option<Null>),
    EcDsaWithSha256(Option<Null>),
    EcDsaWithSha384(Option<Null>),
    EcDsaWithSha512(Option<Null>),
    EcDsaWithSha3_224,
    EcDsaWithSha3_256,
    EcDsaWithSha3_384,
    EcDsaWithSha3_512,
    RsaWithSha1(Option<Null>),
    RsaWithSha224(Option<Null>),
    RsaWithSha256(Option<Null>),
    RsaWithSha384(Option<Null>),
    RsaWithSha512(Option<Null>),
    RsaWithSha3_224(Option<Null>),
    RsaWithSha3_256(Option<Null>),
    RsaWithSha3_384(Option<Null>),
    RsaWithSha3_512(Option<Null>),
    /// RSASSA-PSS. The parameters are absent where the identifier names a
    /// key, not a signature.
    RsaPss(Option<Box<RsaPssParameters<'a>>>),
    Dsa(DssParams<'a>),
    DsaWithSha224(Option<Null>),
    DsaWithSha256(Option<Null>),
    DsaWithSha384(Option<Null>),
    DsaWithSha512(Option<Null>),
    Dh(DHXParams<'a>),
    DhKeyAgreement(BasicDHParams<'a>),
    /// An algorithm that is not known: its identifier, and its parameters
    /// as they were found.
    Other(ObjectIdentifier<'a>, Option<Tlv<'a>>),
}

/// MaskGenAlgorithm: the identifier of the mask generation function, and
/// the hash algorithm that it is used with.
#[derive(Debug, PartialEq, Eq, Hash)]
pub struct MaskGenAlgorithm<'a> {
    pub oid: ObjectIdentifier<'a>,
    pub params: AlgorithmIdentifier<'a>,
}

/// RSASSA-PSS-params. Each field has a default, which is not written.
#[derive(Debug, PartialEq, Eq, Hash)]
pub struct RsaPssParameters<'a> {
    pub hash_algorithm: AlgorithmIdentifier<'a>,
    pub mask_gen_algorithm: MaskGenAlgorithm<'a>,
    pub salt_length: u16,
    pub _trailer_field: u8,
}

/// A copy of the parameters.
pub fn clone_algorithm_parameters<'a>(p: &AlgorithmParameters<'a>) -> (r: AlgorithmParameters<'a>)
    ensures
        r == *p,
    decreases p,
{
    match p {
        AlgorithmParameters::Sha1(x) => AlgorithmParameters::Sha1(*x),
        AlgorithmParameters::Sha224(x) => AlgorithmParameters::Sha224(*x),
        AlgorithmParameters::Sha256(x) => AlgorithmParameters::Sha256(*x),
        AlgorithmParameters::Sha384(x) => AlgorithmParameters::Sha384(*x),
        AlgorithmParameters::Sha512(x) => AlgorithmParameters::Sha512(*x),
        AlgorithmParameters::Sha3_224(x) => AlgorithmParameters::Sha3_224(*x),
        AlgorithmParameters::Sha3_256(x) => AlgorithmParameters::Sha3_256(*x),
        AlgorithmParameters::Sha3_384(x) => AlgorithmParameters::Sha3_384(*x),
        AlgorithmParameters::Sha3_512(x) => AlgorithmParameters::Sha3_512(*x),
        AlgorithmParameters::Ed25519 => AlgorithmParameters::Ed25519,
        AlgorithmParameters::Ed448 => AlgorithmParameters::Ed448,
        AlgorithmParameters::X25519 => AlgorithmParameters::X25519,
        AlgorithmParameters::X448 => AlgorithmParameters::X448,
        AlgorithmParameters::Ec(x) => AlgorithmParameters::Ec(*x),
        AlgorithmParameters::Rsa(x) => AlgorithmParameters::Rsa(*x),
        AlgorithmParameters::AesCbc(x) => AlgorithmParameters::AesCbc(*x),
        AlgorithmParameters::EcDsaWithSha224(x) => AlgorithmParameters::EcDsaWithSha224(*x),
        AlgorithmParameters::EcDsaWithSha256(x) => AlgorithmParameters::EcDsaWithSha256(*x),
        AlgorithmParameters::EcDsaWithSha384(x) => AlgorithmParameters::EcDsaWithSha384(*x),
        AlgorithmParameters::EcDsaWithSha512(x) => AlgorithmParameters::EcDsaWithSha512(*x),
        AlgorithmParameters::EcDsaWithSha3_224 => AlgorithmParameters::EcDsaWithSha3_224,
        AlgorithmParameters::EcDsaWithSha3_256 => AlgorithmParameters::EcDsaWithSha3_256,
        AlgorithmParameters::EcDsaWithSha3_384 => AlgorithmParameters::EcDsaWithSha3_384,
        AlgorithmParameters::EcDsaWithSha3_512 => AlgorithmParameters::EcDsaWithSha3_512,
        AlgorithmParameters::RsaWithSha1(x) => AlgorithmParameters::RsaWithSha1(*x),
        AlgorithmParameters::RsaWithSha224(x) => AlgorithmParameters::RsaWithSha224(*x),
        AlgorithmParameters::RsaWithSha256(x) => AlgorithmParameters::RsaWithSha256(*x),
        AlgorithmParameters::RsaWithSha384(x) => AlgorithmParameters::RsaWithSha384(*x),
        AlgorithmParameters::RsaWithSha512(x) => AlgorithmParameters::RsaWithSha512(*x),
        AlgorithmParameters::RsaWithSha3_224(x) => AlgorithmParameters::RsaWithSha3_224(*x),
        AlgorithmParameters::RsaWithSha3_256(x) => AlgorithmParameters::RsaWithSha3_256(*x),
        AlgorithmParameters::RsaWithSha3_384(x) => AlgorithmParameters::RsaWithSha3_384(*x),
        AlgorithmParameters::RsaWithSha3_512(x) => AlgorithmParameters::RsaWithSha3_512(*x),
        AlgorithmParameters::RsaPss(None) => AlgorithmParameters::RsaPss(None),
        AlgorithmParameters::RsaPss(Some(b)) => AlgorithmParameters::RsaPss(Some(Box::new(clone_rsa_pss(b)))),
        AlgorithmParameters::Dsa(x) => AlgorithmParameters::Dsa(*x),
        AlgorithmParameters::DsaWithSha224(x) => AlgorithmParameters::DsaWithSha224(*x),
        AlgorithmParameters::DsaWithSha256(x) => AlgorithmParameters::DsaWithSha256(*x),
        AlgorithmParameters::DsaWithSha384(x) => AlgorithmParameters::DsaWithSha384(*x),
        AlgorithmParameters::DsaWithSha512(x) => AlgorithmParameters::DsaWithSha512(*x),
        AlgorithmParameters::Dh(x) => AlgorithmParameters::Dh(*x),
        AlgorithmParameters::DhKeyAgreement(x) => AlgorithmParameters::DhKeyAgreement(*x),
        AlgorithmParameters::Other(oid, t) => AlgorithmParameters::Other(*oid, *t),
    }
}

/// A copy of the algorithm identifier.
pub fn clone_algorithm_identifier<'a>(a: &AlgorithmIdentifier<'a>) -> (r: AlgorithmIdentifier<'a>)
    ensures
        r == *a,
    decreases a,
{
    AlgorithmIdentifier { params: clone_algorithm_parameters(&a.params) }
}

/// A copy of the RSASSA-PSS parameters.
pub fn clone_rsa_pss<'a>(p: &RsaPssParameters<'a>) -> (r: RsaPssParameters<'a>)
    ensures
        r == *p,
    decreases p,
{
    RsaPssParameters {
        hash_algorithm: clone_algorithm_identifier(&p.hash_algorithm),
        mask_gen_algorithm: MaskGenAlgorithm {
            oid: p.mask_gen_algorithm.oid,
            params: clone_algorithm_identifier(&p.mask_gen_algorithm.params),
        },
        salt_length: p.salt_length,
        _trailer_field: p._trailer_field,
    }
}

impl<'a> Clone for AlgorithmParameters<'a> {
    fn clone(&self) -> (r: Self)
        ensures
            r == *self,
    {
        clone_algorithm_parameters(self)
    }
}

impl<'a> Clone for AlgorithmIdentifier<'a> {
    fn clone(&self) -> (r: Self)
        ensures
            r == *self,
    {
        clone_algorithm_identifier(self)
    }
}

impl<'a> Clone for RsaPssParameters<'a> {
    fn clone(&self) -> (r: Self)
        ensures
            r == *self,
    {
        clone_rsa_pss(self)
    }
}

impl<'a> Clone for MaskGenAlgorithm<'a> {
    fn clone(&self) -> (r: Self)
        ensures
            r == *self,
    {
        MaskGenAlgorithm { oid: self.oid, params: clone_algorithm_identifier(&self.params) }
    }
}

/// What an algorithm identifier holds: the object identifier and the
/// parameters.
pub struct AlgorithmView {
    pub oid: Seq<u8>,
    pub params: ParamsView,
}

/// What the parameters of an algorithm hold, by their shape.
pub enum ParamsView {
    Absent,
    /// A NULL that is there, or is not.
    Null(bool),
    Ec(EcParametersView),
    Iv(Seq<u8>),
    RsaPss(Option<Box<RsaPssParametersView>>),
    Dsa(DssParamsView),
    Dh(DHXParamsView),
    DhKeyAgreement(BasicDHParamsView),
    Any(Option<TlvView>),
}

/// What a MaskGenAlgorithm holds.
pub struct MaskGenAlgorithmView {
    pub oid: Seq<u8>,
    pub params: AlgorithmView,
}

/// What RSASSA-PSS parameters hold.
pub struct RsaPssParametersView {
    pub hash_algorithm: AlgorithmView,
    pub mask_gen_algorithm: MaskGenAlgorithmView,
    pub salt_length: u16,
    pub trailer_field: u8,
}

/// The shape of given parameters.
pub open spec fn params_shape(p: ParamsView) -> ParamsShape {
    match p {
        ParamsView::Absent => ParamsShape::Absent,
        ParamsView::Null(_) => ParamsShape::Null,
        ParamsView::Ec(_) => ParamsShape::Ec,
        ParamsView::Iv(_) => ParamsShape::Iv,
        ParamsView::RsaPss(_) => ParamsShape::RsaPss,
        ParamsView::Dsa(_) => ParamsShape::Dsa,
        ParamsView::Dh(_) => ParamsShape::Dh,
        ParamsView::DhKeyAgreement(_) => ParamsShape::DhKeyAgreement,
        ParamsView::Any(_) => ParamsShape::Any,
    }
}

/// The entry of the table that a variant stands for; none for an algorithm
/// that is not known.
pub open spec fn spec_known(p: AlgorithmParameters) -> Option<KnownOid> {
    match p {
        AlgorithmParameters::Sha1(_) => Some(KnownOid::Sha1),
        AlgorithmParameters::Sha224(_) => Some(KnownOid::Sha224),
        AlgorithmParameters::Sha256(_) => Some(KnownOid::Sha256),
        AlgorithmParameters::Sha384(_) => Some(KnownOid::Sha384),
        AlgorithmParameters::Sha512(_) => Some(KnownOid::Sha512),
        AlgorithmParameters::Sha3_224(_) => Some(KnownOid::Sha3_224),
        AlgorithmParameters::Sha3_256(_) => Some(KnownOid::Sha3_256),
        AlgorithmParameters::Sha3_384(_) => Some(KnownOid::Sha3_384),
        AlgorithmParameters::Sha3_512(_) => Some(KnownOid::Sha3_512),
        AlgorithmParameters::Ed25519 => Some(KnownOid::Ed25519),
        AlgorithmParameters::Ed448 => Some(KnownOid::Ed448),
        AlgorithmParameters::X25519 => Some(KnownOid::X25519),
        AlgorithmParameters::X448 => Some(KnownOid::X448),
        AlgorithmParameters::Ec(_) => Some(KnownOid::Ec),
        AlgorithmParameters::Rsa(_) => Some(KnownOid::Rsa),
        AlgorithmParameters::AesCbc(_) => Some(KnownOid::AesCbc),
        AlgorithmParameters::EcDsaWithSha224(_) => Some(KnownOid::EcDsaWithSha224),
        AlgorithmParameters::EcDsaWithSha256(_) => Some(KnownOid::EcDsaWithSha256),
        AlgorithmParameters::EcDsaWithSha384(_) => Some(KnownOid::EcDsaWithSha384),
        AlgorithmParameters::EcDsaWithSha512(_) => Some(KnownOid::EcDsaWithSha512),
        AlgorithmParameters::EcDsaWithSha3_224 => Some(KnownOid::EcDsaWithSha3_224),
        AlgorithmParameters::EcDsaWithSha3_256 => Some(KnownOid::EcDsaWithSha3_256),
        AlgorithmParameters::EcDsaWithSha3_384 => Some(KnownOid::EcDsaWithSha3_384),
        AlgorithmParameters::EcDsaWithSha3_512 => Some(KnownOid::EcDsaWithSha3_512),
        AlgorithmParameters::RsaWithSha1(_) => Some(KnownOid::RsaWithSha1),
        AlgorithmParameters::RsaWithSha224(_) => Some(KnownOid::RsaWithSha224),
        AlgorithmParameters::RsaWithSha256(_) => Some(KnownOid::RsaWithSha256),
        AlgorithmParameters::RsaWithSha384(_) => Some(KnownOid::RsaWithSha384),
        AlgorithmParameters::RsaWithSha512(_) => Some(KnownOid::RsaWithSha512),
        AlgorithmParameters::RsaWithSha3_224(_) => Some(KnownOid::RsaWithSha3_224),
        AlgorithmParameters::RsaWithSha3_256(_) => Some(KnownOid::RsaWithSha3_256),
        AlgorithmParameters::RsaWithSha3_384(_) => Some(KnownOid::RsaWithSha3_384),
        AlgorithmParameters::RsaWithSha3_512(_) => Some(KnownOid::RsaWithSha3_512),
        AlgorithmParameters::RsaPss(_) => Some(KnownOid::RsaPss),
        AlgorithmParameters::Dsa(_) => Some(KnownOid::Dsa),
        AlgorithmParameters::DsaWithSha224(_) => Some(KnownOid::DsaWithSha224),
        AlgorithmParameters::DsaWithSha256(_) => Some(KnownOid::DsaWithSha256),
        AlgorithmParameters::DsaWithSha384(_) => Some(KnownOid::DsaWithSha384),
        AlgorithmParameters::DsaWithSha512(_) => Some(KnownOid::DsaWithSha512),
        AlgorithmParameters::Dh(_) => Some(KnownOid::Dh),
        AlgorithmParameters::DhKeyAgreement(_) => Some(KnownOid::DhKeyAgreement),
        AlgorithmParameters::Other(_, _) => None,
    }
}

/// What the parameters of an algorithm stand for: the object identifier
/// of the variant, and what the variant holds.
pub open spec fn algorithm_parameters_view(p: AlgorithmParameters) -> AlgorithmView
    decreases p, 1nat,
{
    AlgorithmView {
        oid: match p {
            AlgorithmParameters::Other(oid, _) => oid@,
            _ => spec_known(p).unwrap().spec_der(),
        },
        params: params_payload_view(p),
    }
}

/// What a variant holds, by its shape.
pub open spec fn params_payload_view(p: AlgorithmParameters) -> ParamsView
    decreases p, 0nat,
{
    match p {
        AlgorithmParameters::Sha1(n) => ParamsView::Null(n is Some),
        AlgorithmParameters::Sha224(n) => ParamsView::Null(n is Some),
        AlgorithmParameters::Sha256(n) => ParamsView::Null(n is Some),
        AlgorithmParameters::Sha384(n) => ParamsView::Null(n is Some),
        AlgorithmParameters::Sha512(n) => ParamsView::Null(n is Some),
        AlgorithmParameters::Sha3_224(n) => ParamsView::Null(n is Some),
        AlgorithmParameters::Sha3_256(n) => ParamsView::Null(n is Some),
        AlgorithmParameters::Sha3_384(n) => ParamsView::Null(n is Some),
        AlgorithmParameters::Sha3_512(n) => ParamsView::Null(n is Some),
        AlgorithmParameters::Ed25519 => ParamsView::Absent,
        AlgorithmParameters::Ed448 => ParamsView::Absent,
        AlgorithmParameters::X25519 => ParamsView::Absent,
        AlgorithmParameters::X448 => ParamsView::Absent,
        AlgorithmParameters::Rsa(n) => ParamsView::Null(n is Some),
        AlgorithmParameters::EcDsaWithSha224(n) => ParamsView::Null(n is Some),
        AlgorithmParameters::EcDsaWithSha256(n) => ParamsView::Null(n is Some),
        AlgorithmParameters::EcDsaWithSha384(n) => ParamsView::Null(n is Some),
        AlgorithmParameters::EcDsaWithSha512(n) => ParamsView::Null(n is Some),
        AlgorithmParameters::EcDsaWithSha3_224 => ParamsView::Absent,
        AlgorithmParameters::EcDsaWithSha3_256 => ParamsView::Absent,
        AlgorithmParameters::EcDsaWithSha3_384 => ParamsView::Absent,
        AlgorithmParameters::EcDsaWithSha3_512 => ParamsView::Absent,
        AlgorithmParameters::RsaWithSha1(n) => ParamsView::Null(n is Some),
        AlgorithmParameters::RsaWithSha224(n) => ParamsView::Null(n is Some),
        AlgorithmParameters::RsaWithSha256(n) => ParamsView::Null(n is Some),
        AlgorithmParameters::RsaWithSha384(n) => ParamsView::Null(n is Some),
        AlgorithmParameters::RsaWithSha512(n) => ParamsView::Null(n is Some),
        AlgorithmParameters::RsaWithSha3_224(n) => ParamsView::Null(n is Some),
        AlgorithmParameters::RsaWithSha3_256(n) => ParamsView::Null(n is Some),
        AlgorithmParameters::RsaWithSha3_384(n) => ParamsView::Null(n is Some),
        AlgorithmParameters::RsaWithSha3_512(n) => ParamsView::Null(n is Some),
        AlgorithmParameters::DsaWithSha224(n) => ParamsView::Null(n is Some),
        AlgorithmParameters::DsaWithSha256(n) => ParamsView::Null(n is Some),
        AlgorithmParameters::DsaWithSha384(n) => ParamsView::Null(n is Some),
        AlgorithmParameters::DsaWithSha512(n) => ParamsView::Null(n is Some),
        AlgorithmParameters::Ec(e) => ParamsView::Ec(e.deep_view()),
        AlgorithmParameters::AesCbc(iv) => ParamsView::Iv(iv@),
        AlgorithmParameters::RsaPss(None) => ParamsView::RsaPss(None),
        AlgorithmParameters::RsaPss(Some(b)) => ParamsView::RsaPss(Some(Box::new(rsa_pss_view(*b)))),
        AlgorithmParameters::Dsa(d) => ParamsView::Dsa(d.deep_view()),
        AlgorithmParameters::Dh(d) => ParamsView::Dh(d.deep_view()),
        AlgorithmParameters::DhKeyAgreement(d) => ParamsView::DhKeyAgreement(d.deep_view()),
        AlgorithmParameters::Other(_, t) => ParamsView::Any(t.deep_view()),
    }
}

/// What an algorithm identifier stands for.
pub open spec fn algorithm_identifier_view(a: AlgorithmIdentifier) -> AlgorithmView
    decreases a, 0nat,
{
    algorithm_parameters_view(a.params)
}

/// What a MaskGenAlgorithm stands for.
pub open spec fn mask_gen_view(m: MaskGenAlgorithm) -> MaskGenAlgorithmView
    decreases m, 0nat,
{
    MaskGenAlgorithmView { oid: m.oid@, params: algorithm_identifier_view(m.params) }
}

/// What RSASSA-PSS parameters stand for.
pub open spec fn rsa_pss_view(p: RsaPssParameters) -> RsaPssParametersView
    decreases p, 0nat,
{
    RsaPssParametersView {
        hash_algorithm: algorithm_identifier_view(p.hash_algorithm),
        mask_gen_algorithm: mask_gen_view(p.mask_gen_algorithm),
        salt_length: p.salt_length,
        trailer_field: p._trailer_field,
    }
}

impl<'a> DeepView for AlgorithmParameters<'a> {
    type V = AlgorithmView;

    open spec fn deep_view(&self) -> AlgorithmView {
        algorithm_parameters_view(*self)
    }
}

impl<'a> DeepView for AlgorithmIdentifier<'a> {
    type V = AlgorithmView;

    open spec fn deep_view(&self) -> AlgorithmView {
        algorithm_identifier_view(*self)
    }
}

impl<'a> DeepView for MaskGenAlgorithm<'a> {
    type V = MaskGenAlgorithmView;

    open spec fn deep_view(&self) -> MaskGenAlgorithmView {
        mask_gen_view(*self)
    }
}

impl<'a> DeepView for RsaPssParameters<'a> {
    type V = RsaPssParametersView;

    open spec fn deep_view(&self) -> RsaPssParametersView {
        rsa_pss_view(*self)
    }
}

/// The default hash algorithm of RSASSA-PSS: SHA-1, with its NULL.
pub open spec fn spec_default_hash() -> AlgorithmView {
    AlgorithmView { oid: KnownOid::Sha1.spec_der(), params: ParamsView::Null(true) }
}

/// The default mask generation of RSASSA-PSS: MGF1 with SHA-1.
pub open spec fn spec_default_mask_gen() -> MaskGenAlgorithmView {
    MaskGenAlgorithmView { oid: KnownOid::Mgf1.spec_der(), params: spec_default_hash() }
}

/// The default salt length of RSASSA-PSS.
pub open spec fn spec_default_salt_length() -> u16 {
    20
}

/// The default trailer field of RSASSA-PSS.
pub open spec fn spec_default_trailer_field() -> u8 {
    1
}

/// The RSASSA-PSS parameters in which every field has its default.
pub open spec fn spec_default_rsa_pss() -> RsaPssParametersView {
    RsaPssParametersView {
        hash_algorithm: spec_default_hash(),
        mask_gen_algorithm: spec_default_mask_gen(),
        salt_length: spec_default_salt_length(),
        trailer_field: spec_default_trailer_field(),
    }
}

// ---------------------------------------------------------------------
// Decoding, as a specification
// ---------------------------------------------------------------------

/// What `spec_read_optional` returns is no longer than the input, and an
/// element it has read is at the front of the input.
pub proof fn lemma_read_optional_sound(tag: Tag, data: Seq<u8>)
    ensures
        spec_read_optional(tag, data) matches Ok(x) ==> {
            &&& x.1.len() <= data.len()
            &&& x.0 matches Some(c) ==> c.len() + x.1.len() < data.len() && data == element(tag, c) + x.1
            &&& x.0.is_none() ==> x.1 == data
        },
{
    lemma_parse_simple_sound(tag, data);
}

/// Reading a NULL that may be absent.
pub open spec fn spec_read_optional_null(data: Seq<u8>) -> Result<(bool, Seq<u8>), ParseError> {
    match spec_read_optional(spec_null_tag(), data) {
        Err(e) => Err(e),
        Ok(x) => match x.0 {
            None => Ok((false, x.1)),
            Some(c) => match spec_parse_null(c) {
                Ok(_) => Ok((true, x.1)),
                Err(e) => Err(e),
            },
        },
    }
}

/// Reading any one element that may be absent.
pub open spec fn spec_read_optional_tlv(data: Seq<u8>) -> Result<(Option<TlvView>, Seq<u8>), ParseError> {
    <Option<Tlv> as Asn1Readable>::spec_parse(data)
}

/// Reading an explicitly tagged unsigned integer that may be absent: the
/// wrapper holds one INTEGER and nothing else.
pub open spec fn spec_read_explicit_uint(n: u32, max: nat, data: Seq<u8>) -> Result<
    (Option<nat>, Seq<u8>),
    ParseError,
> {
    match spec_read_optional(spec_explicit_tag(n), data) {
        Err(e) => Err(e),
        Ok(x) => match x.0 {
            None => Ok((None, x.1)),
            Some(inner) => match spec_parse_simple(spec_integer_tag(), inner) {
                Err(e) => Err(e),
                Ok(i) => match spec_parse_uint(i.0, max) {
                    Err(e) => Err(e),
                    Ok(v) => match spec_finish(i.1) {
                        Err(e) => Err(e),
                        Ok(_) => Ok((Some(v), x.1)),
                    },
                },
            },
        },
    }
}

/// Reading an algorithm identifier off the front of `data`.
pub open spec fn spec_read_algorithm_identifier(data: Seq<u8>) -> Result<(AlgorithmView, Seq<u8>), ParseError>
    decreases data.len(), 0nat,
{
    match spec_parse_simple(spec_sequence_tag(), data) {
        Err(e) => Err(e),
        Ok(x) => {
            proof {
                lemma_parse_simple_sound(spec_sequence_tag(), data);
            }
            match spec_parse_algorithm_identifier(x.0) {
                Ok(v) => Ok((v, x.1)),
                Err(e) => Err(e),
            }
        },
    }
}

/// Decoding the content of an algorithm identifier: the object identifier
/// is read, then the parameters in the shape that it decides; nothing may
/// follow them.
pub open spec fn spec_parse_algorithm_identifier(data: Seq<u8>) -> Result<AlgorithmView, ParseError>
    decreases data.len(), 0nat,
{
    match spec_parse_simple(spec_oid_tag(), data) {
        Err(e) => Err(e),
        Ok(x) => match spec_parse_oid(x.0) {
            Err(e) => Err(e),
            Ok(oid) => {
                proof {
                    lemma_parse_simple_sound(spec_oid_tag(), data);
                }
                match spec_read_parameters(oid, x.1) {
                    Err(e) => Err(e),
                    Ok(p) => match spec_finish(p.1) {
                        Err(e) => Err(e),
                        Ok(_) => Ok(p.0),
                    },
                }
            },
        },
    }
}

/// Reading the parameters that follow the object identifier `oid`.
pub open spec fn spec_read_parameters(oid: Seq<u8>, data: Seq<u8>) -> Result<(AlgorithmView, Seq<u8>), ParseError>
    decreases data.len(), 0nat,
{
    let id = spec_algorithm(oid).0;
    match spec_algorithm(oid).1 {
        ParamsShape::Absent => Ok((AlgorithmView { oid: id, params: ParamsView::Absent }, data)),
        ParamsShape::Null => match spec_read_optional_null(data) {
            Err(e) => Err(e),
            Ok(x) => Ok((AlgorithmView { oid: id, params: ParamsView::Null(x.0) }, x.1)),
        },
        ParamsShape::Ec => match spec_read_ec_parameters(data) {
            Err(e) => Err(e),
            Ok(x) => Ok((AlgorithmView { oid: id, params: ParamsView::Ec(x.0) }, x.1)),
        },
        ParamsShape::Iv => match spec_parse_simple(spec_octet_string_tag(), data) {
            Err(e) => Err(e),
            Ok(x) => Ok((AlgorithmView { oid: id, params: ParamsView::Iv(x.0) }, x.1)),
        },
        ParamsShape::RsaPss => match spec_read_optional(spec_sequence_tag(), data) {
            Err(e) => Err(e),
            Ok(x) => match x.0 {
                None => Ok((AlgorithmView { oid: id, params: ParamsView::RsaPss(None) }, x.1)),
                Some(c) => {
                    proof {
                        lemma_read_optional_sound(spec_sequence_tag(), data);
                    }
                    match spec_parse_rsa_pss(c) {
                        Err(e) => Err(e),
                        Ok(p) => Ok((AlgorithmView { oid: id, params: ParamsView::RsaPss(Some(Box::new(p))) }, x.1)),
                    }
                },
            },
        },
        ParamsShape::Dsa => match spec_parse_simple(spec_sequence_tag(), data) {
            Err(e) => Err(e),
            Ok(x) => match spec_parse_dss_params(x.0) {
                Err(e) => Err(e),
                Ok(d) => Ok((AlgorithmView { oid: id, params: ParamsView::Dsa(d) }, x.1)),
            },
        },
        ParamsShape::Dh => match spec_parse_simple(spec_sequence_tag(), data) {
            Err(e) => Err(e),
            Ok(x) => match spec_parse_dhx_params(x.0) {
                Err(e) => Err(e),
                Ok(d) => Ok((AlgorithmView { oid: id, params: ParamsView::Dh(d) }, x.1)),
            },
        },
        ParamsShape::DhKeyAgreement => match spec_parse_simple(spec_sequence_tag(), data) {
            Err(e) => Err(e),
            Ok(x) => match spec_parse_basic_dh_params(x.0) {
                Err(e) => Err(e),
                Ok(d) => Ok((AlgorithmView { oid: id, params: ParamsView::DhKeyAgreement(d) }, x.1)),
            },
        },
        ParamsShape::Any => match spec_read_optional_tlv(data) {
            Err(e) => Err(e),
            Ok(x) => Ok((AlgorithmView { oid: id, params: ParamsView::Any(x.0) }, x.1)),
        },
    }
}

/// Decoding what an explicit tag wraps as one algorithm identifier.
pub open spec fn spec_parse_wrapped_algorithm(inner: Seq<u8>) -> Result<AlgorithmView, ParseError>
    decreases inner.len(), 1nat,
{
    match spec_read_algorithm_identifier(inner) {
        Err(e) => Err(e),
        Ok(a) => match spec_finish(a.1) {
            Err(e) => Err(e),
            Ok(_) => Ok(a.0),
        },
    }
}

/// Decoding the content of a MaskGenAlgorithm: an object identifier and an
/// algorithm identifier.
pub open spec fn spec_parse_mask_gen(data: Seq<u8>) -> Result<MaskGenAlgorithmView, ParseError>
    decreases data.len(), 0nat,
{
    match spec_parse_simple(spec_oid_tag(), data) {
        Err(e) => Err(e),
        Ok(x) => match spec_parse_oid(x.0) {
            Err(e) => Err(e),
            Ok(oid) => {
                proof {
                    lemma_parse_simple_sound(spec_oid_tag(), data);
                }
                match spec_parse_wrapped_algorithm(x.1) {
                    Err(e) => Err(e),
                    Ok(a) => Ok(MaskGenAlgorithmView { oid, params: a }),
                }
            },
        },
    }
}

/// Decoding what an explicit tag wraps as one MaskGenAlgorithm.
pub open spec fn spec_parse_wrapped_mask_gen(inner: Seq<u8>) -> Result<MaskGenAlgorithmView, ParseError>
    decreases inner.len(), 0nat,
{
    match spec_parse_simple(spec_sequence_tag(), inner) {
        Err(e) => Err(e),
        Ok(x) => {
            proof {
                lemma_parse_simple_sound(spec_sequence_tag(), inner);
            }
            match spec_parse_mask_gen(x.0) {
                Err(e) => Err(e),
                Ok(m) => match spec_finish(x.1) {
                    Err(e) => Err(e),
                    Ok(_) => Ok(m),
                },
            }
        },
    }
}

/// Decoding the content of RSASSA-PSS-params. Each of the four fields is
/// read if its explicit tag is there and else has its default; a field that
/// is there may also hold the default.
pub open spec fn spec_parse_rsa_pss(data: Seq<u8>) -> Result<RsaPssParametersView, ParseError>
    decreases data.len(), 0nat,
{
    match spec_read_optional(spec_explicit_tag(0), data) {
        Err(e) => Err(e),
        Ok(f0) => {
            proof {
                lemma_read_optional_sound(spec_explicit_tag(0), data);
            }
            match (match f0.0 {
                None => Ok(spec_default_hash()),
                Some(inner) => spec_parse_wrapped_algorithm(inner),
            }) {
                Err(e) => Err(e),
                Ok(hash_algorithm) => match spec_read_optional(spec_explicit_tag(1), f0.1) {
                    Err(e) => Err(e),
                    Ok(f1) => {
                        proof {
                            lemma_read_optional_sound(spec_explicit_tag(1), f0.1);
                        }
                        match (match f1.0 {
                            None => Ok(spec_default_mask_gen()),
                            Some(inner) => spec_parse_wrapped_mask_gen(inner),
                        }) {
                            Err(e) => Err(e),
                            Ok(mask_gen_algorithm) => match spec_read_explicit_uint(2, 0xffff, f1.1) {
                                Err(e) => Err(e),
                                Ok(f2) => match spec_read_explicit_uint(3, 0xff, f2.1) {
                                    Err(e) => Err(e),
                                    Ok(f3) => match spec_finish(f3.1) {
                                        Err(e) => Err(e),
                                        Ok(_) => Ok(
                                            RsaPssParametersView {
                                                hash_algorithm,
                                                mask_gen_algorithm,
                                                salt_length: match f2.0 {
                                                    Some(v) => v as u16,
                                                    None => spec_default_salt_length(),
                                                },
                                                trailer_field: match f3.0 {
                                                    Some(v) => v as u8,
                                                    None => spec_default_trailer_field(),
                                                },
                                            },
                                        ),
                                    },
                                },
                            },
                        }
                    },
                },
            }
        },
    }
}

// ---------------------------------------------------------------------
// Encoding, as a specification
// ---------------------------------------------------------------------

/// The octets of an algorithm identifier: a SEQUENCE of the object
/// identifier and the parameters.
pub open spec fn spec_algorithm_encoding(v: AlgorithmView) -> Seq<u8>
    decreases v, 1nat,
{
    element(spec_sequence_tag(), spec_algorithm_content(v))
}

/// The content octets of an algorithm identifier: the object identifier,
/// then the parameters.
pub open spec fn spec_algorithm_content(v: AlgorithmView) -> Seq<u8>
    decreases v, 0nat,
{
    element(spec_oid_tag(), v.oid) + spec_parameters_encoding(v.params)
}

/// The octets of the parameters. Parameters that are absent have none.
pub open spec fn spec_parameters_encoding(p: ParamsView) -> Seq<u8>
    decreases p, 0nat,
{
    match p {
        ParamsView::Absent => Seq::empty(),
        ParamsView::Null(false) => Seq::empty(),
        ParamsView::Null(true) => element(spec_null_tag(), Seq::empty()),
        ParamsView::Ec(e) => spec_ec_parameters_encoding(e),
        ParamsView::Iv(iv) => element(spec_octet_string_tag(), iv),
        ParamsView::RsaPss(None) => Seq::empty(),
        ParamsView::RsaPss(Some(b)) => element(spec_sequence_tag(), spec_rsa_pss_content(*b)),
        ParamsView::Dsa(d) => element(spec_sequence_tag(), spec_dss_params_content(d)),
        ParamsView::Dh(d) => element(spec_sequence_tag(), spec_dhx_params_content(d)),
        ParamsView::DhKeyAgreement(d) => element(spec_sequence_tag(), spec_basic_dh_params_content(d)),
        ParamsView::Any(None) => Seq::empty(),
        ParamsView::Any(Some(t)) => element(t.tag, t.data),
    }
}

/// Whether no parameters are written: they are absent, or an optional one
/// is not there.
pub open spec fn params_absent(p: ParamsView) -> bool {
    match p {
        ParamsView::Absent => true,
        ParamsView::Null(present) => !present,
        ParamsView::RsaPss(None) => true,
        ParamsView::Any(None) => true,
        _ => false,
    }
}

/// The content octets of a MaskGenAlgorithm: the object identifier, then
/// the algorithm identifier.
pub open spec fn spec_mask_gen_content(m: MaskGenAlgorithmView) -> Seq<u8>
    decreases m, 0nat,
{
    element(spec_oid_tag(), m.oid) + spec_algorithm_encoding(m.params)
}

/// The octets of the hash algorithm field: none for the default.
pub open spec fn spec_hash_field(p: RsaPssParametersView) -> Seq<u8>
    decreases p, 0nat,
{
    if p.hash_algorithm == spec_default_hash() {
        Seq::empty()
    } else {
        element(spec_explicit_tag(0), spec_algorithm_encoding(p.hash_algorithm))
    }
}

/// The octets of the mask generation field: none for the default.
pub open spec fn spec_mask_gen_field(p: RsaPssParametersView) -> Seq<u8>
    decreases p, 0nat,
{
    if p.mask_gen_algorithm == spec_default_mask_gen() {
        Seq::empty()
    } else {
        element(
            spec_explicit_tag(1),
            element(spec_sequence_tag(), spec_mask_gen_content(p.mask_gen_algorithm)),
        )
    }
}

/// The octets of an explicitly tagged unsigned integer field: none for the
/// default.
pub open spec fn spec_uint_field(n: u32, v: nat, default: nat) -> Seq<u8> {
    if v == default {
        Seq::empty()
    } else {
        element(spec_explicit_tag(n), element(spec_integer_tag(), uint_content(v)))
    }
}

/// The content octets of RSASSA-PSS-params: of the four fields, those that
/// do not have their default, each under its explicit tag.
pub open spec fn spec_rsa_pss_content(p: RsaPssParametersView) -> Seq<u8>
    decreases p, 1nat,
{
    spec_hash_field(p) + spec_mask_gen_field(p) + spec_uint_field(
        2,
        p.salt_length as nat,
        spec_default_salt_length() as nat,
    ) + spec_uint_field(3, p.trailer_field as nat, spec_default_trailer_field() as nat)
}

// ---------------------------------------------------------------------
// The variants
// ---------------------------------------------------------------------

/// The variant of an algorithm whose parameters are a NULL or nothing.
fn null_variant<'a>(k: KnownOid, n: Option<Null>) -> (r: AlgorithmParameters<'a>)
    requires
        spec_shape(k) == ParamsShape::Null,
        k != KnownOid::RsaWithSha1Alt,
    ensures
        r.deep_view() == (AlgorithmView { oid: k.spec_der(), params: ParamsView::Null(n is Some) }),
{
    match k {
        KnownOid::Sha1 => AlgorithmParameters::Sha1(n),
        KnownOid::Sha224 => AlgorithmParameters::Sha224(n),
        KnownOid::Sha256 => AlgorithmParameters::Sha256(n),
        KnownOid::Sha384 => AlgorithmParameters::Sha384(n),
        KnownOid::Sha512 => AlgorithmParameters::Sha512(n),
        KnownOid::Sha3_224 => AlgorithmParameters::Sha3_224(n),
        KnownOid::Sha3_256 => AlgorithmParameters::Sha3_256(n),
        KnownOid::Sha3_384 => AlgorithmParameters::Sha3_384(n),
        KnownOid::Sha3_512 => AlgorithmParameters::Sha3_512(n),
        KnownOid::Rsa => AlgorithmParameters::Rsa(n),
        KnownOid::EcDsaWithSha224 => AlgorithmParameters::EcDsaWithSha224(n),
        KnownOid::EcDsaWithSha256 => AlgorithmParameters::EcDsaWithSha256(n),
        KnownOid::EcDsaWithSha384 => AlgorithmParameters::EcDsaWithSha384(n),
        KnownOid::EcDsaWithSha512 => AlgorithmParameters::EcDsaWithSha512(n),
        KnownOid::RsaWithSha1 => AlgorithmParameters::RsaWithSha1(n),
        KnownOid::RsaWithSha224 => AlgorithmParameters::RsaWithSha224(n),
        KnownOid::RsaWithSha256 => AlgorithmParameters::RsaWithSha256(n),
        KnownOid::RsaWithSha384 => AlgorithmParameters::RsaWithSha384(n),
        KnownOid::RsaWithSha512 => AlgorithmParameters::RsaWithSha512(n),
        KnownOid::RsaWithSha3_224 => AlgorithmParameters::RsaWithSha3_224(n),
        KnownOid::RsaWithSha3_256 => AlgorithmParameters::RsaWithSha3_256(n),
        KnownOid::RsaWithSha3_384 => AlgorithmParameters::RsaWithSha3_384(n),
        KnownOid::RsaWithSha3_512 => AlgorithmParameters::RsaWithSha3_512(n),
        KnownOid::DsaWithSha224 => AlgorithmParameters::DsaWithSha224(n),
        KnownOid::DsaWithSha256 => AlgorithmParameters::DsaWithSha256(n),
        KnownOid::DsaWithSha384 => AlgorithmParameters::DsaWithSha384(n),
        KnownOid::DsaWithSha512 => AlgorithmParameters::DsaWithSha512(n),
        _ => vstd::pervasive::unreached(),
    }
}

/// The variant of an algorithm that has no parameters.
fn absent_variant<'a>(k: KnownOid) -> (r: AlgorithmParameters<'a>)
    requires
        spec_shape(k) == ParamsShape::Absent,
    ensures
        r.deep_view() == (AlgorithmView { oid: k.spec_der(), params: ParamsView::Absent }),
{
    match k {
        KnownOid::Ed25519 => AlgorithmParameters::Ed25519,
        KnownOid::Ed448 => AlgorithmParameters::Ed448,
        KnownOid::X25519 => AlgorithmParameters::X25519,
        KnownOid::X448 => AlgorithmParameters::X448,
        KnownOid::EcDsaWithSha3_224 => AlgorithmParameters::EcDsaWithSha3_224,
        KnownOid::EcDsaWithSha3_256 => AlgorithmParameters::EcDsaWithSha3_256,
        KnownOid::EcDsaWithSha3_384 => AlgorithmParameters::EcDsaWithSha3_384,
        KnownOid::EcDsaWithSha3_512 => AlgorithmParameters::EcDsaWithSha3_512,
        _ => vstd::pervasive::unreached(),
    }
}

impl<'a> AlgorithmParameters<'a> {
    /// The entry of the table that the variant stands for; none for an
    /// algorithm that is not known.
    pub fn known(&self) -> (r: Option<KnownOid>)
        ensures
            r == spec_known(*self),
            r matches Some(k) ==> self.deep_view().oid == k.spec_der() && k != KnownOid::RsaWithSha1Alt && k
                != KnownOid::Mgf1 && spec_shape(k) == params_shape(self.deep_view().params),
            r.is_none() ==> self is Other && self.deep_view().params is Any,
    {
        match self {
            AlgorithmParameters::Sha1(_) => Some(KnownOid::Sha1),
            AlgorithmParameters::Sha224(_) => Some(KnownOid::Sha224),
            AlgorithmParameters::Sha256(_) => Some(KnownOid::Sha256),
            AlgorithmParameters::Sha384(_) => Some(KnownOid::Sha384),
            AlgorithmParameters::Sha512(_) => Some(KnownOid::Sha512),
            AlgorithmParameters::Sha3_224(_) => Some(KnownOid::Sha3_224),
            AlgorithmParameters::Sha3_256(_) => Some(KnownOid::Sha3_256),
            AlgorithmParameters::Sha3_384(_) => Some(KnownOid::Sha3_384),
            AlgorithmParameters::Sha3_512(_) => Some(KnownOid::Sha3_512),
            AlgorithmParameters::Ed25519 => Some(KnownOid::Ed25519),
            AlgorithmParameters::Ed448 => Some(KnownOid::Ed448),
            AlgorithmParameters::X25519 => Some(KnownOid::X25519),
            AlgorithmParameters::X448 => Some(KnownOid::X448),
            AlgorithmParameters::Ec(_) => Some(KnownOid::Ec),
            AlgorithmParameters::Rsa(_) => Some(KnownOid::Rsa),
            AlgorithmParameters::AesCbc(_) => Some(KnownOid::AesCbc),
            AlgorithmParameters::EcDsaWithSha224(_) => Some(KnownOid::EcDsaWithSha224),
            AlgorithmParameters::EcDsaWithSha256(_) => Some(KnownOid::EcDsaWithSha256),
            AlgorithmParameters::EcDsaWithSha384(_) => Some(KnownOid::EcDsaWithSha384),
            AlgorithmParameters::EcDsaWithSha512(_) => Some(KnownOid::EcDsaWithSha512),
            AlgorithmParameters::EcDsaWithSha3_224 => Some(KnownOid::EcDsaWithSha3_224),
            AlgorithmParameters::EcDsaWithSha3_256 => Some(KnownOid::EcDsaWithSha3_256),
            AlgorithmParameters::EcDsaWithSha3_384 => Some(KnownOid::EcDsaWithSha3_384),
            AlgorithmParameters::EcDsaWithSha3_512 => Some(KnownOid::EcDsaWithSha3_512),
            AlgorithmParameters::RsaWithSha1(_) => Some(KnownOid::RsaWithSha1),
            AlgorithmParameters::RsaWithSha224(_) => Some(KnownOid::RsaWithSha224),
            AlgorithmParameters::RsaWithSha256(_) => Some(KnownOid::RsaWithSha256),
            AlgorithmParameters::RsaWithSha384(_) => Some(KnownOid::RsaWithSha384),
            AlgorithmParameters::RsaWithSha512(_) => Some(KnownOid::RsaWithSha512),
            AlgorithmParameters::RsaWithSha3_224(_) => Some(KnownOid::RsaWithSha3_224),
            AlgorithmParameters::RsaWithSha3_256(_) => Some(KnownOid::RsaWithSha3_256),
            AlgorithmParameters::RsaWithSha3_384(_) => Some(KnownOid::RsaWithSha3_384),
            AlgorithmParameters::RsaWithSha3_512(_) => Some(KnownOid::RsaWithSha3_512),
            AlgorithmParameters::RsaPss(_) => Some(KnownOid::RsaPss),
            AlgorithmParameters::Dsa(_) => Some(KnownOid::Dsa),
            AlgorithmParameters::DsaWithSha224(_) => Some(KnownOid::DsaWithSha224),
            AlgorithmParameters::DsaWithSha256(_) => Some(KnownOid::DsaWithSha256),
            AlgorithmParameters::DsaWithSha384(_) => Some(KnownOid::DsaWithSha384),
            AlgorithmParameters::DsaWithSha512(_) => Some(KnownOid::DsaWithSha512),
            AlgorithmParameters::Dh(_) => Some(KnownOid::Dh),
            AlgorithmParameters::DhKeyAgreement(_) => Some(KnownOid::DhKeyAgreement),
            AlgorithmParameters::Other(_, _) => None,
        }
    }

    /// The object identifier of the algorithm.
    pub fn item(&self) -> (r: ObjectIdentifier<'a>)
        ensures
            r@ == self.deep_view().oid,
    {
        match self {
            AlgorithmParameters::Other(oid, _) => *oid,
            _ => match self.known() {
                Some(k) => ObjectIdentifier::known(k),
                None => vstd::pervasive::unreached(),
            },
        }
    }

    /// The NULL parameter of a variant that has one, given or not.
    fn null_param(&self) -> (r: Option<Option<Null>>)
        ensures
            r matches Some(n) ==> self.deep_view().params == ParamsView::Null(n is Some),
            r.is_none() ==> !(self.deep_view().params is Null),
    {
        match self {
            AlgorithmParameters::Sha1(n) => Some(*n),
            AlgorithmParameters::Sha224(n) => Some(*n),
            AlgorithmParameters::Sha256(n) => Some(*n),
            AlgorithmParameters::Sha384(n) => Some(*n),
            AlgorithmParameters::Sha512(n) => Some(*n),
            AlgorithmParameters::Sha3_224(n) => Some(*n),
            AlgorithmParameters::Sha3_256(n) => Some(*n),
            AlgorithmParameters::Sha3_384(n) => Some(*n),
            AlgorithmParameters::Sha3_512(n) => Some(*n),
            AlgorithmParameters::Rsa(n) => Some(*n),
            AlgorithmParameters::EcDsaWithSha224(n) => Some(*n),
            AlgorithmParameters::EcDsaWithSha256(n) => Some(*n),
            AlgorithmParameters::EcDsaWithSha384(n) => Some(*n),
            AlgorithmParameters::EcDsaWithSha512(n) => Some(*n),
            AlgorithmParameters::RsaWithSha1(n) => Some(*n),
            AlgorithmParameters::RsaWithSha224(n) => Some(*n),
            AlgorithmParameters::RsaWithSha256(n) => Some(*n),
            AlgorithmParameters::RsaWithSha384(n) => Some(*n),
            AlgorithmParameters::RsaWithSha512(n) => Some(*n),
            AlgorithmParameters::RsaWithSha3_224(n) => Some(*n),
            AlgorithmParameters::RsaWithSha3_256(n) => Some(*n),
            AlgorithmParameters::RsaWithSha3_384(n) => Some(*n),
            AlgorithmParameters::RsaWithSha3_512(n) => Some(*n),
            AlgorithmParameters::DsaWithSha224(n) => Some(*n),
            AlgorithmParameters::DsaWithSha256(n) => Some(*n),
            AlgorithmParameters::DsaWithSha384(n) => Some(*n),
            AlgorithmParameters::DsaWithSha512(n) => Some(*n),
            _ => None,
        }
    }
}

impl<'a> AlgorithmIdentifier<'a> {
    /// The object identifier of the algorithm.
    pub fn oid(&self) -> (r: ObjectIdentifier<'a>)
        ensures
            r@ == self.deep_view().oid,
    {
        self.params.item()
    }
}

// ---------------------------------------------------------------------
// The defaults of RSASSA-PSS
// ---------------------------------------------------------------------

/// The default hash algorithm of RSASSA-PSS.
pub fn pss_sha1_hash_alg<'a>() -> (r: AlgorithmIdentifier<'a>)
    ensures
        r.deep_view() == spec_default_hash(),
{
    AlgorithmIdentifier { params: AlgorithmParameters::Sha1(Some(())) }
}

/// SHA-256 as the hash algorithm of RSASSA-PSS.
pub fn pss_sha256_hash_alg<'a>() -> (r: AlgorithmIdentifier<'a>)
    ensures
        r.deep_view() == (AlgorithmView { oid: KnownOid::Sha256.spec_der(), params: ParamsView::Null(true) }),
{
    AlgorithmIdentifier { params: AlgorithmParameters::Sha256(Some(())) }
}

/// SHA-384 as the hash algorithm of RSASSA-PSS.
pub fn pss_sha384_hash_alg<'a>() -> (r: AlgorithmIdentifier<'a>)
    ensures
        r.deep_view() == (AlgorithmView { oid: KnownOid::Sha384.spec_der(), params: ParamsView::Null(true) }),
{
    AlgorithmIdentifier { params: AlgorithmParameters::Sha384(Some(())) }
}

/// SHA-512 as the hash algorithm of RSASSA-PSS.
pub fn pss_sha512_hash_alg<'a>() -> (r: AlgorithmIdentifier<'a>)
    ensures
        r.deep_view() == (AlgorithmView { oid: KnownOid::Sha512.spec_der(), params: ParamsView::Null(true) }),
{
    AlgorithmIdentifier { params: AlgorithmParameters::Sha512(Some(())) }
}

/// MGF1 with the given hash algorithm.
pub fn mgf1_with<'a>(hash: AlgorithmIdentifier<'a>) -> (r: MaskGenAlgorithm<'a>)
    ensures
        r.deep_view() == (MaskGenAlgorithmView { oid: KnownOid::Mgf1.spec_der(), params: hash.deep_view() }),
{
    MaskGenAlgorithm { oid: ObjectIdentifier::known(KnownOid::Mgf1), params: hash }
}

/// The default mask generation of RSASSA-PSS.
pub fn pss_sha1_mask_gen_alg<'a>() -> (r: MaskGenAlgorithm<'a>)
    ensures
        r.deep_view() == spec_default_mask_gen(),
{
    mgf1_with(pss_sha1_hash_alg())
}

/// MGF1 with SHA-256.
pub fn pss_sha256_mask_gen_alg<'a>() -> (r: MaskGenAlgorithm<'a>)
    ensures
        r.deep_view().oid == KnownOid::Mgf1.spec_der(),
        r.deep_view().params == (AlgorithmView {
            oid: KnownOid::Sha256.spec_der(),
            params: ParamsView::Null(true),
        }),
{
    mgf1_with(pss_sha256_hash_alg())
}

/// MGF1 with SHA-384.
pub fn pss_sha384_mask_gen_alg<'a>() -> (r: MaskGenAlgorithm<'a>)
    ensures
        r.deep_view().oid == KnownOid::Mgf1.spec_der(),
        r.deep_view().params == (AlgorithmView {
            oid: KnownOid::Sha384.spec_der(),
            params: ParamsView::Null(true),
        }),
{
    mgf1_with(pss_sha384_hash_alg())
}

/// MGF1 with SHA-512.
pub fn pss_sha512_mask_gen_alg<'a>() -> (r: MaskGenAlgorithm<'a>)
    ensures
        r.deep_view().oid == KnownOid::Mgf1.spec_der(),
        r.deep_view().params == (AlgorithmView {
            oid: KnownOid::Sha512.spec_der(),
            params: ParamsView::Null(true),
        }),
{
    mgf1_with(pss_sha512_hash_alg())
}

/// Whether the algorithm is the default hash algorithm of RSASSA-PSS.
pub fn is_default_hash(a: &AlgorithmIdentifier) -> (r: bool)
    ensures
        r == (a.deep_view() == spec_default_hash()),
{
    assert(a.deep_view() == a.params.deep_view());
    match a.params.known() {
        Some(k) => {
            proof {
                if a.deep_view().oid == KnownOid::Sha1.spec_der() {
                    lemma_known_injective(k, KnownOid::Sha1);
                }
            }
            match k {
                KnownOid::Sha1 => match a.params.null_param() {
                    Some(Some(_)) => true,
                    _ => false,
                },
                _ => false,
            }
        },
        None => false,
    }
}

/// Whether the mask generation is the default of RSASSA-PSS.
pub fn is_default_mask_gen(m: &MaskGenAlgorithm) -> (r: bool)
    ensures
        r == (m.deep_view() == spec_default_mask_gen()),
{
    let mgf1 = ObjectIdentifier::known(KnownOid::Mgf1);
    m.oid.same(&mgf1) && is_default_hash(&m.params)
}

// ---------------------------------------------------------------------
// Validity
// ---------------------------------------------------------------------

/// Whether the algorithm identifier is valid, which is to say: whether it
/// is such as decoding yields. One that is built by hand is not valid where
/// it holds, as an algorithm that is not known, an object identifier of the
/// table.
pub fn is_valid_algorithm(a: &AlgorithmIdentifier) -> (r: bool)
    ensures
        r == algorithm_valid(a.deep_view()),
    decreases a, 0nat,
{
    is_valid_parameters(&a.params)
}

/// Whether the parameters, with the object identifier of their variant, make
/// a valid algorithm identifier.
pub fn is_valid_parameters(p: &AlgorithmParameters) -> (r: bool)
    ensures
        r == algorithm_valid(p.deep_view()),
    decreases p, 0nat,
{
    match p.known() {
        Some(k) => {
            proof {
                lemma_known_algorithm(k);
            }
            match p {
                AlgorithmParameters::Ec(EcParameters::NamedCurve(oid)) => {
                    let _ = oid.as_der();
                    true
                },
                AlgorithmParameters::RsaPss(Some(b)) => is_valid_rsa_pss(b),
                AlgorithmParameters::Dsa(d) => {
                    let _ = d.p.as_bytes();
                    let _ = d.q.as_bytes();
                    let _ = d.g.as_bytes();
                    true
                },
                AlgorithmParameters::Dh(d) => {
                    let _ = d.p.as_bytes();
                    let _ = d.g.as_bytes();
                    let _ = d.q.as_bytes();
                    match &d.j {
                        Some(j) => {
                            let _ = j.as_bytes();
                        },
                        None => {},
                    }
                    true
                },
                AlgorithmParameters::DhKeyAgreement(d) => {
                    let _ = d.p.as_bytes();
                    let _ = d.g.as_bytes();
                    true
                },
                _ => true,
            }
        },
        None => match p {
            AlgorithmParameters::Other(oid, _) => {
                let _ = oid.as_der();
                proof {
                    crate::oid::lemma_lookup_sound(oid@);
                }
                match oid.known_oid() {
                    None => true,
                    Some(k) => {
                        match k {
                            KnownOid::Mgf1 => true,
                            _ => false,
                        }
                    },
                }
            },
            _ => vstd::pervasive::unreached(),
        },
    }
}

/// Whether the hash algorithm and the mask generation of RSASSA-PSS
/// parameters are valid.
pub fn is_valid_rsa_pss(p: &RsaPssParameters) -> (r: bool)
    ensures
        r == rsa_pss_valid(p.deep_view()),
    decreases p, 0nat,
{
    let _ = p.mask_gen_algorithm.oid.as_der();
    is_valid_algorithm(&p.hash_algorithm) && is_valid_algorithm(&p.mask_gen_algorithm.params)
}

// ---------------------------------------------------------------------
// Decoding
// ---------------------------------------------------------------------

/// Reads a NULL that may be absent.
fn read_optional_null<'a>(data: &'a [u8]) -> (r: Result<(Option<Null>, &'a [u8]), ParseError>)
    ensures
        r matches Ok(x) ==> spec_read_optional_null(data@) == Ok::<(bool, Seq<u8>), ParseError>((x.0 is Some, x.1@))
            && x.1@.len() <= data@.len(),
        r matches Err(e) ==> spec_read_optional_null(data@) == Err::<(bool, Seq<u8>), ParseError>(e),
{
    let (content, rest) = read_optional(null_tag(), data)?;
    match content {
        None => Ok((None, rest)),
        Some(c) => {
            if c.len() != 0 {
                return Err(ParseError::InvalidValue);
            }
            Ok((Some(()), rest))
        },
    }
}

/// Reads an explicitly tagged unsigned integer that may be absent.
fn read_explicit_uint<'a>(n: u32, max: u32, data: &'a [u8]) -> (r: Result<(Option<u32>, &'a [u8]), ParseError>)
    ensures
        r matches Ok(x) ==> spec_read_explicit_uint(n, max as nat, data@) == Ok::<(Option<nat>, Seq<u8>), ParseError>(
            (
                match x.0 {
                    Some(v) => Some(v as nat),
                    None => None,
                },
                x.1@,
            ),
        ) && x.1@.len() <= data@.len() && (x.0 matches Some(v) ==> v <= max),
        r matches Err(e) ==> spec_read_explicit_uint(n, max as nat, data@) == Err::<(Option<nat>, Seq<u8>), ParseError>(
            e,
        ),
{
    let (content, rest) = read_optional(explicit_tag(n), data)?;
    match content {
        None => Ok((None, rest)),
        Some(inner) => {
            let (digits, after) = read_tagged(integer_tag(), inner)?;
            let v = crate::primitive::parse_uint(digits, max)?;
            if after.len() != 0 {
                return Err(ParseError::ExtraData);
            }
            Ok((Some(v), rest))
        },
    }
}

/// Reads an algorithm identifier off the front of `data` and returns it
/// with the octets that follow.
pub fn read_algorithm_identifier<'a>(data: &'a [u8]) -> (r: Result<(AlgorithmIdentifier<'a>, &'a [u8]), ParseError>)
    ensures
        read_view(r) == spec_read_algorithm_identifier(data@),
        r matches Ok(x) ==> x.1@.len() < data@.len() && algorithm_valid(x.0.deep_view()),
    decreases data@.len(), 0nat,
{
    proof {
        lemma_decoded_algorithm_valid(data@);
    }
    let (content, rest) = read_tagged(sequence_tag(), data)?;
    let a = parse_algorithm_identifier(content)?;
    Ok((a, rest))
}

/// Decodes the content of an algorithm identifier.
pub fn parse_algorithm_identifier<'a>(data: &'a [u8]) -> (r: Result<AlgorithmIdentifier<'a>, ParseError>)
    ensures
        data_view(r) == spec_parse_algorithm_identifier(data@),
        r matches Ok(a) ==> algorithm_valid(a.deep_view()),
    decreases data@.len(), 0nat,
{
    proof {
        lemma_decoded_content_valid(data@);
    }
    let (content, rest) = read_tagged(oid_tag(), data)?;
    let oid = ObjectIdentifier::from_der(content)?;
    let (params, rest) = read_parameters(oid, rest)?;
    if rest.len() != 0 {
        return Err(ParseError::ExtraData);
    }
    Ok(AlgorithmIdentifier { params })
}

/// Reads the parameters that follow the object identifier `oid`.
pub fn read_parameters<'a>(oid: ObjectIdentifier<'a>, data: &'a [u8]) -> (r: Result<
    (AlgorithmParameters<'a>, &'a [u8]),
    ParseError,
>)
    ensures
        read_view(r) == spec_read_parameters(oid@, data@),
        r matches Ok(x) ==> x.1@.len() <= data@.len(),
    decreases data@.len(), 0nat,
{
    proof {
        crate::oid::lemma_lookup_sound(oid@);
    }
    let which = match oid.known_oid() {
        Some(k) => shape(k),
        None => ParamsShape::Any,
    };
    match which {
        ParamsShape::Absent => match oid.known_oid() {
            Some(k) => Ok((absent_variant(k), data)),
            None => vstd::pervasive::unreached(),
        },
        ParamsShape::Null => match oid.known_oid() {
            Some(k) => {
                let (n, rest) = read_optional_null(data)?;
                Ok((null_variant(canonical(k), n), rest))
            },
            None => vstd::pervasive::unreached(),
        },
        ParamsShape::Ec => {
            let (e, rest) = EcParameters::parse(data)?;
            Ok((AlgorithmParameters::Ec(e), rest))
        },
        ParamsShape::Iv => {
            let (iv, rest) = read_tagged(octet_string_tag(), data)?;
            Ok((AlgorithmParameters::AesCbc(iv), rest))
        },
        ParamsShape::RsaPss => {
            let (content, rest) = read_optional(sequence_tag(), data)?;
            match content {
                None => Ok((AlgorithmParameters::RsaPss(None), rest)),
                Some(c) => {
                    let p = parse_rsa_pss(c)?;
                    Ok((AlgorithmParameters::RsaPss(Some(Box::new(p))), rest))
                },
            }
        },
        ParamsShape::Dsa => {
            let (d, rest) = DssParams::parse(data)?;
            Ok((AlgorithmParameters::Dsa(d), rest))
        },
        ParamsShape::Dh => {
            let (d, rest) = DHXParams::parse(data)?;
            Ok((AlgorithmParameters::Dh(d), rest))
        },
        ParamsShape::DhKeyAgreement => {
            let (d, rest) = BasicDHParams::parse(data)?;
            Ok((AlgorithmParameters::DhKeyAgreement(d), rest))
        },
        ParamsShape::Any => {
            let (t, rest) = Option::<Tlv<'a>>::parse(data)?;
            Ok((AlgorithmParameters::Other(oid, t), rest))
        },
    }
}

/// Decodes what an explicit tag wraps as one algorithm identifier.
fn parse_wrapped_algorithm<'a>(inner: &'a [u8]) -> (r: Result<AlgorithmIdentifier<'a>, ParseError>)
    ensures
        data_view(r) == spec_parse_wrapped_algorithm(inner@),
    decreases inner@.len(), 1nat,
{
    let (a, rest) = read_algorithm_identifier(inner)?;
    if rest.len() != 0 {
        return Err(ParseError::ExtraData);
    }
    Ok(a)
}

/// Decodes the content of a MaskGenAlgorithm.
pub fn parse_mask_gen<'a>(data: &'a [u8]) -> (r: Result<MaskGenAlgorithm<'a>, ParseError>)
    ensures
        data_view(r) == spec_parse_mask_gen(data@),
    decreases data@.len(), 0nat,
{
    let (content, rest) = read_tagged(oid_tag(), data)?;
    let oid = ObjectIdentifier::from_der(content)?;
    let params = parse_wrapped_algorithm(rest)?;
    Ok(MaskGenAlgorithm { oid, params })
}

/// Decodes what an explicit tag wraps as one MaskGenAlgorithm.
fn parse_wrapped_mask_gen<'a>(inner: &'a [u8]) -> (r: Result<MaskGenAlgorithm<'a>, ParseError>)
    ensures
        data_view(r) == spec_parse_wrapped_mask_gen(inner@),
    decreases inner@.len(), 0nat,
{
    let (content, rest) = read_tagged(sequence_tag(), inner)?;
    let m = parse_mask_gen(content)?;
    if rest.len() != 0 {
        return Err(ParseError::ExtraData);
    }
    Ok(m)
}

/// Decodes the content of RSASSA-PSS-params.
pub fn parse_rsa_pss<'a>(data: &'a [u8]) -> (r: Result<RsaPssParameters<'a>, ParseError>)
    ensures
        data_view(r) == spec_parse_rsa_pss(data@),
    decreases data@.len(), 0nat,
{
    let (f0, rest) = read_optional(explicit_tag(0), data)?;
    let hash_algorithm = match f0 {
        None => pss_sha1_hash_alg(),
        Some(inner) => parse_wrapped_algorithm(inner)?,
    };
    let (f1, rest) = read_optional(explicit_tag(1), rest)?;
    let mask_gen_algorithm = match f1 {
        None => pss_sha1_mask_gen_alg(),
        Some(inner) => parse_wrapped_mask_gen(inner)?,
    };
    let (f2, rest) = read_explicit_uint(2, 0xffff, rest)?;
    let (f3, rest) = read_explicit_uint(3, 0xff, rest)?;
    if rest.len() != 0 {
        return Err(ParseError::ExtraData);
    }
    let salt_length: u16 = match f2 {
        Some(v) => v as u16,
        None => 20,
    };
    let trailer_field: u8 = match f3 {
        Some(v) => v as u8,
        None => 1,
    };
    Ok(RsaPssParameters { hash_algorithm, mask_gen_algorithm, salt_length, _trailer_field: trailer_field })
}

// ---------------------------------------------------------------------
// Encoding
// ---------------------------------------------------------------------

/// Writes an algorithm identifier. What is written of a valid identifier
/// is read back as that identifier, where it is not longer than can be
/// read.
pub fn write_algorithm_identifier(a: &AlgorithmIdentifier) -> (r: Result<Vec<u8>, WriteError>)
    ensures
        r matches Ok(b) ==> b@ == spec_algorithm_encoding(a.deep_view()),
        r matches Ok(b) ==> (algorithm_valid(a.deep_view()) && b@.len() <= max_content_len()
            ==> spec_read_algorithm_identifier(b@) == Ok::<(AlgorithmView, Seq<u8>), ParseError>(
            (a.deep_view(), Seq::empty()),
        )),
    decreases a, 0nat,
{
    let r = write_framed(sequence_tag(), write_algorithm_content(&a.params));
    proof {
        let v = a.deep_view();
        if algorithm_valid(v) && spec_algorithm_encoding(v).len() <= max_content_len() {
            lemma_algorithm_round_trip(v, Seq::empty());
            assert(spec_algorithm_encoding(v) + Seq::<u8>::empty() =~= spec_algorithm_encoding(v));
        }
    }
    r
}

/// Writes the content of an algorithm identifier: the object identifier of
/// the variant, then its parameters.
pub fn write_algorithm_content(p: &AlgorithmParameters) -> (r: Result<Vec<u8>, WriteError>)
    ensures
        r matches Ok(b) ==> b@ == spec_algorithm_content(p.deep_view()),
    decreases p, 1nat,
{
    let oid = p.item();
    join_written(write_element(oid_tag(), oid.as_der()), write_parameters(p))
}

/// Writes the parameters of an algorithm. Where there are none to write,
/// nothing is called and nothing is what is written.
pub fn write_parameters(p: &AlgorithmParameters) -> (r: Result<Vec<u8>, WriteError>)
    ensures
        r matches Ok(b) ==> b@ == spec_parameters_encoding(p.deep_view().params),
        params_absent(p.deep_view().params) ==> r is Ok,
    decreases p, 0nat,
{
    match p.null_param() {
        Some(Some(_)) => {
            let empty: Vec<u8> = Vec::new();
            write_element(null_tag(), empty.as_slice())
        },
        Some(None) => Ok(Vec::new()),
        None => match p {
            AlgorithmParameters::Ec(e) => e.write(),
            AlgorithmParameters::AesCbc(iv) => write_element(octet_string_tag(), iv),
            AlgorithmParameters::RsaPss(None) => Ok(Vec::new()),
            AlgorithmParameters::RsaPss(Some(b)) => write_framed(sequence_tag(), write_rsa_pss_content(b)),
            AlgorithmParameters::Dsa(d) => d.write(),
            AlgorithmParameters::Dh(d) => d.write(),
            AlgorithmParameters::DhKeyAgreement(d) => d.write(),
            AlgorithmParameters::Other(_, None) => Ok(Vec::new()),
            AlgorithmParameters::Other(_, Some(t)) => t.write(),
            _ => Ok(Vec::new()),
        },
    }
}

/// Writes the content of a MaskGenAlgorithm.
pub fn write_mask_gen_content(m: &MaskGenAlgorithm) -> (r: Result<Vec<u8>, WriteError>)
    ensures
        r matches Ok(b) ==> b@ == spec_mask_gen_content(m.deep_view()),
    decreases m, 0nat,
{
    join_written(write_element(oid_tag(), m.oid.as_der()), write_algorithm_identifier(&m.params))
}

/// Writes an explicitly tagged unsigned integer field, unless it has its
/// default: then nothing is called and nothing is what is written.
fn write_uint_field(n: u32, v: u32, default: u32) -> (r: Result<Vec<u8>, WriteError>)
    ensures
        r matches Ok(b) ==> b@ == spec_uint_field(n, v as nat, default as nat),
        v == default ==> r is Ok,
{
    if v == default {
        return Ok(Vec::new());
    }
    let digits = write_uint(v);
    write_framed(explicit_tag(n), write_element(integer_tag(), digits.as_slice()))
}

/// Writes the content of RSASSA-PSS-params: the fields that do not have
/// their default. Where every field has its default, nothing is called and
/// nothing is what is written.
pub fn write_rsa_pss_content(p: &RsaPssParameters) -> (r: Result<Vec<u8>, WriteError>)
    ensures
        r matches Ok(b) ==> b@ == spec_rsa_pss_content(p.deep_view()),
        p.deep_view() == spec_default_rsa_pss() ==> r is Ok,
    decreases p, 0nat,
{
    let hash = if is_default_hash(&p.hash_algorithm) {
        Ok(Vec::new())
    } else {
        write_framed(explicit_tag(0), write_algorithm_identifier(&p.hash_algorithm))
    };
    let mask_gen = if is_default_mask_gen(&p.mask_gen_algorithm) {
        Ok(Vec::new())
    } else {
        write_framed(explicit_tag(1), write_framed(sequence_tag(), write_mask_gen_content(&p.mask_gen_algorithm)))
    };
    let salt = write_uint_field(2, p.salt_length as u32, 20);
    let trailer = write_uint_field(3, p._trailer_field as u32, 1);
    join_written(join_written(join_written(hash, mask_gen), salt), trailer)
}

impl<'a> AlgorithmParameters<'a> {
    /// Reads the parameters that follow the object identifier `oid`.
    pub fn parse(oid: ObjectIdentifier<'a>, data: &'a [u8]) -> (r: Result<
        (AlgorithmParameters<'a>, &'a [u8]),
        ParseError,
    >)
        ensures
            read_view(r) == spec_read_parameters(oid@, data@),
    {
        read_parameters(oid, data)
    }

    /// Writes the parameters, without the object identifier. Where there
    /// are none to write, nothing is called and nothing is what is written.
    pub fn write(&self) -> (r: Result<Vec<u8>, WriteError>)
        ensures
            r matches Ok(b) ==> b@ == spec_parameters_encoding(self.deep_view().params),
            params_absent(self.deep_view().params) ==> r is Ok,
    {
        write_parameters(self)
    }
}

impl<'a> SimpleAsn1Readable<'a> for AlgorithmIdentifier<'a> {
    open spec fn spec_tag() -> Tag {
        spec_sequence_tag()
    }

    open spec fn spec_parse_data(data: Seq<u8>) -> Result<AlgorithmView, ParseError> {
        spec_parse_algorithm_identifier(data)
    }

    fn tag() -> (r: Tag) {
        sequence_tag()
    }

    fn parse_data(data: &'a [u8]) -> (r: Result<Self, ParseError>) {
        parse_algorithm_identifier(data)
    }
}

impl<'a> SimpleAsn1Writable for AlgorithmIdentifier<'a> {
    open spec fn spec_write_tag() -> Tag {
        spec_sequence_tag()
    }

    open spec fn spec_content(v: AlgorithmView) -> Seq<u8> {
        spec_algorithm_content(v)
    }

    /// The object identifier is framed by `asn1`, whatever the value.
    open spec fn spec_content_owed(v: AlgorithmView) -> bool {
        false
    }

    fn write_tag() -> (r: Tag) {
        sequence_tag()
    }

    fn write_data(&self) -> (r: Result<Vec<u8>, WriteError>) {
        write_algorithm_content(&self.params)
    }
}

impl<'a> SimpleAsn1Readable<'a> for MaskGenAlgorithm<'a> {
    open spec fn spec_tag() -> Tag {
        spec_sequence_tag()
    }

    open spec fn spec_parse_data(data: Seq<u8>) -> Result<MaskGenAlgorithmView, ParseError> {
        spec_parse_mask_gen(data)
    }

    fn tag() -> (r: Tag) {
        sequence_tag()
    }

    fn parse_data(data: &'a [u8]) -> (r: Result<Self, ParseError>) {
        parse_mask_gen(data)
    }
}

impl<'a> SimpleAsn1Writable for MaskGenAlgorithm<'a> {
    open spec fn spec_write_tag() -> Tag {
        spec_sequence_tag()
    }

    open spec fn spec_content(v: MaskGenAlgorithmView) -> Seq<u8> {
        spec_mask_gen_content(v)
    }

    /// The object identifier is framed by `asn1`, whatever the value.
    open spec fn spec_content_owed(v: MaskGenAlgorithmView) -> bool {
        false
    }

    fn write_tag() -> (r: Tag) {
        sequence_tag()
    }

    fn write_data(&self) -> (r: Result<Vec<u8>, WriteError>) {
        write_mask_gen_content(self)
    }
}

impl<'a> SimpleAsn1Readable<'a> for RsaPssParameters<'a> {
    open spec fn spec_tag() -> Tag {
        spec_sequence_tag()
    }

    open spec fn spec_parse_data(data: Seq<u8>) -> Result<RsaPssParametersView, ParseError> {
        spec_parse_rsa_pss(data)
    }

    fn tag() -> (r: Tag) {
        sequence_tag()
    }

    fn parse_data(data: &'a [u8]) -> (r: Result<Self, ParseError>) {
        parse_rsa_pss(data)
    }
}

impl<'a> SimpleAsn1Writable for RsaPssParameters<'a> {
    open spec fn spec_write_tag() -> Tag {
        spec_sequence_tag()
    }

    open spec fn spec_content(v: RsaPssParametersView) -> Seq<u8> {
        spec_rsa_pss_content(v)
    }

    /// Where every field has its default, no field is written and nothing
    /// is called.
    open spec fn spec_content_owed(v: RsaPssParametersView) -> bool {
        v == spec_default_rsa_pss()
    }

    fn write_tag() -> (r: Tag) {
        sequence_tag()
    }

    fn write_data(&self) -> (r: Result<Vec<u8>, WriteError>) {
        write_rsa_pss_content(self)
    }
}

} // verus!
