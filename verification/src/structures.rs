//! BIT STRING, and two structures built on the types of this crate: the
//! public key info and the attribute of a name.

use crate::algorithm::{
    read_algorithm_identifier, spec_algorithm_encoding, spec_read_algorithm_identifier, write_algorithm_identifier,
    AlgorithmIdentifier, AlgorithmView,
};
use crate::codec::{
    lemma_parse_simple_element, read_tagged, spec_finish, spec_parse_simple, Asn1Readable, Asn1Writable,
    SimpleAsn1Readable, SimpleAsn1Writable,
};
use crate::der::{
    element, join_written, lemma_first_element, max_content_len, spec_read_tlv, write_element, TlvView,
};
use crate::error::{ParseError, WriteError};
use crate::laws::{algorithm_valid, lemma_algorithm_round_trip};
use crate::oid::{lemma_oid_round_trip, oid_accepted, spec_parse_oid, ObjectIdentifier};
use crate::primitive::{
    bit_string_tag, join_bytes, oid_tag, sequence_tag, spec_bit_string_tag, spec_oid_tag, spec_sequence_tag,
};
use crate::tag::Tag;
use crate::tlv::RawTlv;
use vstd::prelude::*;

verus! {

/// Two to the power of a number of padding bits.
pub open spec fn spec_padding_weight(padding_bits: u8) -> nat {
    match padding_bits {
        0 => 1,
        1 => 2,
        2 => 4,
        3 => 8,
        4 => 16,
        5 => 32,
        6 => 64,
        _ => 128,
    }
}

/// Whether `data` with `padding_bits` unused bits is a bit string: at most
/// seven bits are unused, none where there is no octet, and the unused bits
/// of the last octet are clear.
pub open spec fn bit_string_ok(data: Seq<u8>, padding_bits: u8) -> bool {
    &&& padding_bits <= 7
    &&& data.len() == 0 ==> padding_bits == 0
    &&& padding_bits > 0 ==> data.last() as nat % spec_padding_weight(padding_bits) == 0
}

fn padding_weight(padding_bits: u8) -> (r: u8)
    ensures
        r == spec_padding_weight(padding_bits),
{
    match padding_bits {
        0 => 1,
        1 => 2,
        2 => 4,
        3 => 8,
        4 => 16,
        5 => 32,
        6 => 64,
        _ => 128,
    }
}

/// A BIT STRING: octets, of which the last may hold unused bits.
#[derive(Clone, Copy, Debug, PartialEq, Eq, Hash)]
pub struct BitString<'a> {
    data: &'a [u8],
    padding_bits: u8,
}

/// What a bit string holds: the octets and the number of unused bits.
pub struct BitStringView {
    pub data: Seq<u8>,
    pub padding_bits: u8,
}

impl<'a> View for BitString<'a> {
    type V = BitStringView;

    closed spec fn view(&self) -> BitStringView {
        BitStringView { data: self.data@, padding_bits: self.padding_bits }
    }
}

impl<'a> DeepView for BitString<'a> {
    type V = BitStringView;

    open spec fn deep_view(&self) -> BitStringView {
        self@
    }
}

impl<'a> BitString<'a> {
    #[verifier::type_invariant]
    spec fn well_formed(self) -> bool {
        bit_string_ok(self.data@, self.padding_bits)
    }

    /// The bit string of the octets `data`, of which the last `padding_bits`
    /// bits are unused.
    pub fn new(data: &'a [u8], padding_bits: u8) -> (r: Option<BitString<'a>>)
        ensures
            bit_string_ok(data@, padding_bits) ==> (r matches Some(v) && v@ == (BitStringView {
                data: data@,
                padding_bits,
            })),
            !bit_string_ok(data@, padding_bits) ==> r.is_none(),
    {
        if padding_bits > 7 || (data.len() == 0 && padding_bits != 0) {
            return None;
        }
        if padding_bits > 0 && data[data.len() - 1] % padding_weight(padding_bits) != 0 {
            return None;
        }
        Some(BitString { data, padding_bits })
    }

    /// The octets. The unused bits of the last are clear.
    pub fn as_bytes(&self) -> (r: &'a [u8])
        ensures
            r@ == self@.data,
            bit_string_ok(self@.data, self@.padding_bits),
    {
        proof {
            use_type_invariant(self);
        }
        self.data
    }

    /// The number of unused bits, from 0 to 7.
    pub fn padding_bits(&self) -> (r: u8)
        ensures
            r == self@.padding_bits,
            r <= 7,
    {
        proof {
            use_type_invariant(self);
        }
        self.padding_bits
    }
}

/// Decoding the content of a BIT STRING: the number of unused bits, then
/// the octets.
pub open spec fn spec_parse_bit_string(data: Seq<u8>) -> Result<BitStringView, ParseError> {
    if data.len() == 0 {
        Err(ParseError::InvalidValue)
    } else if bit_string_ok(data.subrange(1, data.len() as int), data[0]) {
        Ok(BitStringView { data: data.subrange(1, data.len() as int), padding_bits: data[0] })
    } else {
        Err(ParseError::InvalidValue)
    }
}

/// The content octets of a BIT STRING: the number of unused bits, then
/// the octets.
pub open spec fn spec_bit_string_content(v: BitStringView) -> Seq<u8> {
    seq![v.padding_bits] + v.data
}

impl<'a> SimpleAsn1Readable<'a> for BitString<'a> {
    open spec fn spec_tag() -> Tag {
        spec_bit_string_tag()
    }

    open spec fn spec_parse_data(data: Seq<u8>) -> Result<BitStringView, ParseError> {
        spec_parse_bit_string(data)
    }

    fn tag() -> (r: Tag) {
        bit_string_tag()
    }

    fn parse_data(data: &'a [u8]) -> (r: Result<Self, ParseError>) {
        if data.len() == 0 {
            return Err(ParseError::InvalidValue);
        }
        let octets = vstd::slice::slice_subrange(data, 1, data.len());
        match BitString::new(octets, data[0]) {
            Some(v) => Ok(v),
            None => Err(ParseError::InvalidValue),
        }
    }
}

impl<'a> SimpleAsn1Writable for BitString<'a> {
    open spec fn spec_write_tag() -> Tag {
        spec_bit_string_tag()
    }

    open spec fn spec_content(v: BitStringView) -> Seq<u8> {
        spec_bit_string_content(v)
    }

    /// The content is put together here, with no call that can fail.
    open spec fn spec_content_owed(v: BitStringView) -> bool {
        true
    }

    fn write_tag() -> (r: Tag) {
        bit_string_tag()
    }

    fn write_data(&self) -> (r: Result<Vec<u8>, WriteError>) {
        let mut out: Vec<u8> = Vec::new();
        out.push(self.padding_bits);
        let octets = crate::primitive::copy_bytes(self.data);
        let out = join_bytes(out, octets);
        assert(out@ =~= spec_bit_string_content(self@));
        Ok(out)
    }
}

/// A bit string is decoded to what it was written from.
pub proof fn lemma_bit_string_round_trip(v: BitStringView)
    requires
        bit_string_ok(v.data, v.padding_bits),
    ensures
        spec_parse_bit_string(spec_bit_string_content(v)) == Ok::<BitStringView, ParseError>(v),
{
    let content = spec_bit_string_content(v);
    assert(content.subrange(1, content.len() as int) =~= v.data);
}

/// SubjectPublicKeyInfo: the algorithm of a key, and the key.
#[derive(Clone, Debug, PartialEq, Eq, Hash)]
pub struct SubjectPublicKeyInfo<'a> {
    pub algorithm: AlgorithmIdentifier<'a>,
    pub subject_public_key: BitString<'a>,
}

/// What a public key info holds.
pub struct SubjectPublicKeyInfoView {
    pub algorithm: AlgorithmView,
    pub subject_public_key: BitStringView,
}

impl<'a> DeepView for SubjectPublicKeyInfo<'a> {
    type V = SubjectPublicKeyInfoView;

    open spec fn deep_view(&self) -> SubjectPublicKeyInfoView {
        SubjectPublicKeyInfoView {
            algorithm: self.algorithm.deep_view(),
            subject_public_key: self.subject_public_key@,
        }
    }
}

/// Decoding the content of a public key info: an algorithm identifier, a
/// bit string, and nothing else.
pub open spec fn spec_parse_public_key_info(data: Seq<u8>) -> Result<SubjectPublicKeyInfoView, ParseError> {
    match spec_read_algorithm_identifier(data) {
        Err(e) => Err(e),
        Ok(a) => match spec_parse_simple(spec_bit_string_tag(), a.1) {
            Err(e) => Err(e),
            Ok(k) => match spec_parse_bit_string(k.0) {
                Err(e) => Err(e),
                Ok(key) => match spec_finish(k.1) {
                    Err(e) => Err(e),
                    Ok(_) => Ok(SubjectPublicKeyInfoView { algorithm: a.0, subject_public_key: key }),
                },
            },
        },
    }
}

/// The content octets of a public key info.
pub open spec fn spec_public_key_info_content(v: SubjectPublicKeyInfoView) -> Seq<u8> {
    spec_algorithm_encoding(v.algorithm) + element(
        spec_bit_string_tag(),
        spec_bit_string_content(v.subject_public_key),
    )
}

impl<'a> SimpleAsn1Readable<'a> for SubjectPublicKeyInfo<'a> {
    open spec fn spec_tag() -> Tag {
        spec_sequence_tag()
    }

    open spec fn spec_parse_data(data: Seq<u8>) -> Result<SubjectPublicKeyInfoView, ParseError> {
        spec_parse_public_key_info(data)
    }

    fn tag() -> (r: Tag) {
        sequence_tag()
    }

    fn parse_data(data: &'a [u8]) -> (r: Result<Self, ParseError>) {
        let (algorithm, rest) = read_algorithm_identifier(data)?;
        let (content, rest) = read_tagged(bit_string_tag(), rest)?;
        let subject_public_key = BitString::parse_data(content)?;
        if rest.len() != 0 {
            return Err(ParseError::ExtraData);
        }
        Ok(SubjectPublicKeyInfo { algorithm, subject_public_key })
    }
}

impl<'a> SimpleAsn1Writable for SubjectPublicKeyInfo<'a> {
    open spec fn spec_write_tag() -> Tag {
        spec_sequence_tag()
    }

    open spec fn spec_content(v: SubjectPublicKeyInfoView) -> Seq<u8> {
        spec_public_key_info_content(v)
    }

    /// The elements of the content are framed by `asn1`, whatever the value.
    open spec fn spec_content_owed(v: SubjectPublicKeyInfoView) -> bool {
        false
    }

    fn write_tag() -> (r: Tag) {
        sequence_tag()
    }

    fn write_data(&self) -> (r: Result<Vec<u8>, WriteError>) {
        join_written(write_algorithm_identifier(&self.algorithm), self.subject_public_key.write())
    }
}

/// AttributeTypeAndValue: the identifier of an attribute, and its value as
/// it was found.
#[derive(Clone, Copy, Debug, PartialEq, Eq, Hash)]
pub struct AttributeTypeValue<'a> {
    pub type_id: ObjectIdentifier<'a>,
    pub value: RawTlv<'a>,
}

/// What an attribute holds.
pub struct AttributeTypeValueView {
    pub type_id: Seq<u8>,
    pub value: TlvView,
}

impl<'a> DeepView for AttributeTypeValue<'a> {
    type V = AttributeTypeValueView;

    open spec fn deep_view(&self) -> AttributeTypeValueView {
        AttributeTypeValueView { type_id: self.type_id@, value: self.value@ }
    }
}

/// Decoding the content of an attribute: an object identifier, any one
/// element, and nothing else.
pub open spec fn spec_parse_attribute(data: Seq<u8>) -> Result<AttributeTypeValueView, ParseError> {
    match spec_parse_simple(spec_oid_tag(), data) {
        Err(e) => Err(e),
        Ok(x) => match spec_parse_oid(x.0) {
            Err(e) => Err(e),
            Ok(type_id) => match spec_read_tlv(x.1) {
                Err(e) => Err(e),
                Ok(v) => match spec_finish(v.1) {
                    Err(e) => Err(e),
                    Ok(_) => Ok(AttributeTypeValueView { type_id, value: v.0 }),
                },
            },
        },
    }
}

/// The content octets of an attribute.
pub open spec fn spec_attribute_content(v: AttributeTypeValueView) -> Seq<u8> {
    element(spec_oid_tag(), v.type_id) + element(v.value.tag, v.value.data)
}

impl<'a> SimpleAsn1Readable<'a> for AttributeTypeValue<'a> {
    open spec fn spec_tag() -> Tag {
        spec_sequence_tag()
    }

    open spec fn spec_parse_data(data: Seq<u8>) -> Result<AttributeTypeValueView, ParseError> {
        spec_parse_attribute(data)
    }

    fn tag() -> (r: Tag) {
        sequence_tag()
    }

    fn parse_data(data: &'a [u8]) -> (r: Result<Self, ParseError>) {
        let (content, rest) = read_tagged(oid_tag(), data)?;
        let type_id = ObjectIdentifier::from_der(content)?;
        let (value, rest) = RawTlv::parse(rest)?;
        if rest.len() != 0 {
            return Err(ParseError::ExtraData);
        }
        Ok(AttributeTypeValue { type_id, value })
    }
}

impl<'a> SimpleAsn1Writable for AttributeTypeValue<'a> {
    open spec fn spec_write_tag() -> Tag {
        spec_sequence_tag()
    }

    open spec fn spec_content(v: AttributeTypeValueView) -> Seq<u8> {
        spec_attribute_content(v)
    }

    /// The elements of the content are framed by `asn1`, whatever the value.
    open spec fn spec_content_owed(v: AttributeTypeValueView) -> bool {
        false
    }

    fn write_tag() -> (r: Tag) {
        sequence_tag()
    }

    fn write_data(&self) -> (r: Result<Vec<u8>, WriteError>) {
        join_written(write_element(oid_tag(), self.type_id.as_der()), self.value.write())
    }
}

/// A public key info is decoded to what it was written from.
pub proof fn lemma_public_key_info_round_trip(v: SubjectPublicKeyInfoView)
    requires
        algorithm_valid(v.algorithm),
        bit_string_ok(v.subject_public_key.data, v.subject_public_key.padding_bits),
        spec_public_key_info_content(v).len() <= max_content_len(),
    ensures
        spec_parse_public_key_info(spec_public_key_info_content(v)) == Ok::<SubjectPublicKeyInfoView, ParseError>(v),
{
    let key = spec_bit_string_content(v.subject_public_key);
    let tail = element(spec_bit_string_tag(), key);
    lemma_algorithm_round_trip(v.algorithm, tail);
    assert(tail =~= tail + Seq::<u8>::empty());
    lemma_parse_simple_element(spec_bit_string_tag(), key, Seq::<u8>::empty());
    lemma_bit_string_round_trip(v.subject_public_key);
}

/// An attribute is decoded to what it was written from.
pub proof fn lemma_attribute_round_trip(v: AttributeTypeValueView)
    requires
        oid_accepted(v.type_id),
        spec_attribute_content(v).len() <= max_content_len(),
    ensures
        spec_parse_attribute(spec_attribute_content(v)) == Ok::<AttributeTypeValueView, ParseError>(v),
{
    let tail = element(v.value.tag, v.value.data);
    lemma_parse_simple_element(spec_oid_tag(), v.type_id, tail);
    lemma_oid_round_trip(v.type_id);
    assert(tail =~= tail + Seq::<u8>::empty());
    lemma_first_element(v.value.tag, v.value.data, Seq::<u8>::empty());
}

} // verus!
