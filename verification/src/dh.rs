//! Parameter and signature structures of DSA and Diffie-Hellman: sequences
//! of unsigned integers.

use crate::codec::{
    lemma_parse_simple_element, lemma_parse_simple_sound, read_optional, spec_finish, spec_parse_simple,
    spec_read_optional, Asn1Readable, Asn1Writable, SimpleAsn1Readable, SimpleAsn1Writable,
};
use crate::der::{element, join_written, lemma_first_tag_sound, max_content_len, spec_peek_tag, write_element};
use crate::error::{ParseError, WriteError};
use crate::primitive::{
    integer_content_ok, integer_tag, lemma_uint_round_trip, sequence_tag, spec_integer_tag, spec_parse_uint,
    spec_sequence_tag, uint_content, BigUint, Sequence,
};
use crate::tag::Tag;
use vstd::prelude::*;

verus! {

/// Reading one unsigned integer of any size off the front of `data`.
pub open spec fn spec_read_biguint(data: Seq<u8>) -> Result<(Seq<u8>, Seq<u8>), ParseError> {
    match spec_parse_simple(spec_integer_tag(), data) {
        Err(e) => Err(e),
        Ok(x) => if integer_content_ok(x.0) {
            Ok(x)
        } else {
            Err(ParseError::InvalidValue)
        },
    }
}

/// Reading an unsigned integer of any size that may be absent.
pub open spec fn spec_read_optional_biguint(data: Seq<u8>) -> Result<(Option<Seq<u8>>, Seq<u8>), ParseError> {
    match spec_read_optional(spec_integer_tag(), data) {
        Err(e) => Err(e),
        Ok(x) => match x.0 {
            None => Ok(x),
            Some(c) => if integer_content_ok(c) {
                Ok(x)
            } else {
                Err(ParseError::InvalidValue)
            },
        },
    }
}

/// The octets of an element that may be absent.
pub open spec fn spec_optional_element(tag: Tag, content: Option<Seq<u8>>) -> Seq<u8> {
    match content {
        Some(c) => element(tag, c),
        None => Seq::empty(),
    }
}

/// Reads one unsigned integer of any size off the front of `data`.
pub fn read_biguint<'a>(data: &'a [u8]) -> (r: Result<(BigUint<'a>, &'a [u8]), ParseError>)
    ensures
        r matches Ok(x) ==> spec_read_biguint(data@) == Ok::<(Seq<u8>, Seq<u8>), ParseError>((x.0@, x.1@)) && x.1@.len()
            < data@.len(),
        r matches Err(e) ==> spec_read_biguint(data@) == Err::<(Seq<u8>, Seq<u8>), ParseError>(e),
{
    let r = BigUint::parse(data);
    proof {
        lemma_parse_simple_sound(spec_integer_tag(), data@);
    }
    r
}

/// Reads an unsigned integer of any size that may be absent.
pub fn read_optional_biguint<'a>(data: &'a [u8]) -> (r: Result<(Option<BigUint<'a>>, &'a [u8]), ParseError>)
    ensures
        r matches Ok(x) ==> spec_read_optional_biguint(data@) == Ok::<(Option<Seq<u8>>, Seq<u8>), ParseError>(
            (x.0.deep_view(), x.1@),
        ) && x.1@.len() <= data@.len(),
        r matches Err(e) ==> spec_read_optional_biguint(data@) == Err::<(Option<Seq<u8>>, Seq<u8>), ParseError>(e),
{
    let (content, rest) = read_optional(integer_tag(), data)?;
    match content {
        None => Ok((None, rest)),
        Some(c) => match BigUint::new(c) {
            Some(v) => Ok((Some(v), rest)),
            None => Err(ParseError::InvalidValue),
        },
    }
}

/// Writes an unsigned integer of any size that may be absent. One that is
/// absent is written as nothing, with no call that can fail.
pub fn write_optional_biguint(v: &Option<BigUint>) -> (r: Result<Vec<u8>, WriteError>)
    ensures
        r matches Ok(b) ==> b@ == spec_optional_element(spec_integer_tag(), v.deep_view()),
        v matches Some(x) ==> integer_content_ok(x@),
        v.is_none() ==> r is Ok,
{
    match v {
        Some(x) => write_element(integer_tag(), x.as_bytes()),
        None => Ok(Vec::new()),
    }
}

/// Nothing begins an empty byte string.
pub proof fn lemma_peek_empty()
    ensures
        spec_peek_tag(Seq::<u8>::empty()).is_none(),
{
    lemma_first_tag_sound(Seq::<u8>::empty());
}

/// An unsigned integer is read back from its element.
pub proof fn lemma_biguint_round_trip(v: Seq<u8>, rest: Seq<u8>)
    requires
        integer_content_ok(v),
        v.len() <= max_content_len(),
    ensures
        spec_read_biguint(element(spec_integer_tag(), v) + rest) == Ok::<(Seq<u8>, Seq<u8>), ParseError>((v, rest)),
{
    lemma_parse_simple_element(spec_integer_tag(), v, rest);
}

/// Dss-Parms: the prime, the subprime and the generator.
#[derive(Clone, Copy, Debug, PartialEq, Eq, Hash)]
pub struct DssParams<'a> {
    pub p: BigUint<'a>,
    pub q: BigUint<'a>,
    pub g: BigUint<'a>,
}

/// What Dss-Parms hold: the content octets of the three integers.
pub struct DssParamsView {
    pub p: Seq<u8>,
    pub q: Seq<u8>,
    pub g: Seq<u8>,
}

impl<'a> DeepView for DssParams<'a> {
    type V = DssParamsView;

    open spec fn deep_view(&self) -> DssParamsView {
        DssParamsView { p: self.p@, q: self.q@, g: self.g@ }
    }
}

impl DssParamsView {
    /// Each field is the content of a non-negative INTEGER.
    pub open spec fn valid(self) -> bool {
        integer_content_ok(self.p) && integer_content_ok(self.q) && integer_content_ok(self.g)
    }
}

/// Decoding the content of Dss-Parms: three integers and nothing else.
pub open spec fn spec_parse_dss_params(data: Seq<u8>) -> Result<DssParamsView, ParseError> {
    match spec_read_biguint(data) {
        Err(e) => Err(e),
        Ok(p) => match spec_read_biguint(p.1) {
            Err(e) => Err(e),
            Ok(q) => match spec_read_biguint(q.1) {
                Err(e) => Err(e),
                Ok(g) => match spec_finish(g.1) {
                    Err(e) => Err(e),
                    Ok(_) => Ok(DssParamsView { p: p.0, q: q.0, g: g.0 }),
                },
            },
        },
    }
}

/// The content octets of Dss-Parms.
pub open spec fn spec_dss_params_content(v: DssParamsView) -> Seq<u8> {
    element(spec_integer_tag(), v.p) + element(spec_integer_tag(), v.q) + element(spec_integer_tag(), v.g)
}

impl<'a> SimpleAsn1Readable<'a> for DssParams<'a> {
    open spec fn spec_tag() -> Tag {
        spec_sequence_tag()
    }

    open spec fn spec_parse_data(data: Seq<u8>) -> Result<DssParamsView, ParseError> {
        spec_parse_dss_params(data)
    }

    fn tag() -> (r: Tag) {
        sequence_tag()
    }

    fn parse_data(data: &'a [u8]) -> (r: Result<Self, ParseError>) {
        let (p, rest) = read_biguint(data)?;
        let (q, rest) = read_biguint(rest)?;
        let (g, rest) = read_biguint(rest)?;
        if rest.len() != 0 {
            return Err(ParseError::ExtraData);
        }
        Ok(DssParams { p, q, g })
    }
}

impl<'a> SimpleAsn1Writable for DssParams<'a> {
    open spec fn spec_write_tag() -> Tag {
        spec_sequence_tag()
    }

    open spec fn spec_content(v: DssParamsView) -> Seq<u8> {
        spec_dss_params_content(v)
    }

    /// The elements of the content are framed by `asn1`, whatever the value.
    open spec fn spec_content_owed(v: DssParamsView) -> bool {
        false
    }

    fn write_tag() -> (r: Tag) {
        sequence_tag()
    }

    fn write_data(&self) -> (r: Result<Vec<u8>, WriteError>) {
        join_written(join_written(self.p.write(), self.q.write()), self.g.write())
    }
}

/// Dss-Parms are read back from what they are written as.
pub proof fn lemma_dss_params_round_trip(v: DssParamsView)
    requires
        v.valid(),
        spec_dss_params_content(v).len() <= max_content_len(),
    ensures
        spec_parse_dss_params(spec_dss_params_content(v)) == Ok::<DssParamsView, ParseError>(v),
{
    let t = spec_integer_tag();
    let r2 = element(t, v.g);
    let r1 = element(t, v.q) + r2;
    assert(spec_dss_params_content(v) =~= element(t, v.p) + r1);
    lemma_biguint_round_trip(v.p, r1);
    lemma_biguint_round_trip(v.q, r2);
    assert(r2 =~= element(t, v.g) + Seq::<u8>::empty());
    lemma_biguint_round_trip(v.g, Seq::<u8>::empty());
}

/// A DSA signature: the two numbers `r` and `s`.
#[derive(Clone, Copy, Debug, PartialEq, Eq, Hash)]
pub struct DssSignature<'a> {
    pub r: BigUint<'a>,
    pub s: BigUint<'a>,
}

/// What a DSA signature holds.
pub struct DssSignatureView {
    pub r: Seq<u8>,
    pub s: Seq<u8>,
}

impl<'a> DeepView for DssSignature<'a> {
    type V = DssSignatureView;

    open spec fn deep_view(&self) -> DssSignatureView {
        DssSignatureView { r: self.r@, s: self.s@ }
    }
}

/// Decoding the content of a DSA signature: two integers and nothing else.
pub open spec fn spec_parse_dss_signature(data: Seq<u8>) -> Result<DssSignatureView, ParseError> {
    match spec_read_biguint(data) {
        Err(e) => Err(e),
        Ok(r) => match spec_read_biguint(r.1) {
            Err(e) => Err(e),
            Ok(s) => match spec_finish(s.1) {
                Err(e) => Err(e),
                Ok(_) => Ok(DssSignatureView { r: r.0, s: s.0 }),
            },
        },
    }
}

impl<'a> SimpleAsn1Readable<'a> for DssSignature<'a> {
    open spec fn spec_tag() -> Tag {
        spec_sequence_tag()
    }

    open spec fn spec_parse_data(data: Seq<u8>) -> Result<DssSignatureView, ParseError> {
        spec_parse_dss_signature(data)
    }

    fn tag() -> (r: Tag) {
        sequence_tag()
    }

    fn parse_data(data: &'a [u8]) -> (r: Result<Self, ParseError>) {
        let (r, rest) = read_biguint(data)?;
        let (s, rest) = read_biguint(rest)?;
        if rest.len() != 0 {
            return Err(ParseError::ExtraData);
        }
        Ok(DssSignature { r, s })
    }
}

impl<'a> SimpleAsn1Writable for DssSignature<'a> {
    open spec fn spec_write_tag() -> Tag {
        spec_sequence_tag()
    }

    open spec fn spec_content(v: DssSignatureView) -> Seq<u8> {
        element(spec_integer_tag(), v.r) + element(spec_integer_tag(), v.s)
    }

    /// The elements of the content are framed by `asn1`, whatever the value.
    open spec fn spec_content_owed(v: DssSignatureView) -> bool {
        false
    }

    fn write_tag() -> (r: Tag) {
        sequence_tag()
    }

    fn write_data(&self) -> (r: Result<Vec<u8>, WriteError>) {
        join_written(self.r.write(), self.s.write())
    }
}

/// Diffie-Hellman parameters: the prime, the generator, and the subprime
/// where it is given.
#[derive(Clone, Copy, Debug, PartialEq, Eq, Hash)]
pub struct DHParams<'a> {
    pub p: BigUint<'a>,
    pub g: BigUint<'a>,
    pub q: Option<BigUint<'a>>,
}

/// What Diffie-Hellman parameters hold.
pub struct DHParamsView {
    pub p: Seq<u8>,
    pub g: Seq<u8>,
    pub q: Option<Seq<u8>>,
}

impl<'a> DeepView for DHParams<'a> {
    type V = DHParamsView;

    open spec fn deep_view(&self) -> DHParamsView {
        DHParamsView { p: self.p@, g: self.g@, q: self.q.deep_view() }
    }
}

/// Decoding the content of Diffie-Hellman parameters: two integers, and a
/// third that may be absent.
pub open spec fn spec_parse_dh_params(data: Seq<u8>) -> Result<DHParamsView, ParseError> {
    match spec_read_biguint(data) {
        Err(e) => Err(e),
        Ok(p) => match spec_read_biguint(p.1) {
            Err(e) => Err(e),
            Ok(g) => match spec_read_optional_biguint(g.1) {
                Err(e) => Err(e),
                Ok(q) => match spec_finish(q.1) {
                    Err(e) => Err(e),
                    Ok(_) => Ok(DHParamsView { p: p.0, g: g.0, q: q.0 }),
                },
            },
        },
    }
}

impl<'a> SimpleAsn1Readable<'a> for DHParams<'a> {
    open spec fn spec_tag() -> Tag {
        spec_sequence_tag()
    }

    open spec fn spec_parse_data(data: Seq<u8>) -> Result<DHParamsView, ParseError> {
        spec_parse_dh_params(data)
    }

    fn tag() -> (r: Tag) {
        sequence_tag()
    }

    fn parse_data(data: &'a [u8]) -> (r: Result<Self, ParseError>) {
        let (p, rest) = read_biguint(data)?;
        let (g, rest) = read_biguint(rest)?;
        let (q, rest) = read_optional_biguint(rest)?;
        if rest.len() != 0 {
            return Err(ParseError::ExtraData);
        }
        Ok(DHParams { p, g, q })
    }
}

impl<'a> SimpleAsn1Writable for DHParams<'a> {
    open spec fn spec_write_tag() -> Tag {
        spec_sequence_tag()
    }

    open spec fn spec_content(v: DHParamsView) -> Seq<u8> {
        element(spec_integer_tag(), v.p) + element(spec_integer_tag(), v.g) + spec_optional_element(
            spec_integer_tag(),
            v.q,
        )
    }

    /// The elements of the content are framed by `asn1`, whatever the value.
    open spec fn spec_content_owed(v: DHParamsView) -> bool {
        false
    }

    fn write_tag() -> (r: Tag) {
        sequence_tag()
    }

    fn write_data(&self) -> (r: Result<Vec<u8>, WriteError>) {
        join_written(join_written(self.p.write(), self.g.write()), write_optional_biguint(&self.q))
    }
}

/// DHParameter of PKCS #3: the prime, the generator, and the length of the
/// private value where it is given.
#[derive(Clone, Copy, Debug, PartialEq, Eq, Hash)]
pub struct BasicDHParams<'a> {
    pub p: BigUint<'a>,
    pub g: BigUint<'a>,
    pub private_value_length: Option<u32>,
}

/// What PKCS #3 parameters hold.
pub struct BasicDHParamsView {
    pub p: Seq<u8>,
    pub g: Seq<u8>,
    pub private_value_length: Option<u32>,
}

impl<'a> DeepView for BasicDHParams<'a> {
    type V = BasicDHParamsView;

    open spec fn deep_view(&self) -> BasicDHParamsView {
        BasicDHParamsView { p: self.p@, g: self.g@, private_value_length: self.private_value_length }
    }
}

impl BasicDHParamsView {
    /// Each integer is the content of a non-negative INTEGER.
    pub open spec fn valid(self) -> bool {
        integer_content_ok(self.p) && integer_content_ok(self.g)
    }
}

/// Reading an unsigned 32-bit integer that may be absent.
pub open spec fn spec_read_optional_u32(data: Seq<u8>) -> Result<(Option<u32>, Seq<u8>), ParseError> {
    match spec_read_optional(spec_integer_tag(), data) {
        Err(e) => Err(e),
        Ok(x) => match x.0 {
            None => Ok((None, x.1)),
            Some(c) => match spec_parse_uint(c, 0xffff_ffff) {
                Ok(v) => Ok((Some(v as u32), x.1)),
                Err(e) => Err(e),
            },
        },
    }
}

/// Decoding the content of PKCS #3 parameters: two integers, and a length
/// that may be absent.
pub open spec fn spec_parse_basic_dh_params(data: Seq<u8>) -> Result<BasicDHParamsView, ParseError> {
    match spec_read_biguint(data) {
        Err(e) => Err(e),
        Ok(p) => match spec_read_biguint(p.1) {
            Err(e) => Err(e),
            Ok(g) => match spec_read_optional_u32(g.1) {
                Err(e) => Err(e),
                Ok(l) => match spec_finish(l.1) {
                    Err(e) => Err(e),
                    Ok(_) => Ok(BasicDHParamsView { p: p.0, g: g.0, private_value_length: l.0 }),
                },
            },
        },
    }
}

/// The content octets of an unsigned 32-bit integer that may be absent.
pub open spec fn spec_optional_u32(v: Option<u32>) -> Option<Seq<u8>> {
    match v {
        Some(x) => Some(uint_content(x as nat)),
        None => None,
    }
}

/// The content octets of PKCS #3 parameters.
pub open spec fn spec_basic_dh_params_content(v: BasicDHParamsView) -> Seq<u8> {
    element(spec_integer_tag(), v.p) + element(spec_integer_tag(), v.g) + spec_optional_element(
        spec_integer_tag(),
        spec_optional_u32(v.private_value_length),
    )
}

impl<'a> SimpleAsn1Readable<'a> for BasicDHParams<'a> {
    open spec fn spec_tag() -> Tag {
        spec_sequence_tag()
    }

    open spec fn spec_parse_data(data: Seq<u8>) -> Result<BasicDHParamsView, ParseError> {
        spec_parse_basic_dh_params(data)
    }

    fn tag() -> (r: Tag) {
        sequence_tag()
    }

    fn parse_data(data: &'a [u8]) -> (r: Result<Self, ParseError>) {
        let (p, rest) = read_biguint(data)?;
        let (g, rest) = read_biguint(rest)?;
        let (content, rest) = read_optional(integer_tag(), rest)?;
        let private_value_length = match content {
            None => None,
            Some(c) => Some(u32::parse_data(c)?),
        };
        if rest.len() != 0 {
            return Err(ParseError::ExtraData);
        }
        Ok(BasicDHParams { p, g, private_value_length })
    }
}

impl<'a> SimpleAsn1Writable for BasicDHParams<'a> {
    open spec fn spec_write_tag() -> Tag {
        spec_sequence_tag()
    }

    open spec fn spec_content(v: BasicDHParamsView) -> Seq<u8> {
        spec_basic_dh_params_content(v)
    }

    /// The elements of the content are framed by `asn1`, whatever the value.
    open spec fn spec_content_owed(v: BasicDHParamsView) -> bool {
        false
    }

    fn write_tag() -> (r: Tag) {
        sequence_tag()
    }

    fn write_data(&self) -> (r: Result<Vec<u8>, WriteError>) {
        join_written(join_written(self.p.write(), self.g.write()), self.private_value_length.write())
    }
}

/// PKCS #3 parameters are read back from what they are written as.
pub proof fn lemma_basic_dh_params_round_trip(v: BasicDHParamsView)
    requires
        v.valid(),
        spec_basic_dh_params_content(v).len() <= max_content_len(),
    ensures
        spec_parse_basic_dh_params(spec_basic_dh_params_content(v)) == Ok::<BasicDHParamsView, ParseError>(v),
{
    let t = spec_integer_tag();
    let r2 = spec_optional_element(t, spec_optional_u32(v.private_value_length));
    let r1 = element(t, v.g) + r2;
    assert(spec_basic_dh_params_content(v) =~= element(t, v.p) + r1);
    lemma_biguint_round_trip(v.p, r1);
    lemma_biguint_round_trip(v.g, r2);
    match v.private_value_length {
        Some(x) => {
            let c = uint_content(x as nat);
            assert(r2 =~= element(t, c) + Seq::<u8>::empty());
            lemma_parse_simple_element(t, c, Seq::<u8>::empty());
            lemma_uint_round_trip(x as nat, 0xffff_ffff);
        },
        None => {
            lemma_peek_empty();
        },
    }
}

/// DomainParameters of X9.42: the prime, the generator, the subprime, and
/// where given the subgroup factor and the validation parameters.
#[derive(Clone, Copy, Debug, PartialEq, Eq, Hash)]
pub struct DHXParams<'a> {
    pub p: BigUint<'a>,
    pub g: BigUint<'a>,
    pub q: BigUint<'a>,
    pub j: Option<BigUint<'a>>,
    pub validation_params: Option<Sequence<'a>>,
}

/// What X9.42 parameters hold.
pub struct DHXParamsView {
    pub p: Seq<u8>,
    pub g: Seq<u8>,
    pub q: Seq<u8>,
    pub j: Option<Seq<u8>>,
    pub validation_params: Option<Seq<u8>>,
}

impl<'a> DeepView for DHXParams<'a> {
    type V = DHXParamsView;

    open spec fn deep_view(&self) -> DHXParamsView {
        DHXParamsView {
            p: self.p@,
            g: self.g@,
            q: self.q@,
            j: self.j.deep_view(),
            validation_params: self.validation_params.deep_view(),
        }
    }
}

impl DHXParamsView {
    /// Each integer is the content of a non-negative INTEGER.
    pub open spec fn valid(self) -> bool {
        &&& integer_content_ok(self.p)
        &&& integer_content_ok(self.g)
        &&& integer_content_ok(self.q)
        &&& self.j matches Some(j) ==> integer_content_ok(j)
    }
}

/// Decoding the content of X9.42 parameters: three integers, a fourth that
/// may be absent, and validation parameters that may be absent.
pub open spec fn spec_parse_dhx_params(data: Seq<u8>) -> Result<DHXParamsView, ParseError> {
    match spec_read_biguint(data) {
        Err(e) => Err(e),
        Ok(p) => match spec_read_biguint(p.1) {
            Err(e) => Err(e),
            Ok(g) => match spec_read_biguint(g.1) {
                Err(e) => Err(e),
                Ok(q) => match spec_read_optional_biguint(q.1) {
                    Err(e) => Err(e),
                    Ok(j) => match spec_read_optional(spec_sequence_tag(), j.1) {
                        Err(e) => Err(e),
                        Ok(v) => match spec_finish(v.1) {
                            Err(e) => Err(e),
                            Ok(_) => Ok(
                                DHXParamsView { p: p.0, g: g.0, q: q.0, j: j.0, validation_params: v.0 },
                            ),
                        },
                    },
                },
            },
        },
    }
}

/// The content octets of X9.42 parameters.
pub open spec fn spec_dhx_params_content(v: DHXParamsView) -> Seq<u8> {
    element(spec_integer_tag(), v.p) + element(spec_integer_tag(), v.g) + element(spec_integer_tag(), v.q)
        + spec_optional_element(spec_integer_tag(), v.j) + spec_optional_element(
        spec_sequence_tag(),
        v.validation_params,
    )
}

impl<'a> SimpleAsn1Readable<'a> for DHXParams<'a> {
    open spec fn spec_tag() -> Tag {
        spec_sequence_tag()
    }

    open spec fn spec_parse_data(data: Seq<u8>) -> Result<DHXParamsView, ParseError> {
        spec_parse_dhx_params(data)
    }

    fn tag() -> (r: Tag) {
        sequence_tag()
    }

    fn parse_data(data: &'a [u8]) -> (r: Result<Self, ParseError>) {
        let (p, rest) = read_biguint(data)?;
        let (g, rest) = read_biguint(rest)?;
        let (q, rest) = read_biguint(rest)?;
        let (j, rest) = read_optional_biguint(rest)?;
        let (content, rest) = read_optional(sequence_tag(), rest)?;
        let validation_params = match content {
            None => None,
            Some(c) => Some(Sequence::new(c)),
        };
        if rest.len() != 0 {
            return Err(ParseError::ExtraData);
        }
        Ok(DHXParams { p, g, q, j, validation_params })
    }
}

impl<'a> SimpleAsn1Writable for DHXParams<'a> {
    open spec fn spec_write_tag() -> Tag {
        spec_sequence_tag()
    }

    open spec fn spec_content(v: DHXParamsView) -> Seq<u8> {
        spec_dhx_params_content(v)
    }

    /// The elements of the content are framed by `asn1`, whatever the value.
    open spec fn spec_content_owed(v: DHXParamsView) -> bool {
        false
    }

    fn write_tag() -> (r: Tag) {
        sequence_tag()
    }

    fn write_data(&self) -> (r: Result<Vec<u8>, WriteError>) {
        let integers = join_written(join_written(self.p.write(), self.g.write()), self.q.write());
        let optional = join_written(write_optional_biguint(&self.j), self.validation_params.write());
        join_written(integers, optional)
    }
}

/// X9.42 parameters are read back from what they are written as.
pub proof fn lemma_dhx_params_round_trip(v: DHXParamsView)
    requires
        v.valid(),
        spec_dhx_params_content(v).len() <= max_content_len(),
    ensures
        spec_parse_dhx_params(spec_dhx_params_content(v)) == Ok::<DHXParamsView, ParseError>(v),
{
    let t = spec_integer_tag();
    let s = spec_sequence_tag();
    let empty = Seq::<u8>::empty();
    let r4 = spec_optional_element(s, v.validation_params);
    let r3 = spec_optional_element(t, v.j) + r4;
    let r2 = element(t, v.q) + r3;
    let r1 = element(t, v.g) + r2;
    assert(spec_dhx_params_content(v) =~= element(t, v.p) + r1);
    lemma_biguint_round_trip(v.p, r1);
    lemma_biguint_round_trip(v.g, r2);
    lemma_biguint_round_trip(v.q, r3);
    lemma_peek_empty();
    match v.validation_params {
        Some(c) => {
            assert(r4 =~= element(s, c) + empty);
            lemma_parse_simple_element(s, c, empty);
        },
        None => {},
    }
    match v.j {
        Some(c) => {
            lemma_parse_simple_element(t, c, r4);
        },
        None => {
            assert(r3 =~= r4);
        },
    }
    assert(spec_read_optional_biguint(r3) == Ok::<(Option<Seq<u8>>, Seq<u8>), ParseError>((v.j, r4)));
    assert(spec_read_optional(s, r4) == Ok::<(Option<Seq<u8>>, Seq<u8>), ParseError>((v.validation_params, empty)));
}

} // verus!
