//! Elements kept as they were found: a tag with raw content, and a typed
//! value together with the element it was read from.

use crate::codec::{parse_single, spec_parse_single, Asn1Readable, Asn1Writable};
use crate::der::{
    element, lemma_first_element, lemma_first_element_sound, max_content_len, read_tlv, spec_read_tlv, write_element,
    Tlv, TlvView,
};
use crate::error::{ParseError, WriteError};
use crate::tag::Tag;
use vstd::prelude::*;
use vstd::std_specs::cmp::{PartialEqSpec, PartialEqSpecImpl};

verus! {

/// A tag and content octets, not interpreted. Unlike a `Tlv` it can be made
/// from a tag and a content that were never encoded.
#[derive(Clone, Copy, Debug, PartialEq, Eq, Hash)]
pub struct RawTlv<'a> {
    tag: Tag,
    value: &'a [u8],
}

impl<'a> View for RawTlv<'a> {
    type V = TlvView;

    closed spec fn view(&self) -> TlvView {
        TlvView { tag: self.tag, data: self.value@ }
    }
}

impl<'a> DeepView for RawTlv<'a> {
    type V = TlvView;

    open spec fn deep_view(&self) -> TlvView {
        self@
    }
}

impl<'a> RawTlv<'a> {
    /// The element of the given tag and content.
    pub fn new(tag: Tag, value: &'a [u8]) -> (r: RawTlv<'a>)
        ensures
            r@ == (TlvView { tag, data: value@ }),
    {
        RawTlv { tag, value }
    }

    /// The tag.
    pub fn tag(&self) -> (r: Tag)
        ensures
            r == self@.tag,
    {
        self.tag
    }

    /// The content octets.
    pub fn data(&self) -> (r: &'a [u8])
        ensures
            r@ == self@.data,
    {
        self.value
    }
}

impl<'a> Asn1Readable<'a> for RawTlv<'a> {
    /// Every tag is taken.
    open spec fn spec_can_parse(tag: Tag) -> bool {
        true
    }

    open spec fn spec_parse(data: Seq<u8>) -> Result<(TlvView, Seq<u8>), ParseError> {
        spec_read_tlv(data)
    }

    fn can_parse(_tag: Tag) -> (r: bool) {
        true
    }

    fn parse(data: &'a [u8]) -> (r: Result<(Self, &'a [u8]), ParseError>) {
        match read_tlv(data) {
            Ok((tlv, rest)) => Ok((RawTlv::new(tlv.tag(), tlv.data()), rest)),
            Err(e) => Err(e),
        }
    }
}

impl<'a> Asn1Writable for RawTlv<'a> {
    open spec fn spec_encoding(v: TlvView) -> Seq<u8> {
        element(v.tag, v.data)
    }

    /// The element is framed by `asn1`, whatever the value.
    open spec fn spec_write_owed(v: TlvView) -> bool {
        false
    }

    fn write(&self) -> (r: Result<Vec<u8>, WriteError>) {
        write_element(self.tag, self.value)
    }
}

/// What is read as a raw element is written back as the octets it was read
/// from.
pub proof fn lemma_raw_tlv_decode_encode(data: Seq<u8>)
    ensures
        spec_read_tlv(data) matches Ok(x) ==> element(x.0.tag, x.0.data) + x.1 == data,
{
    lemma_first_element_sound(data);
}

/// A raw element is read back from what it is written as, whatever follows
/// it.
pub proof fn lemma_raw_tlv_encode_decode(v: TlvView, rest: Seq<u8>)
    requires
        v.data.len() <= max_content_len(),
    ensures
        spec_read_tlv(element(v.tag, v.data) + rest) == Ok::<(TlvView, Seq<u8>), ParseError>((v, rest)),
{
    lemma_first_element(v.tag, v.data, rest);
}

/// What a `WithTlv` holds: the element as it was read, and the value.
pub struct WithTlvView<V> {
    pub tlv: TlvView,
    pub value: V,
}

/// A typed value together with the element it was read from.
#[derive(Clone, Debug)]
pub struct WithTlv<'a, T> {
    tlv: Tlv<'a>,
    value: T,
}

impl<'a, T: DeepView> DeepView for WithTlv<'a, T> {
    type V = WithTlvView<T::V>;

    closed spec fn deep_view(&self) -> WithTlvView<T::V> {
        WithTlvView { tlv: self.tlv@, value: self.value.deep_view() }
    }
}

impl<'a, T> WithTlv<'a, T> {
    /// The value, as a specification sees it.
    pub closed spec fn spec_value(&self) -> T {
        self.value
    }

    /// The element that the value was read from.
    pub closed spec fn spec_tlv(&self) -> TlvView {
        self.tlv@
    }

    /// The element that the value was read from.
    pub fn tlv(&self) -> (r: &Tlv<'a>)
        ensures
            r@ == self.spec_tlv(),
    {
        &self.tlv
    }

    /// The value.
    pub fn value(&self) -> (r: &T)
        ensures
            *r == self.spec_value(),
    {
        &self.value
    }
}

/// Reading a value together with its element: the element is read, and its
/// octets are decoded as one value of the type.
pub open spec fn spec_parse_with_tlv<'a, T: Asn1Readable<'a>>(data: Seq<u8>) -> Result<
    (WithTlvView<T::V>, Seq<u8>),
    ParseError,
> {
    match spec_read_tlv(data) {
        Err(e) => Err(e),
        Ok(x) => match spec_parse_single::<T>(element(x.0.tag, x.0.data)) {
            Err(e) => Err(e),
            Ok(v) => Ok((WithTlvView { tlv: x.0, value: v }, x.1)),
        },
    }
}

impl<'a, T: Asn1Readable<'a>> Asn1Readable<'a> for WithTlv<'a, T> {
    /// The tags of the wrapped type are taken, and no others.
    open spec fn spec_can_parse(tag: Tag) -> bool {
        T::spec_can_parse(tag)
    }

    open spec fn spec_parse(data: Seq<u8>) -> Result<(WithTlvView<T::V>, Seq<u8>), ParseError> {
        spec_parse_with_tlv::<T>(data)
    }

    fn can_parse(tag: Tag) -> (r: bool) {
        T::can_parse(tag)
    }

    fn parse(data: &'a [u8]) -> (r: Result<(Self, &'a [u8]), ParseError>) {
        match read_tlv(data) {
            Ok((tlv, rest)) => match parse_single::<T>(tlv.full_data()) {
                Ok(value) => Ok((WithTlv { tlv, value }, rest)),
                Err(e) => Err(e),
            },
            Err(e) => Err(e),
        }
    }
}

impl<'a, T: Asn1Writable> Asn1Writable for WithTlv<'a, T> {
    /// The value is written; the element it was read from is not looked at.
    open spec fn spec_encoding(v: WithTlvView<T::V>) -> Seq<u8> {
        T::spec_encoding(v.value)
    }

    /// The value is written where the wrapped type writes it.
    open spec fn spec_write_owed(v: WithTlvView<T::V>) -> bool {
        T::spec_write_owed(v.value)
    }

    fn write(&self) -> (r: Result<Vec<u8>, WriteError>) {
        self.value.write()
    }
}

impl<'a, T: PartialEq> PartialEq for WithTlv<'a, T> {
    fn eq(&self, other: &Self) -> (r: bool) {
        self.value == other.value
    }
}

impl<'a, T: PartialEq> PartialEqSpecImpl for WithTlv<'a, T> {
    open spec fn obeys_eq_spec() -> bool {
        T::obeys_eq_spec()
    }

    /// Two wrapped values are equal where the values are: the elements they
    /// were read from are not compared.
    open spec fn eq_spec(&self, other: &Self) -> bool {
        self.spec_value().eq_spec(&other.spec_value())
    }
}

impl<'a, T: Eq> Eq for WithTlv<'a, T> {

}

impl<'a, T> std::ops::Deref for WithTlv<'a, T> {
    type Target = T;

    fn deref(&self) -> (r: &T)
        ensures
            *r == self.spec_value(),
    {
        &self.value
    }
}

impl<'a, T: std::hash::Hash> std::hash::Hash for WithTlv<'a, T> {
    /// Calls `std::hash::Hash::hash` on the value alone: the element it was
    /// read from is not hashed.
    #[verifier::external_body]
    fn hash<H: std::hash::Hasher>(&self, state: &mut H) {
        self.value.hash(state)
    }
}

/// The wrapper takes exactly the tags that the wrapped type takes.
pub proof fn lemma_with_tlv_can_parse<'a, T: Asn1Readable<'a>>(tag: Tag)
    ensures
        <WithTlv<'a, T> as Asn1Readable<'a>>::spec_can_parse(tag) == T::spec_can_parse(tag),
{
}

/// Two wrapped values compare as their values do, whatever elements they
/// were read from.
pub proof fn lemma_with_tlv_eq<'a, T: PartialEq>(a: WithTlv<'a, T>, b: WithTlv<'a, T>)
    ensures
        PartialEqSpec::eq_spec(&a, &b) == PartialEqSpec::eq_spec(&a.spec_value(), &b.spec_value()),
{
}

} // verus!
