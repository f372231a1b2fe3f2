//! What it is to be read from and written to DER, and the entry points for
//! whole byte strings.

use crate::der::{
    element, lemma_first_element, lemma_first_element_sound, max_content_len, peek_tag, read_tlv, spec_peek_tag,
    spec_read_element, spec_read_tlv, write_element, write_framed, Tlv, TlvView,
};
use crate::error::{ParseError, WriteError};
use crate::tag::Tag;
use vstd::prelude::*;

verus! {

/// An exec result of reading off the front of a byte string, as models.
pub open spec fn read_view<T: DeepView>(r: Result<(T, &[u8]), ParseError>) -> Result<(T::V, Seq<u8>), ParseError> {
    match r {
        Ok(x) => Ok((x.0.deep_view(), x.1@)),
        Err(e) => Err(e),
    }
}

/// An exec result of decoding, as a model.
pub open spec fn data_view<T: DeepView>(r: Result<T, ParseError>) -> Result<T::V, ParseError> {
    match r {
        Ok(x) => Ok(x.deep_view()),
        Err(e) => Err(e),
    }
}

/// A type whose values are read off the front of a byte string.
pub trait Asn1Readable<'a>: Sized + DeepView {
    /// Whether an element with this tag is read as a value of the type.
    spec fn spec_can_parse(tag: Tag) -> bool;

    /// The value that `data` begins with and what follows it, or the error.
    spec fn spec_parse(data: Seq<u8>) -> Result<(Self::V, Seq<u8>), ParseError>;

    fn can_parse(tag: Tag) -> (r: bool)
        ensures
            r == Self::spec_can_parse(tag),
    ;

    fn parse(data: &'a [u8]) -> (r: Result<(Self, &'a [u8]), ParseError>)
        ensures
            read_view(r) == Self::spec_parse(data@),
            r matches Ok(x) ==> x.1@.len() <= data@.len(),
    ;
}

/// A type whose values are the content of an element with one fixed tag.
pub trait SimpleAsn1Readable<'a>: Sized + DeepView {
    /// The tag of the type.
    spec fn spec_tag() -> Tag;

    /// The value that the content octets `data` stand for, or the error.
    spec fn spec_parse_data(data: Seq<u8>) -> Result<Self::V, ParseError>;

    fn tag() -> (r: Tag)
        ensures
            r == Self::spec_tag(),
    ;

    fn parse_data(data: &'a [u8]) -> (r: Result<Self, ParseError>)
        ensures
            data_view(r) == Self::spec_parse_data(data@),
    ;
}

/// Reading a value of a type with a fixed tag: the element is read, its tag
/// is held against the type's, and its content is decoded.
pub open spec fn spec_parse_simple(
    tag: Tag,
    data: Seq<u8>,
) -> Result<(Seq<u8>, Seq<u8>), ParseError> {
    match spec_read_element(data) {
        Err(e) => Err(e),
        Ok(x) => if x.0 != tag {
            Err(ParseError::UnexpectedTag { actual: x.0 })
        } else {
            Ok((x.1, x.2))
        },
    }
}

/// Reads the element that `data` begins with, if its tag is `tag`, and
/// returns its content with the octets that follow the element.
pub fn read_tagged<'a>(tag: Tag, data: &'a [u8]) -> (r: Result<(&'a [u8], &'a [u8]), ParseError>)
    ensures
        r matches Ok(x) ==> spec_parse_simple(tag, data@) == Ok::<_, ParseError>((x.0@, x.1@)) && x.0@.len()
            + x.1@.len() < data@.len(),
        r matches Err(e) ==> spec_parse_simple(tag, data@) == Err::<(Seq<u8>, Seq<u8>), _>(e),
{
    match read_tlv(data) {
        Ok((tlv, rest)) => {
            if tlv.tag() != tag {
                Err(ParseError::UnexpectedTag { actual: tlv.tag() })
            } else {
                Ok((tlv.data(), rest))
            }
        },
        Err(e) => Err(e),
    }
}

/// What `spec_parse_simple` finds is an element of that tag at the front of
/// the input, and both its content and what follows are shorter than the
/// input.
pub proof fn lemma_parse_simple_sound(tag: Tag, data: Seq<u8>)
    ensures
        spec_parse_simple(tag, data) matches Ok(x) ==> {
            &&& data == element(tag, x.0) + x.1
            &&& x.0.len() + x.1.len() < data.len()
            &&& x.0.len() <= max_content_len()
            &&& spec_peek_tag(data) == Some(tag)
        },
{
    lemma_first_element_sound(data);
}

/// An element is read back from its octets, whatever follows them.
pub proof fn lemma_parse_simple_element(tag: Tag, content: Seq<u8>, rest: Seq<u8>)
    requires
        content.len() <= max_content_len(),
    ensures
        spec_parse_simple(tag, element(tag, content) + rest) == Ok::<(Seq<u8>, Seq<u8>), ParseError>((content, rest)),
        spec_peek_tag(element(tag, content) + rest) == Some(tag),
{
    lemma_first_element(tag, content, rest);
}

/// Reading an element that may be absent: where the input begins with
/// `tag`, the element is read and its content returned; else nothing is
/// read.
pub open spec fn spec_read_optional(tag: Tag, data: Seq<u8>) -> Result<(Option<Seq<u8>>, Seq<u8>), ParseError> {
    match spec_peek_tag(data) {
        Some(t) => if t == tag {
            match spec_parse_simple(tag, data) {
                Ok(x) => Ok((Some(x.0), x.1)),
                Err(e) => Err(e),
            }
        } else {
            Ok((None, data))
        },
        None => Ok((None, data)),
    }
}

/// The exec result of `read_optional`, as byte strings.
pub open spec fn optional_view(r: Result<(Option<&[u8]>, &[u8]), ParseError>) -> Result<
    (Option<Seq<u8>>, Seq<u8>),
    ParseError,
> {
    match r {
        Ok(x) => Ok(
            (
                match x.0 {
                    Some(c) => Some(c@),
                    None => None,
                },
                x.1@,
            ),
        ),
        Err(e) => Err(e),
    }
}

/// Reads the element that `data` begins with if its tag is `tag`, and
/// returns its content; reads nothing if `data` begins otherwise.
pub fn read_optional<'a>(tag: Tag, data: &'a [u8]) -> (r: Result<(Option<&'a [u8]>, &'a [u8]), ParseError>)
    ensures
        optional_view(r) == spec_read_optional(tag, data@),
        r matches Ok(x) ==> x.1@.len() <= data@.len() && (x.0 matches Some(c) ==> c@.len() + x.1@.len() < data@.len()),
{
    match peek_tag(data) {
        Some(t) => {
            if t == tag {
                match read_tagged(tag, data) {
                    Ok((content, rest)) => Ok((Some(content), rest)),
                    Err(e) => Err(e),
                }
            } else {
                Ok((None, data))
            }
        },
        None => Ok((None, data)),
    }
}

/// The check that nothing is left over.
pub open spec fn spec_finish(rest: Seq<u8>) -> Result<(), ParseError> {
    if rest.len() != 0 {
        Err(ParseError::ExtraData)
    } else {
        Ok(())
    }
}

impl<'a, T: SimpleAsn1Readable<'a>> Asn1Readable<'a> for T {
    open spec fn spec_can_parse(tag: Tag) -> bool {
        tag == T::spec_tag()
    }

    open spec fn spec_parse(data: Seq<u8>) -> Result<(T::V, Seq<u8>), ParseError> {
        match spec_parse_simple(T::spec_tag(), data) {
            Err(e) => Err(e),
            Ok(x) => match T::spec_parse_data(x.0) {
                Ok(v) => Ok((v, x.1)),
                Err(e) => Err(e),
            },
        }
    }

    fn can_parse(tag: Tag) -> (r: bool) {
        tag == T::tag()
    }

    fn parse(data: &'a [u8]) -> (r: Result<(Self, &'a [u8]), ParseError>) {
        match read_tagged(T::tag(), data) {
            Ok((content, rest)) => match T::parse_data(content) {
                Ok(v) => Ok((v, rest)),
                Err(e) => Err(e),
            },
            Err(e) => Err(e),
        }
    }
}

impl<'a> Asn1Readable<'a> for Tlv<'a> {
    open spec fn spec_can_parse(tag: Tag) -> bool {
        true
    }

    open spec fn spec_parse(data: Seq<u8>) -> Result<(TlvView, Seq<u8>), ParseError> {
        spec_read_tlv(data)
    }

    fn can_parse(tag: Tag) -> (r: bool) {
        true
    }

    fn parse(data: &'a [u8]) -> (r: Result<(Self, &'a [u8]), ParseError>) {
        read_tlv(data)
    }
}

impl<'a, T: Asn1Readable<'a>> Asn1Readable<'a> for Option<T> {
    open spec fn spec_can_parse(tag: Tag) -> bool {
        T::spec_can_parse(tag)
    }

    open spec fn spec_parse(data: Seq<u8>) -> Result<(Option<T::V>, Seq<u8>), ParseError> {
        match spec_peek_tag(data) {
            Some(tag) => if T::spec_can_parse(tag) {
                match T::spec_parse(data) {
                    Ok(x) => Ok((Some(x.0), x.1)),
                    Err(e) => Err(e),
                }
            } else {
                Ok((None, data))
            },
            None => Ok((None, data)),
        }
    }

    fn can_parse(tag: Tag) -> (r: bool) {
        T::can_parse(tag)
    }

    fn parse(data: &'a [u8]) -> (r: Result<(Self, &'a [u8]), ParseError>) {
        match peek_tag(data) {
            Some(tag) => {
                if T::can_parse(tag) {
                    match T::parse(data) {
                        Ok((v, rest)) => Ok((Some(v), rest)),
                        Err(e) => Err(e),
                    }
                } else {
                    Ok((None, data))
                }
            },
            None => Ok((None, data)),
        }
    }
}

/// A type whose values are written as DER.
pub trait Asn1Writable: Sized + DeepView {
    /// The octets that stand for the value.
    spec fn spec_encoding(v: Self::V) -> Seq<u8>;

    /// Whether the value is written without a call that can fail. Such a
    /// value is always written.
    spec fn spec_write_owed(v: Self::V) -> bool;

    fn write(&self) -> (r: Result<Vec<u8>, WriteError>)
        ensures
            r matches Ok(b) ==> b@ == Self::spec_encoding(self.deep_view()),
            Self::spec_write_owed(self.deep_view()) ==> r is Ok,
    ;
}

/// A type whose values are written as the content of an element with one
/// fixed tag.
pub trait SimpleAsn1Writable: Sized + DeepView {
    /// The tag under which the type is written.
    spec fn spec_write_tag() -> Tag;

    /// The content octets that stand for the value.
    spec fn spec_content(v: Self::V) -> Seq<u8>;

    /// Whether the content of the value is written without a call that can
    /// fail. Such a content is always written.
    spec fn spec_content_owed(v: Self::V) -> bool;

    fn write_tag() -> (r: Tag)
        ensures
            r == Self::spec_write_tag(),
    ;

    fn write_data(&self) -> (r: Result<Vec<u8>, WriteError>)
        ensures
            r matches Ok(b) ==> b@ == Self::spec_content(self.deep_view()),
            Self::spec_content_owed(self.deep_view()) ==> r is Ok,
    ;
}

impl<T: SimpleAsn1Writable> Asn1Writable for T {
    open spec fn spec_encoding(v: T::V) -> Seq<u8> {
        element(T::spec_write_tag(), T::spec_content(v))
    }

    /// The element is framed by `asn1`, whatever the value.
    open spec fn spec_write_owed(v: T::V) -> bool {
        false
    }

    fn write(&self) -> (r: Result<Vec<u8>, WriteError>) {
        write_framed(T::write_tag(), self.write_data())
    }
}

impl<'a> Asn1Writable for Tlv<'a> {
    open spec fn spec_encoding(v: TlvView) -> Seq<u8> {
        element(v.tag, v.data)
    }

    /// The element is framed by `asn1`, whatever the value.
    open spec fn spec_write_owed(v: TlvView) -> bool {
        false
    }

    fn write(&self) -> (r: Result<Vec<u8>, WriteError>) {
        write_element(self.tag(), self.data())
    }
}

impl<T: Asn1Writable> Asn1Writable for Option<T> {
    open spec fn spec_encoding(v: Option<T::V>) -> Seq<u8> {
        match v {
            Some(x) => T::spec_encoding(x),
            None => Seq::empty(),
        }
    }

    /// Nothing is written for a value that is absent, and nothing is called.
    open spec fn spec_write_owed(v: Option<T::V>) -> bool {
        match v {
            Some(x) => T::spec_write_owed(x),
            None => true,
        }
    }

    fn write(&self) -> (r: Result<Vec<u8>, WriteError>) {
        match self {
            Some(v) => v.write(),
            None => Ok(Vec::new()),
        }
    }
}

/// Decoding a byte string that holds one value and nothing else.
pub open spec fn spec_parse_single<'a, T: Asn1Readable<'a>>(data: Seq<u8>) -> Result<T::V, ParseError> {
    match T::spec_parse(data) {
        Err(e) => Err(e),
        Ok(x) => if x.1.len() != 0 {
            Err(ParseError::ExtraData)
        } else {
            Ok(x.0)
        },
    }
}

/// Decodes `data` as one value of `T`; octets left over are an error.
pub fn parse_single<'a, T: Asn1Readable<'a>>(data: &'a [u8]) -> (r: Result<T, ParseError>)
    ensures
        data_view(r) == spec_parse_single::<T>(data@),
{
    match T::parse(data) {
        Ok((v, rest)) => {
            if rest.len() != 0 {
                Err(ParseError::ExtraData)
            } else {
                Ok(v)
            }
        },
        Err(e) => Err(e),
    }
}

/// Encodes one value.
pub fn write_single<T: Asn1Writable>(v: &T) -> (r: Result<Vec<u8>, WriteError>)
    ensures
        r matches Ok(b) ==> b@ == T::spec_encoding(v.deep_view()),
        T::spec_write_owed(v.deep_view()) ==> r is Ok,
{
    v.write()
}

} // verus!
