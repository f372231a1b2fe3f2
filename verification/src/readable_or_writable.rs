//! A value that was read as one type or is to be written as another.

use crate::codec::{SimpleAsn1Readable, SimpleAsn1Writable};
use crate::error::{ParseError, WriteError};
use crate::tag::Tag;
use vstd::prelude::*;

verus! {

/// Either a value that was read, of type `T`, or a value to be written, of
/// type `U`.
#[derive(Clone, Debug, PartialEq, Eq, Hash)]
pub enum Asn1ReadableOrWritable<T, U> {
    Read(T),
    Write(U),
}

impl<T: DeepView, U: DeepView> DeepView for Asn1ReadableOrWritable<T, U> {
    type V = Asn1ReadableOrWritable<T::V, U::V>;

    open spec fn deep_view(&self) -> Asn1ReadableOrWritable<T::V, U::V> {
        match self {
            Asn1ReadableOrWritable::Read(v) => Asn1ReadableOrWritable::Read(v.deep_view()),
            Asn1ReadableOrWritable::Write(v) => Asn1ReadableOrWritable::Write(v.deep_view()),
        }
    }
}

impl<T, U> Asn1ReadableOrWritable<T, U> {
    /// A value that was read.
    pub fn new_read(v: T) -> (r: Self)
        ensures
            r == Asn1ReadableOrWritable::<T, U>::Read(v),
    {
        Asn1ReadableOrWritable::Read(v)
    }

    /// A value to be written.
    pub fn new_write(v: U) -> (r: Self)
        ensures
            r == Asn1ReadableOrWritable::<T, U>::Write(v),
    {
        Asn1ReadableOrWritable::Write(v)
    }

    /// The value that was read. Only a value that was read has one.
    pub fn unwrap_read(&self) -> (r: &T)
        requires
            self is Read,
        ensures
            *self == Asn1ReadableOrWritable::<T, U>::Read(*r),
    {
        match self {
            Asn1ReadableOrWritable::Read(v) => v,
            Asn1ReadableOrWritable::Write(_) => vstd::pervasive::unreached(),
        }
    }
}

impl<'a, T: SimpleAsn1Readable<'a>, U: DeepView> SimpleAsn1Readable<'a> for Asn1ReadableOrWritable<T, U> {
    /// It is read under the tag of the type that is read.
    open spec fn spec_tag() -> Tag {
        T::spec_tag()
    }

    open spec fn spec_parse_data(data: Seq<u8>) -> Result<Asn1ReadableOrWritable<T::V, U::V>, ParseError> {
        match T::spec_parse_data(data) {
            Ok(v) => Ok(Asn1ReadableOrWritable::Read(v)),
            Err(e) => Err(e),
        }
    }

    fn tag() -> (r: Tag) {
        T::tag()
    }

    fn parse_data(data: &'a [u8]) -> (r: Result<Self, ParseError>) {
        match T::parse_data(data) {
            Ok(v) => Ok(Asn1ReadableOrWritable::new_read(v)),
            Err(e) => Err(e),
        }
    }
}

impl<T: SimpleAsn1Writable, U: SimpleAsn1Writable> SimpleAsn1Writable for Asn1ReadableOrWritable<T, U> {
    /// It is written under the tag of the type that is written.
    open spec fn spec_write_tag() -> Tag {
        U::spec_write_tag()
    }

    open spec fn spec_content(v: Asn1ReadableOrWritable<T::V, U::V>) -> Seq<u8> {
        match v {
            Asn1ReadableOrWritable::Read(x) => T::spec_content(x),
            Asn1ReadableOrWritable::Write(x) => U::spec_content(x),
        }
    }

    /// The content is written where the type of the value that is held
    /// writes it.
    open spec fn spec_content_owed(v: Asn1ReadableOrWritable<T::V, U::V>) -> bool {
        match v {
            Asn1ReadableOrWritable::Read(x) => T::spec_content_owed(x),
            Asn1ReadableOrWritable::Write(x) => U::spec_content_owed(x),
        }
    }

    fn write_tag() -> (r: Tag) {
        U::write_tag()
    }

    fn write_data(&self) -> (r: Result<Vec<u8>, WriteError>) {
        match self {
            Asn1ReadableOrWritable::Read(v) => v.write_data(),
            Asn1ReadableOrWritable::Write(v) => v.write_data(),
        }
    }
}

} // verus!
