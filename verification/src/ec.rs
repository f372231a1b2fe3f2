//! The parameters of an elliptic-curve public key.

use crate::codec::{Asn1Readable, Asn1Writable};
use crate::der::{element, lemma_first_element, max_content_len, read_tlv, spec_read_element, write_element};
use crate::error::{ParseError, WriteError};
use crate::oid::{oid_accepted, spec_parse_oid, ObjectIdentifier};
use crate::primitive::{
    null_tag, oid_tag, sequence_tag, spec_null_tag, spec_oid_tag, spec_parse_null, spec_sequence_tag, Null, Sequence,
};
use crate::tag::Tag;
use vstd::prelude::*;

verus! {

/// ECParameters: a choice of a named curve, the implicit curve, or a curve
/// given by its domain parameters. Only the named curve is used in PKIX.
#[derive(Clone, Copy, Debug, PartialEq, Eq, Hash)]
pub enum EcParameters<'a> {
    NamedCurve(ObjectIdentifier<'a>),
    ImplicitCurve(Null),
    SpecifiedCurve(Sequence<'a>),
}

/// What the choice holds.
pub enum EcParametersView {
    NamedCurve(Seq<u8>),
    ImplicitCurve,
    SpecifiedCurve(Seq<u8>),
}

impl<'a> DeepView for EcParameters<'a> {
    type V = EcParametersView;

    open spec fn deep_view(&self) -> EcParametersView {
        match self {
            EcParameters::NamedCurve(oid) => EcParametersView::NamedCurve(oid@),
            EcParameters::ImplicitCurve(_) => EcParametersView::ImplicitCurve,
            EcParameters::SpecifiedCurve(s) => EcParametersView::SpecifiedCurve(s@),
        }
    }
}

impl EcParametersView {
    /// The identifier of a named curve is one that is held.
    pub open spec fn valid(self) -> bool {
        self matches EcParametersView::NamedCurve(oid) ==> oid_accepted(oid)
    }
}

/// The tags with which the choice can begin.
pub open spec fn spec_ec_can_parse(tag: Tag) -> bool {
    tag == spec_oid_tag() || tag == spec_null_tag() || tag == spec_sequence_tag()
}

/// Reading the choice off the front of `data`: the tag of the element tells
/// the variant.
pub open spec fn spec_read_ec_parameters(data: Seq<u8>) -> Result<(EcParametersView, Seq<u8>), ParseError> {
    match spec_read_element(data) {
        Err(e) => Err(e),
        Ok(x) => if x.0 == spec_oid_tag() {
            match spec_parse_oid(x.1) {
                Ok(oid) => Ok((EcParametersView::NamedCurve(oid), x.2)),
                Err(e) => Err(e),
            }
        } else if x.0 == spec_null_tag() {
            match spec_parse_null(x.1) {
                Ok(_) => Ok((EcParametersView::ImplicitCurve, x.2)),
                Err(e) => Err(e),
            }
        } else if x.0 == spec_sequence_tag() {
            Ok((EcParametersView::SpecifiedCurve(x.1), x.2))
        } else {
            Err(ParseError::UnexpectedTag { actual: x.0 })
        },
    }
}

/// The octets of the choice: one element, whose tag tells the variant.
pub open spec fn spec_ec_parameters_encoding(v: EcParametersView) -> Seq<u8> {
    match v {
        EcParametersView::NamedCurve(oid) => element(spec_oid_tag(), oid),
        EcParametersView::ImplicitCurve => element(spec_null_tag(), Seq::empty()),
        EcParametersView::SpecifiedCurve(s) => element(spec_sequence_tag(), s),
    }
}

impl<'a> Asn1Readable<'a> for EcParameters<'a> {
    open spec fn spec_can_parse(tag: Tag) -> bool {
        spec_ec_can_parse(tag)
    }

    open spec fn spec_parse(data: Seq<u8>) -> Result<(EcParametersView, Seq<u8>), ParseError> {
        spec_read_ec_parameters(data)
    }

    fn can_parse(tag: Tag) -> (r: bool) {
        tag == oid_tag() || tag == null_tag() || tag == sequence_tag()
    }

    fn parse(data: &'a [u8]) -> (r: Result<(Self, &'a [u8]), ParseError>) {
        let (tlv, rest) = read_tlv(data)?;
        let tag = tlv.tag();
        if tag == oid_tag() {
            let oid = ObjectIdentifier::from_der(tlv.data())?;
            Ok((EcParameters::NamedCurve(oid), rest))
        } else if tag == null_tag() {
            if tlv.data().len() != 0 {
                return Err(ParseError::InvalidValue);
            }
            Ok((EcParameters::ImplicitCurve(()), rest))
        } else if tag == sequence_tag() {
            Ok((EcParameters::SpecifiedCurve(Sequence::new(tlv.data())), rest))
        } else {
            Err(ParseError::UnexpectedTag { actual: tag })
        }
    }
}

impl<'a> Asn1Writable for EcParameters<'a> {
    open spec fn spec_encoding(v: EcParametersView) -> Seq<u8> {
        spec_ec_parameters_encoding(v)
    }

    /// The element is framed by `asn1`, whatever the value.
    open spec fn spec_write_owed(v: EcParametersView) -> bool {
        false
    }

    fn write(&self) -> (r: Result<Vec<u8>, WriteError>) {
        match self {
            EcParameters::NamedCurve(oid) => write_element(oid_tag(), oid.as_der()),
            EcParameters::ImplicitCurve(_) => {
                let empty: Vec<u8> = Vec::new();
                write_element(null_tag(), empty.as_slice())
            },
            EcParameters::SpecifiedCurve(s) => write_element(sequence_tag(), s.data()),
        }
    }
}

/// The choice is read back from what it is written as, whatever follows.
pub proof fn lemma_ec_parameters_round_trip(v: EcParametersView, rest: Seq<u8>)
    requires
        v.valid(),
        spec_ec_parameters_encoding(v).len() <= max_content_len(),
    ensures
        spec_read_ec_parameters(spec_ec_parameters_encoding(v) + rest) == Ok::<
            (EcParametersView, Seq<u8>),
            ParseError,
        >((v, rest)),
{
    match v {
        EcParametersView::NamedCurve(oid) => {
            lemma_first_element(spec_oid_tag(), oid, rest);
        },
        EcParametersView::ImplicitCurve => {
            lemma_first_element(spec_null_tag(), Seq::empty(), rest);
        },
        EcParametersView::SpecifiedCurve(s) => {
            lemma_first_element(spec_sequence_tag(), s, rest);
        },
    }
}

} // verus!
