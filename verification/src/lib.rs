//! Typed DER codecs for the algorithm identifiers of X.509 and the
//! structures around them.
//!
//! An algorithm identifier is a SEQUENCE of an object identifier and of
//! parameters whose shape the identifier decides. This crate decodes such
//! identifiers into a closed set of variants, with one more variant for the
//! algorithms it does not know, and encodes them back; fields that have a
//! default are not written.
//!
//! The framing of elements is read and written by the `asn1` crate. What a
//! DER element is, is stated in [`der`] and [`tag`]; the grammar of each
//! type is stated as a specification next to its decoder and encoder, and
//! [`laws`] proves that what is written is read back.
//!
//! - [`tag`], [`der`]: tags, elements, and the calls into `asn1`.
//! - [`codec`]: what it is to be read from and written to DER.
//! - [`primitive`], [`oid`], [`strings`], [`time`]: the leaf types.
//! - [`tlv`], [`readable_or_writable`]: elements kept as found, and values
//!   that are read as one type and written as another.
//! - [`algorithm`], [`ec`], [`dh`], [`structures`]: the structures.
//! - [`laws`]: what holds of the codec of algorithm identifiers.

pub mod algorithm;
pub mod codec;
pub mod der;
pub mod dh;
pub mod ec;
pub mod error;
pub mod laws;
pub mod oid;
pub mod primitive;
pub mod readable_or_writable;
pub mod strings;
pub mod structures;
pub mod tag;
pub mod time;
pub mod tlv;
