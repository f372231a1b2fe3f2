//! Two string types with rules of their own: a VisibleString that is only
//! known to be UTF-8, and a BMPString kept as UTF-8 in memory.

use crate::codec::{SimpleAsn1Readable, SimpleAsn1Writable};
use crate::error::{ParseError, WriteError};
use crate::tag::{Tag, TagClass};
use vstd::prelude::*;
use vstd::utf8::{decode_utf8, encode_utf8, encode_utf8_decode_utf8, valid_utf8};

verus! {

/// The tag of VisibleString.
pub open spec fn spec_visible_string_tag() -> Tag {
    Tag { class: TagClass::Universal, constructed: false, value: 26 }
}

/// The tag of BMPString.
pub open spec fn spec_bmp_string_tag() -> Tag {
    Tag { class: TagClass::Universal, constructed: false, value: 30 }
}

/// Calls `std::str::from_utf8`. Claimed of it: it succeeds exactly on byte
/// strings that are UTF-8, and the text it returns has those octets.
#[verifier::external_body]
fn str_from_utf8<'a>(data: &'a [u8]) -> (r: Option<&'a str>)
    ensures
        r.is_some() == valid_utf8(data@),
        r matches Some(s) ==> encode_utf8(s@) == data@,
{
    std::str::from_utf8(data).ok()
}

/// A VisibleString whose content is known to be UTF-8 and nothing more: the
/// characters are not held to the visible subset. It is read, never written.
#[derive(Clone, Copy, Debug, PartialEq, Eq, Hash)]
pub struct UnvalidatedVisibleString<'a>(pub &'a str);

impl<'a> View for UnvalidatedVisibleString<'a> {
    type V = Seq<char>;

    open spec fn view(&self) -> Seq<char> {
        self.0@
    }
}

impl<'a> DeepView for UnvalidatedVisibleString<'a> {
    type V = Seq<char>;

    open spec fn deep_view(&self) -> Seq<char> {
        self.0@
    }
}

impl<'a> UnvalidatedVisibleString<'a> {
    /// The text.
    pub fn as_str(&self) -> (r: &'a str)
        ensures
            r@ == self@,
    {
        self.0
    }
}

/// Decoding the content of a VisibleString: any UTF-8 is taken, as the text
/// it encodes.
pub open spec fn spec_parse_visible_string(data: Seq<u8>) -> Result<Seq<char>, ParseError> {
    if valid_utf8(data) {
        Ok(decode_utf8(data))
    } else {
        Err(ParseError::InvalidValue)
    }
}

impl<'a> SimpleAsn1Readable<'a> for UnvalidatedVisibleString<'a> {
    open spec fn spec_tag() -> Tag {
        spec_visible_string_tag()
    }

    open spec fn spec_parse_data(data: Seq<u8>) -> Result<Seq<char>, ParseError> {
        spec_parse_visible_string(data)
    }

    fn tag() -> (r: Tag) {
        Tag::primitive(26)
    }

    fn parse_data(data: &'a [u8]) -> (r: Result<Self, ParseError>) {
        match str_from_utf8(data) {
            Some(s) => {
                proof {
                    encode_utf8_decode_utf8(s@);
                }
                Ok(UnvalidatedVisibleString(s))
            },
            None => Err(ParseError::InvalidValue),
        }
    }
}

/// The text of a decoded VisibleString has the octets it was decoded from.
pub proof fn lemma_visible_string_exact(data: Seq<u8>)
    requires
        valid_utf8(data),
    ensures
        spec_parse_visible_string(data) matches Ok(text) && encode_utf8(text) == data,
{
    vstd::utf8::decode_utf8_encode_utf8(data);
}

/// The two octets of a 16-bit unit, the high one first.
pub open spec fn be16(u: nat) -> Seq<u8> {
    seq![(u / 256) as u8, (u % 256) as u8]
}

/// The first unit of the surrogate pair of a code point above the basic
/// plane.
pub open spec fn high_surrogate(v: nat) -> nat {
    (0xd800 + (v - 0x10000) / 0x400) as nat
}

/// The second unit of the surrogate pair of a code point above the basic
/// plane.
pub open spec fn low_surrogate(v: nat) -> nat {
    (0xdc00 + (v - 0x10000) % 0x400) as nat
}

/// The UTF-16 units of one character, each as two octets, high octet first.
pub open spec fn utf16_be_char(c: char) -> Seq<u8> {
    let v = c as nat;
    if v < 0x10000 {
        be16(v)
    } else {
        be16(high_surrogate(v)) + be16(low_surrogate(v))
    }
}

/// The UTF-16 form of a text, each unit as two octets, high octet first.
pub open spec fn utf16_be(chars: Seq<char>) -> Seq<u8>
    decreases chars.len(),
{
    if chars.len() == 0 {
        Seq::empty()
    } else {
        utf16_be(chars.drop_last()) + utf16_be_char(chars.last())
    }
}

/// A character above the basic plane is written as four octets: a unit in
/// the high-surrogate range and a unit in the low-surrogate range, which
/// together stand for the character's code point.
pub proof fn lemma_surrogate_pair(c: char)
    requires
        c as nat >= 0x10000,
    ensures
        utf16_be_char(c) == be16(high_surrogate(c as nat)) + be16(low_surrogate(c as nat)),
        utf16_be_char(c).len() == 4,
        0xd800 <= high_surrogate(c as nat) <= 0xdbff,
        0xdc00 <= low_surrogate(c as nat) <= 0xdfff,
        0x10000 + (high_surrogate(c as nat) - 0xd800) * 0x400 + (low_surrogate(c as nat) - 0xdc00) == c as nat,
{
}

/// Appends the UTF-16 units of `c`, high octet first.
fn push_utf16_be(out: &mut Vec<u8>, c: char)
    ensures
        final(out)@ == old(out)@ + utf16_be_char(c),
{
    let v: u32 = c as u32;
    if v < 0x10000 {
        out.push((v / 256) as u8);
        out.push((v % 256) as u8);
        assert(out@ =~= old(out)@ + utf16_be_char(c));
    } else {
        let high: u32 = 0xd800 + (v - 0x10000) / 0x400;
        let low: u32 = 0xdc00 + (v - 0x10000) % 0x400;
        out.push((high / 256) as u8);
        out.push((high % 256) as u8);
        out.push((low / 256) as u8);
        out.push((low % 256) as u8);
        assert(out@ =~= old(out)@ + utf16_be_char(c));
    }
}

/// A BMPString whose text is kept as UTF-8 in memory. It is written, never
/// read.
#[derive(Clone, Copy, Debug, PartialEq, Eq, Hash)]
pub struct Utf8StoredBMPString<'a>(pub &'a str);

impl<'a> View for Utf8StoredBMPString<'a> {
    type V = Seq<char>;

    open spec fn view(&self) -> Seq<char> {
        self.0@
    }
}

impl<'a> DeepView for Utf8StoredBMPString<'a> {
    type V = Seq<char>;

    open spec fn deep_view(&self) -> Seq<char> {
        self.0@
    }
}

impl<'a> Utf8StoredBMPString<'a> {
    /// The BMPString of the text `s`.
    pub fn new(s: &'a str) -> (r: Utf8StoredBMPString<'a>)
        ensures
            r@ == s@,
    {
        Utf8StoredBMPString(s)
    }
}

impl<'a> SimpleAsn1Writable for Utf8StoredBMPString<'a> {
    open spec fn spec_write_tag() -> Tag {
        spec_bmp_string_tag()
    }

    open spec fn spec_content(v: Seq<char>) -> Seq<u8> {
        utf16_be(v)
    }

    /// The content is put together here, with no call that can fail.
    open spec fn spec_content_owed(v: Seq<char>) -> bool {
        true
    }

    fn write_tag() -> (r: Tag) {
        Tag::primitive(30)
    }

    fn write_data(&self) -> (r: Result<Vec<u8>, WriteError>) {
        let mut out: Vec<u8> = Vec::new();
        let text: &str = self.0;
        for c in it: text.chars()
            invariant
                it.seq() == text@,
                out@ == utf16_be(it.seq().take(it.index())),
        {
            proof {
                let before = it.seq().take(it.index());
                let after = it.seq().take(it.index() + 1);
                assert(after.drop_last() =~= before);
                assert(after.last() == c);
            }
            push_utf16_be(&mut out, c);
        }
        assert(text@.take(text@.len() as int) =~= text@);
        Ok(out)
    }
}

} // verus!
