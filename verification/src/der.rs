//! Tag-length-value framing. The octets are read and written by the `asn1`
//! crate; this module states what a DER element is and proves that a byte
//! string begins with at most one.

use crate::error::{ParseError, WriteError};
use crate::tag::{identifier_octets, lemma_identifier_nonempty, lemma_identifier_prefix_free, Tag, TagClass};
use vstd::prelude::*;

verus! {

/// `n` in base 256, most significant octet first, without leading zeros.
pub open spec fn be_bytes(n: nat) -> Seq<u8>
    decreases n,
{
    if n < 256 {
        seq![n as u8]
    } else {
        be_bytes(n / 256).push((n % 256) as u8)
    }
}

/// The DER length octets of a content of `n` octets: `n` itself below 128,
/// else the count of the octets of `n` with the high bit set, then `n`.
pub open spec fn length_octets(n: nat) -> Seq<u8> {
    if n < 128 {
        seq![n as u8]
    } else {
        seq![(128 + be_bytes(n).len()) as u8] + be_bytes(n)
    }
}

/// The longest content that can be read back: its length takes four octets.
pub open spec fn max_content_len() -> nat {
    0xffff_ffff
}

/// The element with the given tag and content.
pub open spec fn element(tag: Tag, content: Seq<u8>) -> Seq<u8> {
    identifier_octets(tag) + length_octets(content.len()) + content
}

/// `data` is the element of `tag` and `content`, followed by `rest`.
pub open spec fn starts_with_element(data: Seq<u8>, tag: Tag, content: Seq<u8>, rest: Seq<u8>) -> bool {
    content.len() <= max_content_len() && data == element(tag, content) + rest
}

/// `data` is the identifier octets of `tag`, followed by `rest`.
pub open spec fn starts_with_tag(data: Seq<u8>, tag: Tag, rest: Seq<u8>) -> bool {
    data == identifier_octets(tag) + rest
}

/// The tag that `data` begins with and what follows its identifier octets.
pub open spec fn first_tag(data: Seq<u8>) -> Option<(Tag, Seq<u8>)> {
    if exists|tag: Tag, rest: Seq<u8>| starts_with_tag(data, tag, rest) {
        Some(choose|x: (Tag, Seq<u8>)| starts_with_tag(data, x.0, x.1))
    } else {
        None
    }
}

/// The element that `data` begins with: its tag, its content, and what
/// follows it.
pub open spec fn first_element(data: Seq<u8>) -> Option<(Tag, Seq<u8>, Seq<u8>)> {
    if exists|tag: Tag, content: Seq<u8>, rest: Seq<u8>| starts_with_element(data, tag, content, rest) {
        Some(choose|x: (Tag, Seq<u8>, Seq<u8>)| starts_with_element(data, x.0, x.1, x.2))
    } else {
        None
    }
}

/// The error that `asn1::Tag::from_bytes` reports on a byte string that does
/// not begin with a tag.
pub uninterp spec fn der_tag_error(data: Seq<u8>) -> ParseError;

/// The error that `asn1::strip_tlv` reports on a byte string that does not
/// begin with an element.
pub uninterp spec fn der_element_error(data: Seq<u8>) -> ParseError;

/// Reading a tag off the front of `data`.
pub open spec fn spec_read_tag(data: Seq<u8>) -> Result<(Tag, Seq<u8>), ParseError> {
    match first_tag(data) {
        Some(x) => Ok(x),
        None => Err(der_tag_error(data)),
    }
}

/// Reading an element off the front of `data`.
pub open spec fn spec_read_element(data: Seq<u8>) -> Result<(Tag, Seq<u8>, Seq<u8>), ParseError> {
    match first_element(data) {
        Some(x) => Ok(x),
        None => Err(der_element_error(data)),
    }
}

/// The tag of the next element, where there is one.
pub open spec fn spec_peek_tag(data: Seq<u8>) -> Option<Tag> {
    match first_tag(data) {
        Some(x) => Some(x.0),
        None => None,
    }
}

/// A number has at least one octet.
pub proof fn lemma_be_bytes_nonempty(n: nat)
    ensures
        be_bytes(n).len() >= 1,
{
}

/// A length that can be read back has at most four octets.
pub proof fn lemma_be_bytes_len(n: nat)
    requires
        n <= max_content_len(),
    ensures
        1 <= be_bytes(n).len() <= 4,
{
    reveal_with_fuel(be_bytes, 5);
}

/// The octets tell the number.
pub proof fn lemma_be_bytes_injective(a: nat, b: nat)
    requires
        be_bytes(a) == be_bytes(b),
    ensures
        a == b,
    decreases a,
{
    if a < 256 {
        assert(be_bytes(a).len() == 1);
        if b >= 256 {
            lemma_be_bytes_nonempty(b / 256);
            assert(be_bytes(b).len() == be_bytes(b / 256).len() + 1);
        } else {
            assert(be_bytes(a)[0] == a as u8);
            assert(be_bytes(b)[0] == b as u8);
        }
    } else {
        if b < 256 {
            lemma_be_bytes_nonempty(a / 256);
            assert(be_bytes(b).len() == 1);
            assert(be_bytes(a).len() == be_bytes(a / 256).len() + 1);
        } else {
            let pa = be_bytes(a / 256);
            let pb = be_bytes(b / 256);
            let xa = (a % 256) as u8;
            let xb = (b % 256) as u8;
            assert(pa.push(xa).drop_last() =~= pa);
            assert(pb.push(xb).drop_last() =~= pb);
            assert(pa.push(xa).last() == xa);
            assert(pb.push(xb).last() == xb);
            lemma_be_bytes_injective(a / 256, b / 256);
        }
    }
}

/// The length octets tell the length: no length's octets are the start of
/// another's.
pub proof fn lemma_length_prefix_free(n1: nat, r1: Seq<u8>, n2: nat, r2: Seq<u8>)
    requires
        n1 <= max_content_len(),
        n2 <= max_content_len(),
        length_octets(n1) + r1 == length_octets(n2) + r2,
    ensures
        n1 == n2,
        r1 == r2,
{
    let s1 = length_octets(n1) + r1;
    let s2 = length_octets(n2) + r2;
    lemma_be_bytes_len(n1);
    lemma_be_bytes_len(n2);
    assert(s1[0] == length_octets(n1)[0]);
    assert(s2[0] == length_octets(n2)[0]);
    if n1 < 128 {
        assert(n2 < 128);
        assert(r1 =~= s1.subrange(1, s1.len() as int));
        assert(r2 =~= s2.subrange(1, s2.len() as int));
    } else {
        assert(n2 >= 128);
        let k = be_bytes(n1).len() as int;
        assert(be_bytes(n2).len() == k);
        assert(be_bytes(n1) =~= s1.subrange(1, 1 + k));
        assert(be_bytes(n2) =~= s2.subrange(1, 1 + k));
        lemma_be_bytes_injective(n1, n2);
        assert(r1 =~= s1.subrange(1 + k, s1.len() as int));
        assert(r2 =~= s2.subrange(1 + k, s2.len() as int));
    }
}

/// A byte string begins with at most one tag.
pub proof fn lemma_tag_unique(data: Seq<u8>, t1: Tag, r1: Seq<u8>, t2: Tag, r2: Seq<u8>)
    requires
        starts_with_tag(data, t1, r1),
        starts_with_tag(data, t2, r2),
    ensures
        t1 == t2,
        r1 == r2,
{
    lemma_identifier_prefix_free(t1, r1, t2, r2);
}

/// A byte string begins with at most one element.
pub proof fn lemma_element_unique(
    data: Seq<u8>,
    t1: Tag,
    c1: Seq<u8>,
    r1: Seq<u8>,
    t2: Tag,
    c2: Seq<u8>,
    r2: Seq<u8>,
)
    requires
        starts_with_element(data, t1, c1, r1),
        starts_with_element(data, t2, c2, r2),
    ensures
        t1 == t2,
        c1 == c2,
        r1 == r2,
{
    let a1 = length_octets(c1.len()) + (c1 + r1);
    let a2 = length_octets(c2.len()) + (c2 + r2);
    assert(identifier_octets(t1) + a1 =~= element(t1, c1) + r1);
    assert(identifier_octets(t2) + a2 =~= element(t2, c2) + r2);
    lemma_identifier_prefix_free(t1, a1, t2, a2);
    lemma_length_prefix_free(c1.len(), c1 + r1, c2.len(), c2 + r2);
    assert(c1 =~= (c1 + r1).subrange(0, c1.len() as int));
    assert(c2 =~= (c2 + r2).subrange(0, c2.len() as int));
    assert(r1 =~= (c1 + r1).subrange(c1.len() as int, (c1 + r1).len() as int));
    assert(r2 =~= (c2 + r2).subrange(c2.len() as int, (c2 + r2).len() as int));
}

/// What begins with the identifier octets of a tag reads as that tag.
pub proof fn lemma_first_tag(tag: Tag, rest: Seq<u8>)
    ensures
        first_tag(identifier_octets(tag) + rest) == Some((tag, rest)),
{
    let data = identifier_octets(tag) + rest;
    assert(starts_with_tag(data, tag, rest));
    let x = choose|x: (Tag, Seq<u8>)| starts_with_tag(data, x.0, x.1);
    assert(starts_with_tag(data, (tag, rest).0, (tag, rest).1));
    lemma_tag_unique(data, tag, rest, x.0, x.1);
}

/// What `first_tag` finds is there.
pub proof fn lemma_first_tag_sound(data: Seq<u8>)
    ensures
        first_tag(data) matches Some(x) ==> starts_with_tag(data, x.0, x.1) && x.1.len() < data.len(),
{
    if exists|tag: Tag, rest: Seq<u8>| starts_with_tag(data, tag, rest) {
        let (tag, rest) = choose|tag: Tag, rest: Seq<u8>| starts_with_tag(data, tag, rest);
        assert(starts_with_tag(data, (tag, rest).0, (tag, rest).1));
        let x = choose|x: (Tag, Seq<u8>)| starts_with_tag(data, x.0, x.1);
        lemma_identifier_nonempty(x.0);
    }
}

/// What begins with an element reads as that element.
pub proof fn lemma_first_element(tag: Tag, content: Seq<u8>, rest: Seq<u8>)
    requires
        content.len() <= max_content_len(),
    ensures
        first_element(element(tag, content) + rest) == Some((tag, content, rest)),
        first_tag(element(tag, content) + rest) == Some((tag, length_octets(content.len()) + content + rest)),
{
    let data = element(tag, content) + rest;
    assert(starts_with_element(data, tag, content, rest));
    assert(starts_with_element(data, (tag, content, rest).0, (tag, content, rest).1, (tag, content, rest).2));
    let x = choose|x: (Tag, Seq<u8>, Seq<u8>)| starts_with_element(data, x.0, x.1, x.2);
    lemma_element_unique(data, tag, content, rest, x.0, x.1, x.2);
    let tail = length_octets(content.len()) + content + rest;
    assert(data =~= identifier_octets(tag) + tail);
    lemma_first_tag(tag, tail);
}

/// What `first_element` finds is there, and its content is shorter than the
/// input.
pub proof fn lemma_first_element_sound(data: Seq<u8>)
    ensures
        first_element(data) matches Some(x) ==> {
            &&& starts_with_element(data, x.0, x.1, x.2)
            &&& x.1.len() + x.2.len() < data.len()
            &&& first_tag(data) == Some((x.0, length_octets(x.1.len()) + x.1 + x.2))
        },
{
    if exists|tag: Tag, content: Seq<u8>, rest: Seq<u8>| starts_with_element(data, tag, content, rest) {
        let (tag, content, rest) = choose|tag: Tag, content: Seq<u8>, rest: Seq<u8>|
            starts_with_element(data, tag, content, rest);
        assert(starts_with_element(data, (tag, content, rest).0, (tag, content, rest).1, (tag, content, rest).2));
        let x = choose|x: (Tag, Seq<u8>, Seq<u8>)| starts_with_element(data, x.0, x.1, x.2);
        lemma_identifier_nonempty(x.0);
        lemma_first_element(x.0, x.1, x.2);
    }
}

/// A wrapper's result, as the tag and the octets after it.
pub open spec fn tag_result_view(r: Result<(Tag, &[u8]), ParseError>) -> Result<(Tag, Seq<u8>), ParseError> {
    match r {
        Ok(x) => Ok((x.0, x.1@)),
        Err(e) => Err(e),
    }
}

/// Calls `asn1::Tag::from_bytes`. Claimed of it: it succeeds exactly on input
/// that begins with the identifier octets of a tag whose number fits 32 bits,
/// and returns that tag with the octets after it; else it reports short data
/// or an invalid tag, which of them depending on the input alone.
#[verifier::external_body]
fn tag_from_bytes<'a>(data: &'a [u8]) -> (r: Result<(Tag, &'a [u8]), ParseError>)
    ensures
        r matches Ok(x) ==> first_tag(data@) == Some((x.0, x.1@)),
        r matches Err(e) ==> first_tag(data@).is_none() && e == der_tag_error(data@),
        r matches Err(e) ==> e is ShortData || e is InvalidTag,
{
    match asn1::Tag::from_bytes(data) {
        Ok((t, rest)) => {
            let class = match t.class() as u8 {
                0 => TagClass::Universal,
                1 => TagClass::Application,
                2 => TagClass::ContextSpecific,
                _ => TagClass::Private,
            };
            Ok((Tag { class, constructed: t.is_constructed(), value: t.value() }, rest))
        },
        Err(e) => Err(match e.kind() {
            asn1::ParseErrorKind::ShortData { needed } => ParseError::ShortData { needed },
            _ => ParseError::InvalidTag,
        }),
    }
}

/// Calls `asn1::strip_tlv`. Claimed of it: it succeeds exactly on input that
/// begins with a DER element whose content is at most `max_content_len()`
/// octets long, and returns the content, the whole element and what follows
/// it; else it reports short data, an invalid tag or an invalid length, which
/// of them depending on the input alone.
#[verifier::external_body]
fn strip_tlv<'a>(data: &'a [u8]) -> (r: Result<(&'a [u8], &'a [u8], &'a [u8]), ParseError>)
    ensures
        r matches Ok(x) ==> first_element(data@) matches Some(y) && y.1 == x.0@ && y.2 == x.2@ && x.1@ == element(
            y.0,
            y.1,
        ),
        r matches Err(e) ==> first_element(data@).is_none() && e == der_element_error(data@),
        r matches Err(e) ==> e is ShortData || e is InvalidTag || e is InvalidLength,
{
    match asn1::strip_tlv(data) {
        Ok((tlv, rest)) => Ok((tlv.data(), tlv.full_data(), rest)),
        Err(e) => Err(match e.kind() {
            asn1::ParseErrorKind::ShortData { needed } => ParseError::ShortData { needed },
            asn1::ParseErrorKind::InvalidTag => ParseError::InvalidTag,
            _ => ParseError::InvalidLength,
        }),
    }
}

/// Calls `asn1::write` with one `Writer::write_tlv` whose body pushes
/// `content`. Claimed of it: what comes back is the identifier octets, the
/// DER length octets of the content's length, and the content.
#[verifier::external_body]
fn write_tlv(identifier: &[u8], content: &[u8]) -> (r: Result<Vec<u8>, WriteError>)
    requires
        exists|tag: Tag| identifier@ == identifier_octets(tag),
    ensures
        r matches Ok(b) ==> b@ == identifier@ + length_octets(content@.len()) + content@,
{
    match asn1::Tag::from_bytes(identifier) {
        Ok((tag, _)) => asn1::write(|w| w.write_tlv(tag, |dest| dest.push_slice(content)))
            .map_err(|_| WriteError::AllocationError),
        Err(_) => Err(WriteError::AllocationError),
    }
}

/// An element as it was read: its tag, its content, and all its octets.
#[derive(Clone, Copy, Debug, PartialEq, Eq, Hash)]
pub struct Tlv<'a> {
    tag: Tag,
    data: &'a [u8],
    full_data: &'a [u8],
}

/// What an element holds: its tag and its content.
pub struct TlvView {
    pub tag: Tag,
    pub data: Seq<u8>,
}

impl<'a> View for Tlv<'a> {
    type V = TlvView;

    closed spec fn view(&self) -> TlvView {
        TlvView { tag: self.tag, data: self.data@ }
    }
}

impl<'a> DeepView for Tlv<'a> {
    type V = TlvView;

    open spec fn deep_view(&self) -> TlvView {
        self@
    }
}

impl<'a> Tlv<'a> {
    #[verifier::type_invariant]
    spec fn well_formed(self) -> bool {
        self.full_data@ == element(self.tag, self.data@)
    }

    /// The tag of the element.
    pub fn tag(&self) -> (r: Tag)
        ensures
            r == self@.tag,
    {
        self.tag
    }

    /// The content octets of the element.
    pub fn data(&self) -> (r: &'a [u8])
        ensures
            r@ == self@.data,
    {
        self.data
    }

    /// All octets of the element.
    pub fn full_data(&self) -> (r: &'a [u8])
        ensures
            r@ == element(self@.tag, self@.data),
    {
        proof {
            use_type_invariant(self);
        }
        self.full_data
    }
}

/// Reading an element off the front of `data`, as a `Tlv`.
pub open spec fn spec_read_tlv(data: Seq<u8>) -> Result<(TlvView, Seq<u8>), ParseError> {
    match spec_read_element(data) {
        Ok(x) => Ok((TlvView { tag: x.0, data: x.1 }, x.2)),
        Err(e) => Err(e),
    }
}

impl Tag {
    /// Reads a tag off the front of `data` and returns it with the octets
    /// that follow.
    pub fn from_bytes<'a>(data: &'a [u8]) -> (r: Result<(Tag, &'a [u8]), ParseError>)
        ensures
            tag_result_view(r) == spec_read_tag(data@),
            r matches Err(e) ==> e is ShortData || e is InvalidTag,
    {
        tag_from_bytes(data)
    }
}

/// The tag of the element that `data` begins with, if it begins with a tag.
pub fn peek_tag(data: &[u8]) -> (r: Option<Tag>)
    ensures
        r == spec_peek_tag(data@),
{
    match tag_from_bytes(data) {
        Ok((tag, _)) => Some(tag),
        Err(_) => None,
    }
}

/// Reads the element that `data` begins with and returns it with the octets
/// that follow.
pub fn read_tlv<'a>(data: &'a [u8]) -> (r: Result<(Tlv<'a>, &'a [u8]), ParseError>)
    ensures
        r matches Ok(x) ==> spec_read_tlv(data@) == Ok::<_, ParseError>((x.0@, x.1@)) && x.0@.data.len() + x.1@.len()
            < data@.len(),
        r matches Err(e) ==> spec_read_tlv(data@) == Err::<(TlvView, Seq<u8>), _>(e) && (e is ShortData
            || e is InvalidTag || e is InvalidLength),
{
    match strip_tlv(data) {
        Ok((content, full, rest)) => {
            proof {
                lemma_first_element_sound(data@);
            }
            match tag_from_bytes(data) {
                Ok((tag, _)) => Ok((Tlv { tag, data: content, full_data: full }, rest)),
                Err(e) => Err(e),
            }
        },
        Err(e) => Err(e),
    }
}

/// Appends to `out` the octets of `v`, most significant first, without
/// leading zeros.
pub fn push_be_bytes(out: &mut Vec<u8>, v: u64)
    ensures
        final(out)@ == old(out)@ + be_bytes(v as nat),
    decreases v,
{
    if v < 256 {
        out.push(v as u8);
        assert(out@ =~= old(out)@ + be_bytes(v as nat));
    } else {
        push_be_bytes(out, v / 256);
        out.push((v % 256) as u8);
        assert(out@ =~= old(out)@ + be_bytes(v as nat));
    }
}

/// The DER length octets of a content of `n` octets.
pub fn length_to_bytes(n: u64) -> (r: Vec<u8>)
    ensures
        r@ == length_octets(n as nat),
{
    let mut out: Vec<u8> = Vec::new();
    if n < 128 {
        out.push(n as u8);
        assert(out@ =~= length_octets(n as nat));
    } else {
        let mut digits: Vec<u8> = Vec::new();
        push_be_bytes(&mut digits, n);
        assert(digits@ =~= be_bytes(n as nat));
        assert(be_bytes(n as nat).len() <= 8) by {
            reveal_with_fuel(be_bytes, 9);
        }
        out.push((128 + digits.len()) as u8);
        out.append(&mut digits);
        assert(out@ =~= length_octets(n as nat));
    }
    out
}

/// What a writer returned, as octets.
pub open spec fn written_view(r: Result<Vec<u8>, WriteError>) -> Result<Seq<u8>, WriteError> {
    match r {
        Ok(b) => Ok(b@),
        Err(e) => Err(e),
    }
}

/// What comes of two parts that were written one after the other: the two
/// together where both were written, else the failure of the first that
/// failed.
pub open spec fn spec_join_written(first: Result<Seq<u8>, WriteError>, second: Result<Seq<u8>, WriteError>) -> Result<
    Seq<u8>,
    WriteError,
> {
    match first {
        Err(e) => Err(e),
        Ok(a) => match second {
            Err(e) => Err(e),
            Ok(b) => Ok(a + b),
        },
    }
}

/// Puts together what two writers returned, the first part and the part
/// after it.
pub fn join_written(first: Result<Vec<u8>, WriteError>, second: Result<Vec<u8>, WriteError>) -> (r: Result<
    Vec<u8>,
    WriteError,
>)
    ensures
        written_view(r) == spec_join_written(written_view(first), written_view(second)),
{
    match first {
        Err(e) => Err(e),
        Ok(a) => match second {
            Err(e) => Err(e),
            Ok(b) => {
                let mut a = a;
                let mut b = b;
                a.append(&mut b);
                Ok(a)
            },
        },
    }
}

/// Writes the element of `tag` whose content is what a writer returned. A
/// content that was not written is not framed: its failure is returned.
pub fn write_framed(tag: Tag, content: Result<Vec<u8>, WriteError>) -> (r: Result<Vec<u8>, WriteError>)
    ensures
        content matches Err(e) ==> written_view(r) == Err::<Seq<u8>, WriteError>(e),
        content matches Ok(c) ==> (r matches Ok(b) ==> b@ == element(tag, c@)),
{
    match content {
        Ok(c) => write_element(tag, c.as_slice()),
        Err(e) => Err(e),
    }
}

/// Writes the element of `tag` and `content`.
pub fn write_element(tag: Tag, content: &[u8]) -> (r: Result<Vec<u8>, WriteError>)
    ensures
        r matches Ok(b) ==> b@ == element(tag, content@),
{
    let identifier = tag.to_bytes();
    write_tlv(identifier.as_slice(), content)
}

} // verus!
