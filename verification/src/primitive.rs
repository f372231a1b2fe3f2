//! The primitive types: NULL, BOOLEAN, unsigned INTEGER, OCTET STRING, and
//! SEQUENCE taken as raw content.

use crate::codec::{SimpleAsn1Readable, SimpleAsn1Writable};
use crate::der::{be_bytes, lemma_be_bytes_nonempty, push_be_bytes};
use crate::error::{ParseError, WriteError};
use crate::tag::{Tag, TagClass};
use vstd::prelude::*;

verus! {

/// The tag of BOOLEAN.
pub open spec fn spec_boolean_tag() -> Tag {
    Tag { class: TagClass::Universal, constructed: false, value: 1 }
}

/// The tag of INTEGER.
pub open spec fn spec_integer_tag() -> Tag {
    Tag { class: TagClass::Universal, constructed: false, value: 2 }
}

/// The tag of BIT STRING.
pub open spec fn spec_bit_string_tag() -> Tag {
    Tag { class: TagClass::Universal, constructed: false, value: 3 }
}

/// The tag of OCTET STRING.
pub open spec fn spec_octet_string_tag() -> Tag {
    Tag { class: TagClass::Universal, constructed: false, value: 4 }
}

/// The tag of NULL.
pub open spec fn spec_null_tag() -> Tag {
    Tag { class: TagClass::Universal, constructed: false, value: 5 }
}

/// The tag of OBJECT IDENTIFIER.
pub open spec fn spec_oid_tag() -> Tag {
    Tag { class: TagClass::Universal, constructed: false, value: 6 }
}

/// The tag of SEQUENCE.
pub open spec fn spec_sequence_tag() -> Tag {
    Tag { class: TagClass::Universal, constructed: true, value: 16 }
}

/// The context-specific constructed tag of an explicitly tagged field.
pub open spec fn spec_explicit_tag(n: u32) -> Tag {
    Tag { class: TagClass::ContextSpecific, constructed: true, value: n }
}

/// The tag of BOOLEAN.
#[verifier::when_used_as_spec(spec_boolean_tag)]
pub fn boolean_tag() -> (r: Tag)
    ensures
        r == spec_boolean_tag(),
{
    Tag::primitive(1)
}

/// The tag of INTEGER.
#[verifier::when_used_as_spec(spec_integer_tag)]
pub fn integer_tag() -> (r: Tag)
    ensures
        r == spec_integer_tag(),
{
    Tag::primitive(2)
}

/// The tag of BIT STRING.
#[verifier::when_used_as_spec(spec_bit_string_tag)]
pub fn bit_string_tag() -> (r: Tag)
    ensures
        r == spec_bit_string_tag(),
{
    Tag::primitive(3)
}

/// The tag of OCTET STRING.
#[verifier::when_used_as_spec(spec_octet_string_tag)]
pub fn octet_string_tag() -> (r: Tag)
    ensures
        r == spec_octet_string_tag(),
{
    Tag::primitive(4)
}

/// The tag of NULL.
#[verifier::when_used_as_spec(spec_null_tag)]
pub fn null_tag() -> (r: Tag)
    ensures
        r == spec_null_tag(),
{
    Tag::primitive(5)
}

/// The tag of OBJECT IDENTIFIER.
#[verifier::when_used_as_spec(spec_oid_tag)]
pub fn oid_tag() -> (r: Tag)
    ensures
        r == spec_oid_tag(),
{
    Tag::primitive(6)
}

/// The tag of SEQUENCE.
#[verifier::when_used_as_spec(spec_sequence_tag)]
pub fn sequence_tag() -> (r: Tag)
    ensures
        r == spec_sequence_tag(),
{
    Tag::constructed(16)
}

/// The context-specific constructed tag of an explicitly tagged field.
#[verifier::when_used_as_spec(spec_explicit_tag)]
pub fn explicit_tag(n: u32) -> (r: Tag)
    ensures
        r == spec_explicit_tag(n),
{
    Tag::explicit(n)
}

/// The ASN.1 NULL value.
pub type Null = ();

/// The content of a NULL is empty.
pub open spec fn spec_parse_null(data: Seq<u8>) -> Result<(), ParseError> {
    if data.len() == 0 {
        Ok(())
    } else {
        Err(ParseError::InvalidValue)
    }
}

impl<'a> SimpleAsn1Readable<'a> for () {
    open spec fn spec_tag() -> Tag {
        spec_null_tag()
    }

    open spec fn spec_parse_data(data: Seq<u8>) -> Result<(), ParseError> {
        spec_parse_null(data)
    }

    fn tag() -> (r: Tag) {
        null_tag()
    }

    fn parse_data(data: &'a [u8]) -> (r: Result<Self, ParseError>) {
        if data.len() == 0 {
            Ok(())
        } else {
            Err(ParseError::InvalidValue)
        }
    }
}

impl SimpleAsn1Writable for () {
    open spec fn spec_write_tag() -> Tag {
        spec_null_tag()
    }

    open spec fn spec_content(v: ()) -> Seq<u8> {
        Seq::empty()
    }

    /// The content is put together here, with no call that can fail.
    open spec fn spec_content_owed(v: ()) -> bool {
        true
    }

    fn write_tag() -> (r: Tag) {
        null_tag()
    }

    fn write_data(&self) -> (r: Result<Vec<u8>, WriteError>) {
        Ok(Vec::new())
    }
}

/// The content of a BOOLEAN is one octet, all bits clear or all bits set.
pub open spec fn spec_parse_boolean(data: Seq<u8>) -> Result<bool, ParseError> {
    if data.len() == 1 && data[0] == 0 {
        Ok(false)
    } else if data.len() == 1 && data[0] == 0xff {
        Ok(true)
    } else {
        Err(ParseError::InvalidValue)
    }
}

impl<'a> SimpleAsn1Readable<'a> for bool {
    open spec fn spec_tag() -> Tag {
        spec_boolean_tag()
    }

    open spec fn spec_parse_data(data: Seq<u8>) -> Result<bool, ParseError> {
        spec_parse_boolean(data)
    }

    fn tag() -> (r: Tag) {
        boolean_tag()
    }

    fn parse_data(data: &'a [u8]) -> (r: Result<Self, ParseError>) {
        if data.len() == 1 && data[0] == 0 {
            Ok(false)
        } else if data.len() == 1 && data[0] == 0xff {
            Ok(true)
        } else {
            Err(ParseError::InvalidValue)
        }
    }
}

impl SimpleAsn1Writable for bool {
    open spec fn spec_write_tag() -> Tag {
        spec_boolean_tag()
    }

    open spec fn spec_content(v: bool) -> Seq<u8> {
        if v {
            seq![0xffu8]
        } else {
            seq![0u8]
        }
    }

    /// The content is put together here, with no call that can fail.
    open spec fn spec_content_owed(v: bool) -> bool {
        true
    }

    fn write_tag() -> (r: Tag) {
        boolean_tag()
    }

    fn write_data(&self) -> (r: Result<Vec<u8>, WriteError>) {
        let mut out: Vec<u8> = Vec::new();
        out.push(if *self { 0xff } else { 0 });
        assert(out@ =~= Self::spec_content(*self));
        Ok(out)
    }
}

/// Whether `data` is the content of a non-negative INTEGER: not empty, no
/// octet more than the value needs, and the sign bit clear.
pub open spec fn integer_content_ok(data: Seq<u8>) -> bool {
    &&& data.len() > 0
    &&& !(data.len() > 1 && ((data[0] == 0 && data[1] < 128) || (data[0] == 0xff && data[1] >= 128)))
    &&& data[0] < 128
}

/// The number that the octets stand for, most significant first.
pub open spec fn be_value(data: Seq<u8>) -> nat
    decreases data.len(),
{
    if data.len() == 0 {
        0
    } else {
        be_value(data.drop_last()) * 256 + data.last() as nat
    }
}

/// The content of an unsigned INTEGER that holds `v`: its octets without
/// leading zeros, after a zero octet where the first would read as a sign.
pub open spec fn uint_content(v: nat) -> Seq<u8> {
    if be_bytes(v)[0] >= 128 {
        seq![0u8] + be_bytes(v)
    } else {
        be_bytes(v)
    }
}

/// Decoding the content of an INTEGER into an unsigned type whose largest
/// value is `max`.
pub open spec fn spec_parse_uint(data: Seq<u8>, max: nat) -> Result<nat, ParseError> {
    if !integer_content_ok(data) {
        Err(ParseError::InvalidValue)
    } else if be_value(data) > max {
        Err(ParseError::IntegerOverflow)
    } else {
        Ok(be_value(data))
    }
}

/// An octet at the end is the last digit in base 256.
pub proof fn lemma_be_value_push(data: Seq<u8>, x: u8)
    ensures
        be_value(data.push(x)) == be_value(data) * 256 + x as nat,
{
    assert(data.push(x).drop_last() =~= data);
}

/// Octets in front can only make the number larger.
pub proof fn lemma_be_value_prefix(data: Seq<u8>, i: int)
    requires
        0 <= i <= data.len(),
    ensures
        be_value(data.subrange(0, i)) <= be_value(data),
    decreases data.len() - i,
{
    if i < data.len() {
        lemma_be_value_prefix(data, i + 1);
        assert(data.subrange(0, i + 1).drop_last() =~= data.subrange(0, i));
        assert(be_value(data.subrange(0, i + 1)) >= be_value(data.subrange(0, i))) by (nonlinear_arith)
            requires
                be_value(data.subrange(0, i + 1)) == be_value(data.subrange(0, i)) * 256 + data.subrange(
                    0,
                    i + 1,
                ).last() as nat,
        ;
    } else {
        assert(data.subrange(0, i) =~= data);
    }
}

/// A zero octet in front does not change the number.
pub proof fn lemma_be_value_zero_front(data: Seq<u8>)
    ensures
        be_value(seq![0u8] + data) == be_value(data),
    decreases data.len(),
{
    if data.len() == 0 {
        assert(seq![0u8] + data =~= seq![0u8]);
        assert(seq![0u8].drop_last() =~= Seq::<u8>::empty());
        reveal_with_fuel(be_value, 2);
    } else {
        lemma_be_value_zero_front(data.drop_last());
        assert((seq![0u8] + data).drop_last() =~= seq![0u8] + data.drop_last());
    }
}

/// The octets of a number stand for that number, and the first of them is
/// zero only for zero.
pub proof fn lemma_be_bytes_value(v: nat)
    ensures
        be_value(be_bytes(v)) == v,
        be_bytes(v).len() >= 1,
        v >= 256 ==> be_bytes(v).len() >= 2 && be_bytes(v)[0] != 0,
        v < 256 ==> be_bytes(v) == seq![v as u8],
    decreases v,
{
    if v < 256 {
        assert(be_bytes(v).drop_last() =~= Seq::<u8>::empty());
        reveal_with_fuel(be_value, 2);
    } else {
        lemma_be_bytes_value(v / 256);
        lemma_be_value_push(be_bytes(v / 256), (v % 256) as u8);
        assert(be_bytes(v)[0] == be_bytes(v / 256)[0]);
        if v / 256 < 256 {
            assert(be_bytes(v / 256)[0] == (v / 256) as u8);
        }
    }
}

/// An unsigned number is read back from the content it is written as.
pub proof fn lemma_uint_round_trip(v: nat, max: nat)
    requires
        v <= max,
    ensures
        spec_parse_uint(uint_content(v), max) == Ok::<nat, ParseError>(v),
{
    lemma_be_bytes_value(v);
    if be_bytes(v)[0] >= 128 {
        lemma_be_value_zero_front(be_bytes(v));
    }
}

/// Whether `data` is the content of a non-negative INTEGER.
pub fn check_integer_content(data: &[u8]) -> (r: bool)
    ensures
        r == integer_content_ok(data@),
{
    if data.len() == 0 {
        return false;
    }
    if data.len() > 1 && ((data[0] == 0 && data[1] < 128) || (data[0] == 0xff && data[1] >= 128)) {
        return false;
    }
    data[0] < 128
}

/// Decodes the content of an INTEGER into a number not above `max`.
pub fn parse_uint(data: &[u8], max: u32) -> (r: Result<u32, ParseError>)
    ensures
        r matches Ok(v) ==> spec_parse_uint(data@, max as nat) == Ok::<nat, ParseError>(v as nat),
        r matches Err(e) ==> spec_parse_uint(data@, max as nat) == Err::<nat, ParseError>(e),
{
    if !check_integer_content(data) {
        return Err(ParseError::InvalidValue);
    }
    let mut acc: u64 = 0;
    let mut i: usize = 0;
    assert(data@.subrange(0, 0) =~= Seq::<u8>::empty());
    while i < data.len()
        invariant
            0 <= i <= data.len(),
            acc == be_value(data@.subrange(0, i as int)),
            acc <= max,
            integer_content_ok(data@),
        decreases data.len() - i,
    {
        let next: u64 = acc * 256 + data[i] as u64;
        proof {
            assert(data@.subrange(0, i + 1).drop_last() =~= data@.subrange(0, i as int));
            assert(next == be_value(data@.subrange(0, i + 1)));
        }
        if next > max as u64 {
            proof {
                lemma_be_value_prefix(data@, i + 1);
            }
            return Err(ParseError::IntegerOverflow);
        }
        acc = next;
        i = i + 1;
    }
    assert(data@.subrange(0, i as int) =~= data@);
    Ok(acc as u32)
}

/// The content of an unsigned INTEGER that holds `v`.
pub fn write_uint(v: u32) -> (r: Vec<u8>)
    ensures
        r@ == uint_content(v as nat),
{
    let mut digits: Vec<u8> = Vec::new();
    push_be_bytes(&mut digits, v as u64);
    proof {
        lemma_be_bytes_nonempty(v as nat);
        assert(digits@ =~= be_bytes(v as nat));
    }
    if digits[0] >= 128 {
        let mut out: Vec<u8> = Vec::new();
        out.push(0);
        let mut i: usize = 0;
        while i < digits.len()
            invariant
                0 <= i <= digits.len(),
                out@ == seq![0u8] + digits@.subrange(0, i as int),
            decreases digits.len() - i,
        {
            out.push(digits[i]);
            assert(out@ =~= seq![0u8] + digits@.subrange(0, i + 1));
            i = i + 1;
        }
        assert(digits@.subrange(0, i as int) =~= digits@);
        out
    } else {
        digits
    }
}

impl<'a> SimpleAsn1Readable<'a> for u32 {
    open spec fn spec_tag() -> Tag {
        spec_integer_tag()
    }

    open spec fn spec_parse_data(data: Seq<u8>) -> Result<u32, ParseError> {
        match spec_parse_uint(data, 0xffff_ffff) {
            Ok(v) => Ok(v as u32),
            Err(e) => Err(e),
        }
    }

    fn tag() -> (r: Tag) {
        integer_tag()
    }

    fn parse_data(data: &'a [u8]) -> (r: Result<Self, ParseError>) {
        parse_uint(data, 0xffff_ffff)
    }
}

impl<'a> SimpleAsn1Readable<'a> for u16 {
    open spec fn spec_tag() -> Tag {
        spec_integer_tag()
    }

    open spec fn spec_parse_data(data: Seq<u8>) -> Result<u16, ParseError> {
        match spec_parse_uint(data, 0xffff) {
            Ok(v) => Ok(v as u16),
            Err(e) => Err(e),
        }
    }

    fn tag() -> (r: Tag) {
        integer_tag()
    }

    fn parse_data(data: &'a [u8]) -> (r: Result<Self, ParseError>) {
        match parse_uint(data, 0xffff) {
            Ok(v) => Ok(v as u16),
            Err(e) => Err(e),
        }
    }
}

impl<'a> SimpleAsn1Readable<'a> for u8 {
    open spec fn spec_tag() -> Tag {
        spec_integer_tag()
    }

    open spec fn spec_parse_data(data: Seq<u8>) -> Result<u8, ParseError> {
        match spec_parse_uint(data, 0xff) {
            Ok(v) => Ok(v as u8),
            Err(e) => Err(e),
        }
    }

    fn tag() -> (r: Tag) {
        integer_tag()
    }

    fn parse_data(data: &'a [u8]) -> (r: Result<Self, ParseError>) {
        match parse_uint(data, 0xff) {
            Ok(v) => Ok(v as u8),
            Err(e) => Err(e),
        }
    }
}

impl SimpleAsn1Writable for u32 {
    open spec fn spec_write_tag() -> Tag {
        spec_integer_tag()
    }

    open spec fn spec_content(v: u32) -> Seq<u8> {
        uint_content(v as nat)
    }

    /// The content is put together here, with no call that can fail.
    open spec fn spec_content_owed(v: u32) -> bool {
        true
    }

    fn write_tag() -> (r: Tag) {
        integer_tag()
    }

    fn write_data(&self) -> (r: Result<Vec<u8>, WriteError>) {
        Ok(write_uint(*self))
    }
}

impl SimpleAsn1Writable for u16 {
    open spec fn spec_write_tag() -> Tag {
        spec_integer_tag()
    }

    open spec fn spec_content(v: u16) -> Seq<u8> {
        uint_content(v as nat)
    }

    /// The content is put together here, with no call that can fail.
    open spec fn spec_content_owed(v: u16) -> bool {
        true
    }

    fn write_tag() -> (r: Tag) {
        integer_tag()
    }

    fn write_data(&self) -> (r: Result<Vec<u8>, WriteError>) {
        Ok(write_uint(*self as u32))
    }
}

impl SimpleAsn1Writable for u8 {
    open spec fn spec_write_tag() -> Tag {
        spec_integer_tag()
    }

    open spec fn spec_content(v: u8) -> Seq<u8> {
        uint_content(v as nat)
    }

    /// The content is put together here, with no call that can fail.
    open spec fn spec_content_owed(v: u8) -> bool {
        true
    }

    fn write_tag() -> (r: Tag) {
        integer_tag()
    }

    fn write_data(&self) -> (r: Result<Vec<u8>, WriteError>) {
        Ok(write_uint(*self as u32))
    }
}

/// Copies a byte string.
pub fn copy_bytes(data: &[u8]) -> (r: Vec<u8>)
    ensures
        r@ == data@,
{
    let mut out: Vec<u8> = Vec::new();
    let mut i: usize = 0;
    while i < data.len()
        invariant
            0 <= i <= data.len(),
            out@ == data@.subrange(0, i as int),
        decreases data.len() - i,
    {
        out.push(data[i]);
        assert(out@ =~= data@.subrange(0, i + 1));
        i = i + 1;
    }
    assert(data@.subrange(0, i as int) =~= data@);
    out
}

/// The two byte strings, one after the other.
pub fn join_bytes(a: Vec<u8>, b: Vec<u8>) -> (r: Vec<u8>)
    ensures
        r@ == a@ + b@,
{
    let mut a = a;
    let mut b = b;
    a.append(&mut b);
    a
}

/// Whether two byte strings hold the same octets.
pub fn bytes_eq(a: &[u8], b: &[u8]) -> (r: bool)
    ensures
        r == (a@ == b@),
{
    if a.len() != b.len() {
        return false;
    }
    let mut i: usize = 0;
    while i < a.len()
        invariant
            0 <= i <= a.len(),
            a.len() == b.len(),
            a@.subrange(0, i as int) == b@.subrange(0, i as int),
        decreases a.len() - i,
    {
        if a[i] != b[i] {
            return false;
        }
        assert(a@.subrange(0, i + 1) =~= a@.subrange(0, i as int).push(a@[i as int]));
        assert(b@.subrange(0, i + 1) =~= b@.subrange(0, i as int).push(b@[i as int]));
        i = i + 1;
    }
    assert(a@.subrange(0, i as int) =~= a@);
    assert(b@.subrange(0, i as int) =~= b@);
    true
}

impl<'a> SimpleAsn1Readable<'a> for &'a [u8] {
    open spec fn spec_tag() -> Tag {
        spec_octet_string_tag()
    }

    open spec fn spec_parse_data(data: Seq<u8>) -> Result<Seq<u8>, ParseError> {
        Ok(data)
    }

    fn tag() -> (r: Tag) {
        octet_string_tag()
    }

    fn parse_data(data: &'a [u8]) -> (r: Result<Self, ParseError>) {
        assert(data.deep_view() =~= data@);
        Ok(data)
    }
}

impl<'a> SimpleAsn1Writable for &'a [u8] {
    open spec fn spec_write_tag() -> Tag {
        spec_octet_string_tag()
    }

    open spec fn spec_content(v: Seq<u8>) -> Seq<u8> {
        v
    }

    /// The content is put together here, with no call that can fail.
    open spec fn spec_content_owed(v: Seq<u8>) -> bool {
        true
    }

    fn write_tag() -> (r: Tag) {
        octet_string_tag()
    }

    fn write_data(&self) -> (r: Result<Vec<u8>, WriteError>) {
        assert(self.deep_view() =~= self@);
        Ok(copy_bytes(self))
    }
}

/// An unsigned integer of any size, as the content octets of its INTEGER.
#[derive(Clone, Copy, Debug, PartialEq, Eq, Hash)]
pub struct BigUint<'a> {
    data: &'a [u8],
}

impl<'a> View for BigUint<'a> {
    type V = Seq<u8>;

    closed spec fn view(&self) -> Seq<u8> {
        self.data@
    }
}

impl<'a> DeepView for BigUint<'a> {
    type V = Seq<u8>;

    open spec fn deep_view(&self) -> Seq<u8> {
        self@
    }
}

impl<'a> BigUint<'a> {
    #[verifier::type_invariant]
    spec fn well_formed(self) -> bool {
        integer_content_ok(self.data@)
    }

    /// The integer whose content octets are `data`, where they are the
    /// content of a non-negative INTEGER.
    pub fn new(data: &'a [u8]) -> (r: Option<BigUint<'a>>)
        ensures
            integer_content_ok(data@) ==> (r matches Some(v) && v@ == data@),
            !integer_content_ok(data@) ==> r.is_none(),
    {
        if check_integer_content(data) {
            Some(BigUint { data })
        } else {
            None
        }
    }

    /// The content octets: the number, most significant octet first.
    pub fn as_bytes(&self) -> (r: &'a [u8])
        ensures
            r@ == self@,
            integer_content_ok(self@),
    {
        proof {
            use_type_invariant(self);
        }
        self.data
    }
}

impl<'a> SimpleAsn1Readable<'a> for BigUint<'a> {
    open spec fn spec_tag() -> Tag {
        spec_integer_tag()
    }

    open spec fn spec_parse_data(data: Seq<u8>) -> Result<Seq<u8>, ParseError> {
        if integer_content_ok(data) {
            Ok(data)
        } else {
            Err(ParseError::InvalidValue)
        }
    }

    fn tag() -> (r: Tag) {
        integer_tag()
    }

    fn parse_data(data: &'a [u8]) -> (r: Result<Self, ParseError>) {
        match BigUint::new(data) {
            Some(v) => Ok(v),
            None => Err(ParseError::InvalidValue),
        }
    }
}

impl<'a> SimpleAsn1Writable for BigUint<'a> {
    open spec fn spec_write_tag() -> Tag {
        spec_integer_tag()
    }

    open spec fn spec_content(v: Seq<u8>) -> Seq<u8> {
        v
    }

    /// The content is put together here, with no call that can fail.
    open spec fn spec_content_owed(v: Seq<u8>) -> bool {
        true
    }

    fn write_tag() -> (r: Tag) {
        integer_tag()
    }

    fn write_data(&self) -> (r: Result<Vec<u8>, WriteError>) {
        Ok(copy_bytes(self.as_bytes()))
    }
}

/// A SEQUENCE taken as its content octets, not looked into.
#[derive(Clone, Copy, Debug, PartialEq, Eq, Hash)]
pub struct Sequence<'a> {
    data: &'a [u8],
}

impl<'a> View for Sequence<'a> {
    type V = Seq<u8>;

    closed spec fn view(&self) -> Seq<u8> {
        self.data@
    }
}

impl<'a> DeepView for Sequence<'a> {
    type V = Seq<u8>;

    open spec fn deep_view(&self) -> Seq<u8> {
        self@
    }
}

impl<'a> Sequence<'a> {
    /// The SEQUENCE whose content octets are `data`.
    pub fn new(data: &'a [u8]) -> (r: Sequence<'a>)
        ensures
            r@ == data@,
    {
        Sequence { data }
    }

    /// The content octets.
    pub fn data(&self) -> (r: &'a [u8])
        ensures
            r@ == self@,
    {
        self.data
    }
}

impl<'a> SimpleAsn1Readable<'a> for Sequence<'a> {
    open spec fn spec_tag() -> Tag {
        spec_sequence_tag()
    }

    open spec fn spec_parse_data(data: Seq<u8>) -> Result<Seq<u8>, ParseError> {
        Ok(data)
    }

    fn tag() -> (r: Tag) {
        sequence_tag()
    }

    fn parse_data(data: &'a [u8]) -> (r: Result<Self, ParseError>) {
        Ok(Sequence { data })
    }
}

impl<'a> SimpleAsn1Writable for Sequence<'a> {
    open spec fn spec_write_tag() -> Tag {
        spec_sequence_tag()
    }

    open spec fn spec_content(v: Seq<u8>) -> Seq<u8> {
        v
    }

    /// The content is put together here, with no call that can fail.
    open spec fn spec_content_owed(v: Seq<u8>) -> bool {
        true
    }

    fn write_tag() -> (r: Tag) {
        sequence_tag()
    }

    fn write_data(&self) -> (r: Result<Vec<u8>, WriteError>) {
        Ok(copy_bytes(self.data))
    }
}

} // verus!
