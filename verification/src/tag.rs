//! DER tags and their identifier octets.

use vstd::prelude::*;

verus! {

/// The class of a tag.
#[derive(Clone, Copy, Debug, PartialEq, Eq, Hash, Structural)]
pub enum TagClass {
    Universal,
    Application,
    ContextSpecific,
    Private,
}

/// A tag: class, form and number.
#[derive(Clone, Copy, Debug, PartialEq, Eq, Hash, Structural)]
pub struct Tag {
    pub class: TagClass,
    pub constructed: bool,
    pub value: u32,
}

/// The two class bits, as a number.
pub open spec fn class_number(class: TagClass) -> nat {
    match class {
        TagClass::Universal => 0,
        TagClass::Application => 1,
        TagClass::ContextSpecific => 2,
        TagClass::Private => 3,
    }
}

/// The base-128 digits of `v` that come before the last one, most significant
/// first, each with the continuation bit set.
pub open spec fn base128_prefix(v: nat) -> Seq<u8>
    decreases v,
{
    if v == 0 {
        Seq::empty()
    } else {
        base128_prefix(v / 128).push((128 + v % 128) as u8)
    }
}

/// `v` in base 128, most significant digit first, the continuation bit set on
/// every octet but the last.
pub open spec fn base128(v: nat) -> Seq<u8> {
    base128_prefix(v / 128).push((v % 128) as u8)
}

/// The first identifier octet: class, form, and the number or the escape 31.
pub open spec fn lead_octet(tag: Tag) -> nat {
    64 * class_number(tag.class) + (if tag.constructed { 32nat } else { 0nat }) + (if tag.value < 31 {
        tag.value as nat
    } else {
        31nat
    })
}

/// The identifier octets of a tag: one octet for numbers below 31, else the
/// escape octet followed by the number in base 128.
pub open spec fn identifier_octets(tag: Tag) -> Seq<u8> {
    if tag.value < 31 {
        seq![lead_octet(tag) as u8]
    } else {
        seq![lead_octet(tag) as u8] + base128(tag.value as nat)
    }
}

/// Every leading digit has the continuation bit set.
pub proof fn lemma_base128_prefix_high(v: nat, i: int)
    requires
        0 <= i < base128_prefix(v).len(),
    ensures
        base128_prefix(v)[i] >= 128,
    decreases v,
{
    if v != 0 {
        if i < base128_prefix(v / 128).len() {
            lemma_base128_prefix_high(v / 128, i);
        }
    }
}

/// The leading digits tell the number they were taken from.
pub proof fn lemma_base128_prefix_injective(a: nat, b: nat)
    requires
        base128_prefix(a) == base128_prefix(b),
    ensures
        a == b,
    decreases a,
{
    if a == 0 {
        if b != 0 {
            assert(base128_prefix(b).len() == base128_prefix(b / 128).len() + 1);
        }
    } else {
        if b == 0 {
            assert(base128_prefix(a).len() == base128_prefix(a / 128).len() + 1);
        } else {
            let pa = base128_prefix(a / 128);
            let pb = base128_prefix(b / 128);
            let xa = (128 + a % 128) as u8;
            let xb = (128 + b % 128) as u8;
            assert(pa.push(xa).drop_last() =~= pa);
            assert(pb.push(xb).drop_last() =~= pb);
            assert(pa.push(xa).last() == xa);
            assert(pb.push(xb).last() == xb);
            lemma_base128_prefix_injective(a / 128, b / 128);
        }
    }
}

/// No number's base-128 form is the start of another's.
pub proof fn lemma_base128_prefix_free(a: nat, r1: Seq<u8>, b: nat, r2: Seq<u8>)
    requires
        base128(a) + r1 == base128(b) + r2,
    ensures
        a == b,
        r1 == r2,
{
    let pa = base128_prefix(a / 128);
    let pb = base128_prefix(b / 128);
    let s = base128(a) + r1;
    let la = pa.len() as int;
    let lb = pb.len() as int;
    assert(s[la] == (a % 128) as u8);
    assert((base128(b) + r2)[lb] == (b % 128) as u8);
    if la < lb {
        lemma_base128_prefix_high(b / 128, la);
        assert((base128(b) + r2)[la] == pb[la]);
    }
    if lb < la {
        lemma_base128_prefix_high(a / 128, lb);
        assert(s[lb] == pa[lb]);
    }
    assert(pa =~= pb) by {
        assert forall|i: int| 0 <= i < la implies pa[i] == pb[i] by {
            assert(s[i] == pa[i]);
            assert((base128(b) + r2)[i] == pb[i]);
        }
    }
    lemma_base128_prefix_injective(a / 128, b / 128);
    assert(r1 =~= r2) by {
        assert(s.len() == la + 1 + r1.len());
        assert((base128(b) + r2).len() == lb + 1 + r2.len());
        assert forall|i: int| 0 <= i < r1.len() implies r1[i] == r2[i] by {
            assert(s[la + 1 + i] == r1[i]);
            assert((base128(b) + r2)[lb + 1 + i] == r2[i]);
        }
    }
}

/// A tag has at least one identifier octet.
pub proof fn lemma_identifier_nonempty(tag: Tag)
    ensures
        identifier_octets(tag).len() >= 1,
        identifier_octets(tag)[0] == lead_octet(tag) as u8,
        lead_octet(tag) < 256,
{
}

/// The identifier octets tell the tag: no tag's octets are the start of
/// another's.
pub proof fn lemma_identifier_prefix_free(t1: Tag, r1: Seq<u8>, t2: Tag, r2: Seq<u8>)
    requires
        identifier_octets(t1) + r1 == identifier_octets(t2) + r2,
    ensures
        t1 == t2,
        r1 == r2,
{
    let s = identifier_octets(t1) + r1;
    let s2 = identifier_octets(t2) + r2;
    lemma_identifier_nonempty(t1);
    lemma_identifier_nonempty(t2);
    assert(s[0] == lead_octet(t1) as u8);
    assert(s2[0] == lead_octet(t2) as u8);
    assert(lead_octet(t1) == lead_octet(t2));
    assert(class_number(t1.class) == class_number(t2.class));
    assert(t1.class == t2.class);
    assert(t1.constructed == t2.constructed);
    if t1.value < 31 {
        assert(t2.value < 31);
        assert(r1 =~= s.subrange(1, s.len() as int));
        assert(r2 =~= s2.subrange(1, s2.len() as int));
    } else {
        assert(t2.value >= 31);
        let b1 = base128(t1.value as nat);
        let b2 = base128(t2.value as nat);
        assert(b1 + r1 =~= s.subrange(1, s.len() as int));
        assert(b2 + r2 =~= s2.subrange(1, s2.len() as int));
        lemma_base128_prefix_free(t1.value as nat, r1, t2.value as nat, r2);
    }
}

/// Appends to `out` the leading base-128 digits of `v`.
fn push_base128_prefix(out: &mut Vec<u8>, v: u32)
    ensures
        final(out)@ == old(out)@ + base128_prefix(v as nat),
    decreases v,
{
    if v != 0 {
        push_base128_prefix(out, v / 128);
        out.push(128 + (v % 128) as u8);
        assert(out@ =~= old(out)@ + base128_prefix(v as nat));
    } else {
        assert(out@ =~= old(out)@ + base128_prefix(v as nat));
    }
}

impl Tag {
    /// A tag of the universal class in primitive form.
    pub fn primitive(value: u32) -> (r: Tag)
        ensures
            r == (Tag { class: TagClass::Universal, constructed: false, value }),
    {
        Tag { class: TagClass::Universal, constructed: false, value }
    }

    /// A tag of the universal class in constructed form.
    pub fn constructed(value: u32) -> (r: Tag)
        ensures
            r == (Tag { class: TagClass::Universal, constructed: true, value }),
    {
        Tag { class: TagClass::Universal, constructed: true, value }
    }

    /// The context-specific, constructed tag that wraps an explicitly tagged
    /// field.
    pub fn explicit(value: u32) -> (r: Tag)
        ensures
            r == (Tag { class: TagClass::ContextSpecific, constructed: true, value }),
    {
        Tag { class: TagClass::ContextSpecific, constructed: true, value }
    }

    /// The class of the tag.
    pub fn class(&self) -> (r: TagClass)
        ensures
            r == self.class,
    {
        self.class
    }

    /// Whether the tag is of the constructed form.
    pub fn is_constructed(&self) -> (r: bool)
        ensures
            r == self.constructed,
    {
        self.constructed
    }

    /// The number of the tag.
    pub fn value(&self) -> (r: u32)
        ensures
            r == self.value,
    {
        self.value
    }

    /// The first identifier octet.
    fn lead(&self) -> (r: u8)
        ensures
            r == lead_octet(*self),
    {
        let class: u8 = match self.class {
            TagClass::Universal => 0,
            TagClass::Application => 64,
            TagClass::ContextSpecific => 128,
            TagClass::Private => 192,
        };
        let form: u8 = if self.constructed { 32 } else { 0 };
        let low: u8 = if self.value < 31 { self.value as u8 } else { 31 };
        class + form + low
    }

    /// The tag as one octet, where its number is below 31.
    pub fn as_u8(&self) -> (r: Option<u8>)
        ensures
            self.value < 31 ==> r == Some(lead_octet(*self) as u8),
            self.value >= 31 ==> r.is_none(),
    {
        if self.value >= 31 {
            None
        } else {
            Some(self.lead())
        }
    }

    /// The identifier octets of the tag.
    pub fn to_bytes(&self) -> (r: Vec<u8>)
        ensures
            r@ == identifier_octets(*self),
    {
        let mut out: Vec<u8> = Vec::new();
        out.push(self.lead());
        if self.value >= 31 {
            push_base128_prefix(&mut out, self.value / 128);
            out.push((self.value % 128) as u8);
        }
        assert(out@ =~= identifier_octets(*self));
        out
    }
}

} // verus!
