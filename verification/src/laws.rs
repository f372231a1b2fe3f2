//! What holds of the codec of algorithm identifiers: what is written is
//! read back, defaults are left out, and unknown algorithms pass through
//! unchanged.

use crate::algorithm::{
    algorithm_parameters_view, lemma_read_optional_sound, params_shape, spec_algorithm, spec_algorithm_content,
    spec_algorithm_encoding, spec_default_hash, spec_default_mask_gen, spec_default_rsa_pss,
    spec_default_salt_length, spec_default_trailer_field, spec_hash_field, spec_known, spec_mask_gen_content,
    spec_mask_gen_field, spec_parameters_encoding, spec_parse_algorithm_identifier, spec_parse_mask_gen,
    spec_parse_rsa_pss, spec_parse_wrapped_algorithm, spec_parse_wrapped_mask_gen,
    spec_read_algorithm_identifier, spec_read_explicit_uint, spec_read_optional_tlv, spec_read_parameters,
    spec_rsa_pss_content, spec_shape, spec_uint_field, AlgorithmParameters, AlgorithmView,
    MaskGenAlgorithmView, ParamsShape, ParamsView, RsaPssParametersView,
};
use crate::codec::{
    lemma_parse_simple_element, lemma_parse_simple_sound, spec_parse_simple, spec_read_optional,
};
use crate::der::{element, lemma_first_element, max_content_len, spec_peek_tag};
use crate::dh::{
    lemma_basic_dh_params_round_trip, lemma_dhx_params_round_trip, lemma_dss_params_round_trip, lemma_peek_empty,
    spec_basic_dh_params_content, spec_dhx_params_content, spec_dss_params_content,
};
use crate::ec::{lemma_ec_parameters_round_trip, spec_ec_parameters_encoding};
use crate::error::ParseError;
use crate::oid::{lemma_lookup_known, lemma_oid_round_trip, oid_accepted, spec_lookup, spec_parse_oid, KnownOid};
use crate::primitive::{
    lemma_uint_round_trip, spec_explicit_tag, spec_integer_tag, spec_null_tag, spec_octet_string_tag, spec_oid_tag,
    spec_sequence_tag, uint_content,
};
use vstd::prelude::*;

verus! {

/// An algorithm identifier as decoding yields it: its object identifier is
/// one that is held, its parameters have the shape that the identifier
/// decides, and so on for what the parameters hold.
pub open spec fn algorithm_valid(v: AlgorithmView) -> bool
    decreases v, 1nat,
{
    &&& oid_accepted(v.oid)
    &&& spec_algorithm(v.oid) == (v.oid, params_shape(v.params))
    &&& params_valid(v.params)
}

/// What the parameters hold is valid.
pub open spec fn params_valid(p: ParamsView) -> bool
    decreases p, 0nat,
{
    match p {
        ParamsView::Ec(e) => e.valid(),
        ParamsView::RsaPss(Some(b)) => rsa_pss_valid(*b),
        ParamsView::Dsa(d) => d.valid(),
        ParamsView::Dh(d) => d.valid(),
        ParamsView::DhKeyAgreement(d) => d.valid(),
        _ => true,
    }
}

/// The object identifier is one that is held, and the algorithm is valid.
pub open spec fn mask_gen_valid(m: MaskGenAlgorithmView) -> bool
    decreases m, 0nat,
{
    oid_accepted(m.oid) && algorithm_valid(m.params)
}

/// The hash algorithm and the mask generation are valid.
pub open spec fn rsa_pss_valid(p: RsaPssParametersView) -> bool
    decreases p, 0nat,
{
    algorithm_valid(p.hash_algorithm) && mask_gen_valid(p.mask_gen_algorithm)
}

/// A variant of a known algorithm, with parameters of its shape, is valid
/// as far as the identifier goes.
pub proof fn lemma_known_algorithm(k: KnownOid)
    requires
        k != KnownOid::RsaWithSha1Alt,
    ensures
        spec_algorithm(k.spec_der()) == (k.spec_der(), spec_shape(k)),
        oid_accepted(k.spec_der()),
{
    lemma_lookup_known(k);
}

/// The defaults of RSASSA-PSS are valid.
pub proof fn lemma_defaults_valid()
    ensures
        algorithm_valid(spec_default_hash()),
        mask_gen_valid(spec_default_mask_gen()),
        rsa_pss_valid(spec_default_rsa_pss()),
{
    lemma_known_algorithm(KnownOid::Sha1);
    lemma_lookup_known(KnownOid::Mgf1);
}

/// What is read as an algorithm identifier is valid.
pub proof fn lemma_decoded_algorithm_valid(data: Seq<u8>)
    ensures
        spec_read_algorithm_identifier(data) matches Ok(x) ==> algorithm_valid(x.0),
    decreases data.len(), 0nat,
{
    lemma_parse_simple_sound(spec_sequence_tag(), data);
    if let Ok(x) = spec_parse_simple(spec_sequence_tag(), data) {
        lemma_decoded_content_valid(x.0);
    }
}

/// What the content of an algorithm identifier is decoded to is valid.
pub proof fn lemma_decoded_content_valid(data: Seq<u8>)
    ensures
        spec_parse_algorithm_identifier(data) matches Ok(v) ==> algorithm_valid(v),
    decreases data.len(), 0nat,
{
    lemma_parse_simple_sound(spec_oid_tag(), data);
    if let Ok(x) = spec_parse_simple(spec_oid_tag(), data) {
        if let Ok(oid) = spec_parse_oid(x.0) {
            lemma_decoded_parameters_valid(oid, x.1);
        }
    }
}

/// The parameters that are read after an object identifier that is held
/// make a valid algorithm identifier.
pub proof fn lemma_decoded_parameters_valid(oid: Seq<u8>, data: Seq<u8>)
    requires
        oid_accepted(oid),
    ensures
        spec_read_parameters(oid, data) matches Ok(x) ==> algorithm_valid(x.0),
    decreases data.len(), 0nat,
{
    crate::oid::lemma_lookup_sound(oid);
    match spec_lookup(oid) {
        Some(k) => {
            lemma_lookup_known(crate::algorithm::spec_canonical(k));
        },
        None => {},
    }
    if spec_algorithm(oid).1 == ParamsShape::RsaPss {
        lemma_read_optional_sound(spec_sequence_tag(), data);
        if let Ok(x) = spec_read_optional(spec_sequence_tag(), data) {
            if let Some(c) = x.0 {
                lemma_decoded_rsa_pss_valid(c);
            }
        }
    }
}

/// What is decoded as RSASSA-PSS parameters is valid.
pub proof fn lemma_decoded_rsa_pss_valid(data: Seq<u8>)
    ensures
        spec_parse_rsa_pss(data) matches Ok(p) ==> rsa_pss_valid(p),
    decreases data.len(), 0nat,
{
    lemma_defaults_valid();
    lemma_read_optional_sound(spec_explicit_tag(0), data);
    if let Ok(f0) = spec_read_optional(spec_explicit_tag(0), data) {
        if let Some(inner) = f0.0 {
            lemma_decoded_algorithm_valid(inner);
        }
        lemma_read_optional_sound(spec_explicit_tag(1), f0.1);
        if let Ok(f1) = spec_read_optional(spec_explicit_tag(1), f0.1) {
            if let Some(inner) = f1.0 {
                lemma_parse_simple_sound(spec_sequence_tag(), inner);
                if let Ok(m) = spec_parse_simple(spec_sequence_tag(), inner) {
                    lemma_parse_simple_sound(spec_oid_tag(), m.0);
                    if let Ok(x) = spec_parse_simple(spec_oid_tag(), m.0) {
                        lemma_decoded_algorithm_valid(x.1);
                    }
                }
            }
        }
    }
}

/// `data` does not begin with the explicit tag of a field numbered `n` or
/// lower.
pub open spec fn no_field_upto(data: Seq<u8>, n: int) -> bool {
    forall|j: u32| j <= n ==> spec_peek_tag(data) != Some(#[trigger] spec_explicit_tag(j))
}

/// A field that is left out is read as absent, where what follows belongs
/// to later fields.
pub proof fn lemma_absent_field(n: u32, data: Seq<u8>)
    requires
        no_field_upto(data, n as int),
    ensures
        spec_read_optional(spec_explicit_tag(n), data) == Ok::<(Option<Seq<u8>>, Seq<u8>), ParseError>((None, data)),
{
    assert(spec_peek_tag(data) != Some(spec_explicit_tag(n)));
}

/// A field that is written is read as what it wraps.
pub proof fn lemma_present_field(n: u32, inner: Seq<u8>, rest: Seq<u8>)
    requires
        inner.len() <= max_content_len(),
    ensures
        spec_read_optional(spec_explicit_tag(n), element(spec_explicit_tag(n), inner) + rest) == Ok::<
            (Option<Seq<u8>>, Seq<u8>),
            ParseError,
        >((Some(inner), rest)),
        no_field_upto(element(spec_explicit_tag(n), inner) + rest, n - 1),
{
    lemma_parse_simple_element(spec_explicit_tag(n), inner, rest);
}

/// Nothing begins an empty byte string, so no field does.
pub proof fn lemma_empty_no_field(n: int)
    ensures
        no_field_upto(Seq::<u8>::empty(), n),
{
    lemma_peek_empty();
}

/// An unsigned integer field is read back: as absent where it has its
/// default, else as its value.
pub proof fn lemma_uint_field_round_trip(n: u32, v: nat, default: nat, max: nat, rest: Seq<u8>)
    requires
        v <= max,
        no_field_upto(rest, n as int),
        spec_uint_field(n, v, default).len() <= max_content_len(),
    ensures
        spec_read_explicit_uint(n, max, spec_uint_field(n, v, default) + rest) == Ok::<
            (Option<nat>, Seq<u8>),
            ParseError,
        >((if v == default { None } else { Some(v) }, rest)),
        no_field_upto(spec_uint_field(n, v, default) + rest, n - 1),
{
    if v == default {
        assert(spec_uint_field(n, v, default) + rest =~= rest);
        lemma_absent_field(n, rest);
    } else {
        let digits = uint_content(v);
        let inner = element(spec_integer_tag(), digits);
        lemma_present_field(n, inner, rest);
        assert(inner =~= inner + Seq::<u8>::empty());
        lemma_parse_simple_element(spec_integer_tag(), digits, Seq::<u8>::empty());
        lemma_uint_round_trip(v, max);
    }
}

/// An algorithm identifier is read back from what it is written as,
/// whatever follows it.
pub proof fn lemma_algorithm_round_trip(v: AlgorithmView, rest: Seq<u8>)
    requires
        algorithm_valid(v),
        spec_algorithm_encoding(v).len() <= max_content_len(),
    ensures
        spec_read_algorithm_identifier(spec_algorithm_encoding(v) + rest) == Ok::<
            (AlgorithmView, Seq<u8>),
            ParseError,
        >((v, rest)),
    decreases v, 2nat,
{
    lemma_parse_simple_element(spec_sequence_tag(), spec_algorithm_content(v), rest);
    lemma_algorithm_content_round_trip(v);
}

/// The content of an algorithm identifier is decoded to the identifier it
/// was written from.
pub proof fn lemma_algorithm_content_round_trip(v: AlgorithmView)
    requires
        algorithm_valid(v),
        spec_algorithm_content(v).len() <= max_content_len(),
    ensures
        spec_parse_algorithm_identifier(spec_algorithm_content(v)) == Ok::<AlgorithmView, ParseError>(v),
    decreases v, 1nat,
{
    let params = spec_parameters_encoding(v.params);
    lemma_parse_simple_element(spec_oid_tag(), v.oid, params);
    lemma_oid_round_trip(v.oid);
    lemma_parameters_round_trip(v.oid, v.params);
}

/// Parameters are read back from what they are written as, where nothing
/// follows them.
pub proof fn lemma_parameters_round_trip(oid: Seq<u8>, p: ParamsView)
    requires
        spec_algorithm(oid) == (oid, params_shape(p)),
        params_valid(p),
        spec_parameters_encoding(p).len() <= max_content_len(),
    ensures
        spec_read_parameters(oid, spec_parameters_encoding(p)) == Ok::<(AlgorithmView, Seq<u8>), ParseError>(
            (AlgorithmView { oid, params: p }, Seq::empty()),
        ),
    decreases p, 0nat,
{
    let empty = Seq::<u8>::empty();
    let data = spec_parameters_encoding(p);
    lemma_peek_empty();
    match p {
        ParamsView::Absent => {},
        ParamsView::Null(present) => {
            if present {
                assert(data =~= element(spec_null_tag(), empty) + empty);
                lemma_parse_simple_element(spec_null_tag(), empty, empty);
            }
        },
        ParamsView::Ec(e) => {
            assert(data =~= spec_ec_parameters_encoding(e) + empty);
            lemma_ec_parameters_round_trip(e, empty);
        },
        ParamsView::Iv(iv) => {
            assert(data =~= element(spec_octet_string_tag(), iv) + empty);
            lemma_parse_simple_element(spec_octet_string_tag(), iv, empty);
        },
        ParamsView::RsaPss(None) => {},
        ParamsView::RsaPss(Some(b)) => {
            let content = spec_rsa_pss_content(*b);
            assert(data =~= element(spec_sequence_tag(), content) + empty);
            lemma_parse_simple_element(spec_sequence_tag(), content, empty);
            lemma_rsa_pss_round_trip(*b);
        },
        ParamsView::Dsa(d) => {
            let content = spec_dss_params_content(d);
            assert(data =~= element(spec_sequence_tag(), content) + empty);
            lemma_parse_simple_element(spec_sequence_tag(), content, empty);
            lemma_dss_params_round_trip(d);
        },
        ParamsView::Dh(d) => {
            let content = spec_dhx_params_content(d);
            assert(data =~= element(spec_sequence_tag(), content) + empty);
            lemma_parse_simple_element(spec_sequence_tag(), content, empty);
            lemma_dhx_params_round_trip(d);
        },
        ParamsView::DhKeyAgreement(d) => {
            let content = spec_basic_dh_params_content(d);
            assert(data =~= element(spec_sequence_tag(), content) + empty);
            lemma_parse_simple_element(spec_sequence_tag(), content, empty);
            lemma_basic_dh_params_round_trip(d);
        },
        ParamsView::Any(None) => {},
        ParamsView::Any(Some(t)) => {
            assert(data =~= element(t.tag, t.data) + empty);
            lemma_first_element(t.tag, t.data, empty);
        },
    }
}

/// A MaskGenAlgorithm is decoded to what it was written from.
pub proof fn lemma_mask_gen_round_trip(m: MaskGenAlgorithmView)
    requires
        mask_gen_valid(m),
        spec_mask_gen_content(m).len() <= max_content_len(),
    ensures
        spec_parse_mask_gen(spec_mask_gen_content(m)) == Ok::<MaskGenAlgorithmView, ParseError>(m),
    decreases m, 3nat,
{
    let inner = spec_algorithm_encoding(m.params);
    lemma_parse_simple_element(spec_oid_tag(), m.oid, inner);
    lemma_oid_round_trip(m.oid);
    assert(inner =~= inner + Seq::<u8>::empty());
    lemma_algorithm_round_trip(m.params, Seq::<u8>::empty());
}

/// The hash algorithm field is read back: as the default where it was left
/// out, else as what was written.
pub proof fn lemma_hash_field_round_trip(p: RsaPssParametersView, rest: Seq<u8>)
    requires
        rsa_pss_valid(p),
        no_field_upto(rest, 0),
        spec_hash_field(p).len() <= max_content_len(),
    ensures
        spec_read_optional(spec_explicit_tag(0), spec_hash_field(p) + rest) matches Ok(f) && f.1 == rest && (match f.0 {
            None => Ok(spec_default_hash()),
            Some(inner) => spec_parse_wrapped_algorithm(inner),
        }) == Ok::<AlgorithmView, ParseError>(p.hash_algorithm),
    decreases p, 0nat,
{
    if p.hash_algorithm == spec_default_hash() {
        assert(spec_hash_field(p) + rest =~= rest);
        lemma_absent_field(0, rest);
    } else {
        let inner = spec_algorithm_encoding(p.hash_algorithm);
        lemma_present_field(0, inner, rest);
        assert(inner =~= inner + Seq::<u8>::empty());
        lemma_algorithm_round_trip(p.hash_algorithm, Seq::<u8>::empty());
    }
}

/// The mask generation field is read back: as the default where it was
/// left out, else as what was written.
pub proof fn lemma_mask_gen_field_round_trip(p: RsaPssParametersView, rest: Seq<u8>)
    requires
        rsa_pss_valid(p),
        no_field_upto(rest, 1),
        spec_mask_gen_field(p).len() <= max_content_len(),
    ensures
        spec_read_optional(spec_explicit_tag(1), spec_mask_gen_field(p) + rest) matches Ok(f) && f.1 == rest && (
        match f.0 {
            None => Ok(spec_default_mask_gen()),
            Some(inner) => spec_parse_wrapped_mask_gen(inner),
        }) == Ok::<MaskGenAlgorithmView, ParseError>(p.mask_gen_algorithm),
        no_field_upto(spec_mask_gen_field(p) + rest, 0),
    decreases p, 0nat,
{
    if p.mask_gen_algorithm == spec_default_mask_gen() {
        assert(spec_mask_gen_field(p) + rest =~= rest);
        lemma_absent_field(1, rest);
    } else {
        let content = spec_mask_gen_content(p.mask_gen_algorithm);
        let inner = element(spec_sequence_tag(), content);
        lemma_present_field(1, inner, rest);
        assert(inner =~= inner + Seq::<u8>::empty());
        lemma_parse_simple_element(spec_sequence_tag(), content, Seq::<u8>::empty());
        lemma_mask_gen_round_trip(p.mask_gen_algorithm);
    }
}

/// RSASSA-PSS parameters are decoded to what they were written from,
/// whichever of their fields have their defaults.
pub proof fn lemma_rsa_pss_round_trip(p: RsaPssParametersView)
    requires
        rsa_pss_valid(p),
        spec_rsa_pss_content(p).len() <= max_content_len(),
    ensures
        spec_parse_rsa_pss(spec_rsa_pss_content(p)) == Ok::<RsaPssParametersView, ParseError>(p),
    decreases p, 1nat,
{
    let empty = Seq::<u8>::empty();
    let f0 = spec_hash_field(p);
    let f1 = spec_mask_gen_field(p);
    let f2 = spec_uint_field(2, p.salt_length as nat, spec_default_salt_length() as nat);
    let f3 = spec_uint_field(3, p.trailer_field as nat, spec_default_trailer_field() as nat);
    let t3 = f3 + empty;
    let t2 = f2 + t3;
    let t1 = f1 + t2;
    let t0 = f0 + t1;
    assert(spec_rsa_pss_content(p) =~= t0);
    lemma_empty_no_field(3);
    lemma_uint_field_round_trip(3, p.trailer_field as nat, spec_default_trailer_field() as nat, 0xff, empty);
    lemma_uint_field_round_trip(2, p.salt_length as nat, spec_default_salt_length() as nat, 0xffff, t3);
    lemma_mask_gen_field_round_trip(p, t2);
    lemma_hash_field_round_trip(p, t1);
}

/// What was decoded is, written and decoded again, the same.
pub proof fn lemma_decode_encode_decode(data: Seq<u8>, v: AlgorithmView, rest: Seq<u8>, after: Seq<u8>)
    requires
        spec_read_algorithm_identifier(data) == Ok::<(AlgorithmView, Seq<u8>), ParseError>((v, rest)),
        spec_algorithm_encoding(v).len() <= max_content_len(),
    ensures
        spec_read_algorithm_identifier(spec_algorithm_encoding(v) + after) == Ok::<
            (AlgorithmView, Seq<u8>),
            ParseError,
        >((v, after)),
{
    lemma_decoded_algorithm_valid(data);
    lemma_algorithm_round_trip(v, after);
}

/// Parameters in which every field has its default are written as an empty
/// content.
pub proof fn lemma_defaults_elided()
    ensures
        spec_rsa_pss_content(spec_default_rsa_pss()) == Seq::<u8>::empty(),
{
    assert(spec_rsa_pss_content(spec_default_rsa_pss()) =~= Seq::<u8>::empty());
}

/// Parameters in which only the salt length differs from its default are
/// written as one explicitly tagged field, which holds the salt length.
pub proof fn lemma_only_salt_length_written(p: RsaPssParametersView)
    requires
        p.hash_algorithm == spec_default_hash(),
        p.mask_gen_algorithm == spec_default_mask_gen(),
        p.trailer_field == spec_default_trailer_field(),
        p.salt_length != spec_default_salt_length(),
    ensures
        spec_rsa_pss_content(p) == element(
            spec_explicit_tag(2),
            element(spec_integer_tag(), uint_content(p.salt_length as nat)),
        ),
{
    assert(spec_rsa_pss_content(p) =~= element(
        spec_explicit_tag(2),
        element(spec_integer_tag(), uint_content(p.salt_length as nat)),
    ));
}

/// Every field of RSASSA-PSS parameters is written or left out by itself:
/// the content is the four fields one after the other, and a field is empty
/// exactly where it has its default.
pub proof fn lemma_fields_independent(p: RsaPssParametersView)
    ensures
        spec_rsa_pss_content(p) == spec_hash_field(p) + spec_mask_gen_field(p) + spec_uint_field(
            2,
            p.salt_length as nat,
            spec_default_salt_length() as nat,
        ) + spec_uint_field(3, p.trailer_field as nat, spec_default_trailer_field() as nat),
        spec_hash_field(p).len() == 0 <==> p.hash_algorithm == spec_default_hash(),
        spec_mask_gen_field(p).len() == 0 <==> p.mask_gen_algorithm == spec_default_mask_gen(),
        spec_uint_field(2, p.salt_length as nat, spec_default_salt_length() as nat).len() == 0 <==> p.salt_length
            == spec_default_salt_length(),
        spec_uint_field(3, p.trailer_field as nat, spec_default_trailer_field() as nat).len() == 0
            <==> p.trailer_field == spec_default_trailer_field(),
{
    crate::tag::lemma_identifier_nonempty(spec_explicit_tag(0));
    crate::tag::lemma_identifier_nonempty(spec_explicit_tag(1));
    crate::tag::lemma_identifier_nonempty(spec_explicit_tag(2));
    crate::tag::lemma_identifier_nonempty(spec_explicit_tag(3));
}

/// No two variants of known algorithms are written with the same object
/// identifier.
pub proof fn lemma_one_identifier_per_variant(p: AlgorithmParameters, q: AlgorithmParameters)
    requires
        spec_known(p).is_some(),
        spec_known(q).is_some(),
        algorithm_parameters_view(p).oid == algorithm_parameters_view(q).oid,
    ensures
        spec_known(p) == spec_known(q),
{
    crate::oid::lemma_known_injective(spec_known(p).unwrap(), spec_known(q).unwrap());
}

/// An object identifier that is not in the table is kept as it is, and the
/// parameters after it are taken as any one element or none.
pub proof fn lemma_unknown_oid_kept(oid: Seq<u8>, data: Seq<u8>)
    requires
        spec_lookup(oid).is_none(),
    ensures
        spec_read_parameters(oid, data) matches Ok(x) ==> x.0.oid == oid && x.0.params is Any,
        spec_read_parameters(oid, data) is Ok <==> spec_read_optional_tlv(data) is Ok,
{
}

/// An algorithm identifier with an object identifier that is not in the
/// table, and without parameters, is written as the octets it was decoded
/// from.
pub proof fn lemma_unknown_algorithm_unchanged(data: Seq<u8>, v: AlgorithmView)
    requires
        spec_read_algorithm_identifier(data) == Ok::<(AlgorithmView, Seq<u8>), ParseError>((v, Seq::empty())),
        spec_lookup(v.oid).is_none(),
        v.params == ParamsView::Any(None),
    ensures
        spec_algorithm_encoding(v) == data,
{
    let empty = Seq::<u8>::empty();
    lemma_parse_simple_sound(spec_sequence_tag(), data);
    let outer = spec_parse_simple(spec_sequence_tag(), data)->Ok_0;
    let content = outer.0;
    assert(data =~= element(spec_sequence_tag(), content));
    lemma_parse_simple_sound(spec_oid_tag(), content);
    let first = spec_parse_simple(spec_oid_tag(), content)->Ok_0;
    let oid = spec_parse_oid(first.0)->Ok_0;
    assert(oid == first.0);
    crate::oid::lemma_lookup_sound(oid);
    let after = spec_read_parameters(oid, first.1)->Ok_0;
    assert(after.0 == v);
    assert(after.1 =~= empty);
    if spec_lookup(oid).is_some() {
        let k = spec_lookup(oid)->Some_0;
        lemma_lookup_known(crate::algorithm::spec_canonical(k));
    }
    assert(spec_lookup(oid).is_none());
    assert(first.1 =~= empty);
    assert(content =~= element(spec_oid_tag(), v.oid));
    assert(spec_algorithm_content(v) =~= element(spec_oid_tag(), v.oid));
}

/// The older and the newer object identifier of RSA with SHA-1 are decoded
/// to the same value, which holds the newer one; so the newer one is what
/// is written.
pub proof fn lemma_rsa_with_sha1_alias(data: Seq<u8>)
    ensures
        spec_read_parameters(KnownOid::RsaWithSha1Alt.spec_der(), data) == spec_read_parameters(
            KnownOid::RsaWithSha1.spec_der(),
            data,
        ),
        spec_read_parameters(KnownOid::RsaWithSha1Alt.spec_der(), data) matches Ok(x) ==> {
            &&& x.0.oid == KnownOid::RsaWithSha1.spec_der()
            &&& x.0.params is Null
            &&& spec_algorithm_content(x.0) == element(spec_oid_tag(), KnownOid::RsaWithSha1.spec_der())
                + spec_parameters_encoding(x.0.params)
        },
{
    lemma_lookup_known(KnownOid::RsaWithSha1Alt);
    lemma_lookup_known(KnownOid::RsaWithSha1);
}

} // verus!
