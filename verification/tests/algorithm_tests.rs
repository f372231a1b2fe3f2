use cryptography_x509::algorithm::{
    canonical, is_default_hash, is_default_mask_gen, is_valid_algorithm, is_valid_parameters, is_valid_rsa_pss, mgf1_with, pss_sha1_hash_alg, pss_sha1_mask_gen_alg,
    pss_sha256_hash_alg, pss_sha256_mask_gen_alg, pss_sha384_hash_alg, pss_sha384_mask_gen_alg, pss_sha512_hash_alg,
    pss_sha512_mask_gen_alg, shape, AlgorithmIdentifier, AlgorithmParameters, MaskGenAlgorithm, ParamsShape,
    RsaPssParameters,
};
use cryptography_x509::codec::{parse_single, write_single, Asn1Readable, SimpleAsn1Readable, SimpleAsn1Writable};
use cryptography_x509::der::Tlv;
use cryptography_x509::dh::{BasicDHParams, DHParams, DHXParams, DssParams, DssSignature};
use cryptography_x509::ec::EcParameters;
use cryptography_x509::error::ParseError;
use cryptography_x509::oid::{KnownOid, ObjectIdentifier};
use cryptography_x509::primitive::{BigUint, Sequence};
use cryptography_x509::structures::{AttributeTypeValue, BitString, SubjectPublicKeyInfo};
use cryptography_x509::tag::Tag;
use cryptography_x509::tlv::{RawTlv, WithTlv};
use std::hash::{Hash, Hasher};

fn el(tag: u8, content: &[u8]) -> Vec<u8> {
    let tag = asn1::Tag::from_bytes(&[tag]).unwrap().0;
    asn1::write(|w| w.write_tlv(tag, |dest| dest.push_slice(content))).unwrap()
}

fn cat(parts: &[&[u8]]) -> Vec<u8> {
    parts.iter().flat_map(|p| p.iter().copied()).collect()
}

fn alg(oid: KnownOid, params: &[u8]) -> Vec<u8> {
    el(0x30, &cat(&[&el(0x06, oid.der()), params]))
}

fn id(params: AlgorithmParameters<'_>) -> AlgorithmIdentifier<'_> {
    AlgorithmIdentifier { params }
}

fn decode(data: &[u8]) -> Result<AlgorithmParameters<'_>, ParseError> {
    parse_single::<AlgorithmIdentifier<'_>>(data).map(|a| a.params)
}

fn null_variants() -> Vec<(KnownOid, fn(Option<()>) -> AlgorithmParameters<'static>)> {
    vec![
        (KnownOid::Sha1, AlgorithmParameters::Sha1),
        (KnownOid::Sha224, AlgorithmParameters::Sha224),
        (KnownOid::Sha256, AlgorithmParameters::Sha256),
        (KnownOid::Sha384, AlgorithmParameters::Sha384),
        (KnownOid::Sha512, AlgorithmParameters::Sha512),
        (KnownOid::Sha3_224, AlgorithmParameters::Sha3_224),
        (KnownOid::Sha3_256, AlgorithmParameters::Sha3_256),
        (KnownOid::Sha3_384, AlgorithmParameters::Sha3_384),
        (KnownOid::Sha3_512, AlgorithmParameters::Sha3_512),
        (KnownOid::Rsa, AlgorithmParameters::Rsa),
        (KnownOid::EcDsaWithSha224, AlgorithmParameters::EcDsaWithSha224),
        (KnownOid::EcDsaWithSha256, AlgorithmParameters::EcDsaWithSha256),
        (KnownOid::EcDsaWithSha384, AlgorithmParameters::EcDsaWithSha384),
        (KnownOid::EcDsaWithSha512, AlgorithmParameters::EcDsaWithSha512),
        (KnownOid::RsaWithSha1, AlgorithmParameters::RsaWithSha1),
        (KnownOid::RsaWithSha224, AlgorithmParameters::RsaWithSha224),
        (KnownOid::RsaWithSha256, AlgorithmParameters::RsaWithSha256),
        (KnownOid::RsaWithSha384, AlgorithmParameters::RsaWithSha384),
        (KnownOid::RsaWithSha512, AlgorithmParameters::RsaWithSha512),
        (KnownOid::RsaWithSha3_224, AlgorithmParameters::RsaWithSha3_224),
        (KnownOid::RsaWithSha3_256, AlgorithmParameters::RsaWithSha3_256),
        (KnownOid::RsaWithSha3_384, AlgorithmParameters::RsaWithSha3_384),
        (KnownOid::RsaWithSha3_512, AlgorithmParameters::RsaWithSha3_512),
        (KnownOid::DsaWithSha224, AlgorithmParameters::DsaWithSha224),
        (KnownOid::DsaWithSha256, AlgorithmParameters::DsaWithSha256),
        (KnownOid::DsaWithSha384, AlgorithmParameters::DsaWithSha384),
        (KnownOid::DsaWithSha512, AlgorithmParameters::DsaWithSha512),
    ]
}

fn absent_variants() -> Vec<(KnownOid, AlgorithmParameters<'static>)> {
    vec![
        (KnownOid::Ed25519, AlgorithmParameters::Ed25519),
        (KnownOid::Ed448, AlgorithmParameters::Ed448),
        (KnownOid::X25519, AlgorithmParameters::X25519),
        (KnownOid::X448, AlgorithmParameters::X448),
        (KnownOid::EcDsaWithSha3_224, AlgorithmParameters::EcDsaWithSha3_224),
        (KnownOid::EcDsaWithSha3_256, AlgorithmParameters::EcDsaWithSha3_256),
        (KnownOid::EcDsaWithSha3_384, AlgorithmParameters::EcDsaWithSha3_384),
        (KnownOid::EcDsaWithSha3_512, AlgorithmParameters::EcDsaWithSha3_512),
    ]
}

#[test]
fn variants_with_an_optional_null() {
    for (oid, make) in null_variants() {
        assert_eq!(shape(oid), ParamsShape::Null);
        let with_null = alg(oid, b"\x05\x00");
        let without = alg(oid, b"");
        assert_eq!(decode(&with_null), Ok(make(Some(()))));
        assert_eq!(decode(&without), Ok(make(None)));
        assert_eq!(write_single(&id(make(Some(())))).unwrap(), with_null);
        assert_eq!(write_single(&id(make(None))).unwrap(), without);
        assert_eq!(id(make(None)).oid(), ObjectIdentifier::known(oid));
        assert_eq!(make(Some(())).item().as_der(), oid.der());
        assert_eq!(make(None).known(), Some(oid));
        // Parameters that are no NULL are left over.
        assert_eq!(decode(&alg(oid, b"\x02\x01\x00")), Err(ParseError::ExtraData));
        assert_eq!(decode(&alg(oid, b"\x05\x00\x05\x00")), Err(ParseError::ExtraData));
        assert_eq!(decode(&alg(oid, b"\x05\x01\x00")), Err(ParseError::InvalidValue));
        assert_eq!(decode(&alg(oid, b"\x05\x01")), Err(ParseError::ShortData { needed: 1 }));
    }
}

#[test]
fn variants_without_parameters() {
    for (oid, value) in absent_variants() {
        assert_eq!(shape(oid), ParamsShape::Absent);
        let data = alg(oid, b"");
        assert_eq!(decode(&data), Ok(value.clone()));
        assert_eq!(write_single(&id(value.clone())).unwrap(), data);
        assert_eq!(value.item().as_der(), oid.der());
        // Not even a NULL is taken.
        assert_eq!(decode(&alg(oid, b"\x05\x00")), Err(ParseError::ExtraData));
    }
}

#[test]
fn well_known_encodings() {
    assert_eq!(
        decode(b"\x30\x0d\x06\x09\x2a\x86\x48\x86\xf7\x0d\x01\x01\x0b\x05\x00"),
        Ok(AlgorithmParameters::RsaWithSha256(Some(())))
    );
    assert_eq!(
        decode(b"\x30\x0a\x06\x08\x2a\x86\x48\xce\x3d\x04\x03\x02"),
        Ok(AlgorithmParameters::EcDsaWithSha256(None))
    );
    // The same with the NULL that one encoder adds.
    assert_eq!(
        decode(b"\x30\x0c\x06\x08\x2a\x86\x48\xce\x3d\x04\x03\x02\x05\x00"),
        Ok(AlgorithmParameters::EcDsaWithSha256(Some(())))
    );
    assert_eq!(decode(b"\x30\x05\x06\x03\x2b\x65\x70"), Ok(AlgorithmParameters::Ed25519));
    assert_eq!(
        decode(b"\x30\x0d\x06\x09\x60\x86\x48\x01\x65\x03\x04\x02\x01\x05\x00"),
        Ok(AlgorithmParameters::Sha256(Some(())))
    );
    assert_eq!(
        write_single(&id(AlgorithmParameters::RsaWithSha256(Some(())))).unwrap(),
        b"\x30\x0d\x06\x09\x2a\x86\x48\x86\xf7\x0d\x01\x01\x0b\x05\x00"
    );
    assert_eq!(
        write_single(&id(AlgorithmParameters::Ed25519)).unwrap(),
        b"\x30\x05\x06\x03\x2b\x65\x70"
    );
}

#[test]
fn elliptic_curve_parameters() {
    let prime256v1 = ObjectIdentifier::from_der(b"\x2a\x86\x48\xce\x3d\x03\x01\x07").unwrap();
    let data = b"\x30\x13\x06\x07\x2a\x86\x48\xce\x3d\x02\x01\x06\x08\x2a\x86\x48\xce\x3d\x03\x01\x07";
    let value = AlgorithmParameters::Ec(EcParameters::NamedCurve(prime256v1));
    assert_eq!(decode(data), Ok(value.clone()));
    assert_eq!(write_single(&id(value)).unwrap(), data);

    let implicit = alg(KnownOid::Ec, b"\x05\x00");
    assert_eq!(decode(&implicit), Ok(AlgorithmParameters::Ec(EcParameters::ImplicitCurve(()))));
    assert_eq!(write_single(&id(AlgorithmParameters::Ec(EcParameters::ImplicitCurve(())))).unwrap(), implicit);

    let specified = alg(KnownOid::Ec, b"\x30\x03\x02\x01\x01");
    let value = AlgorithmParameters::Ec(EcParameters::SpecifiedCurve(Sequence::new(b"\x02\x01\x01")));
    assert_eq!(decode(&specified), Ok(value.clone()));
    assert_eq!(write_single(&id(value)).unwrap(), specified);

    // The parameters of a key are not optional.
    assert_eq!(decode(&alg(KnownOid::Ec, b"")), Err(ParseError::ShortData { needed: 1 }));
    assert_eq!(
        decode(&alg(KnownOid::Ec, b"\x04\x00")),
        Err(ParseError::UnexpectedTag { actual: Tag::primitive(4) })
    );
    assert_eq!(decode(&alg(KnownOid::Ec, b"\x05\x01\x00")), Err(ParseError::InvalidValue));
    assert_eq!(decode(&alg(KnownOid::Ec, b"\x06\x00")), Err(ParseError::InvalidValue));

    for first in [0x06u8, 0x05, 0x30] {
        assert!(EcParameters::can_parse(Tag::from_bytes(&[first]).unwrap().0));
    }
    for first in [0x02u8, 0x04, 0x31, 0xa0] {
        assert!(!EcParameters::can_parse(Tag::from_bytes(&[first]).unwrap().0));
    }
    assert_eq!(
        EcParameters::parse(b"\x05\x00rest"),
        Ok((EcParameters::ImplicitCurve(()), &b"rest"[..]))
    );
}

#[test]
fn initialisation_vector() {
    let iv = [7u8; 16];
    let data = alg(KnownOid::AesCbc, &el(0x04, &iv));
    assert_eq!(decode(&data), Ok(AlgorithmParameters::AesCbc(&iv)));
    assert_eq!(write_single(&id(AlgorithmParameters::AesCbc(&iv))).unwrap(), data);
    assert_eq!(decode(&alg(KnownOid::AesCbc, b"")), Err(ParseError::ShortData { needed: 1 }));
    assert_eq!(
        decode(&alg(KnownOid::AesCbc, b"\x05\x00")),
        Err(ParseError::UnexpectedTag { actual: Tag::primitive(5) })
    );
}

fn pss(
    hash: AlgorithmIdentifier<'static>,
    mask_gen: MaskGenAlgorithm<'static>,
    salt_length: u16,
    trailer: u8,
) -> RsaPssParameters<'static> {
    RsaPssParameters { hash_algorithm: hash, mask_gen_algorithm: mask_gen, salt_length, _trailer_field: trailer }
}

fn all_defaults() -> RsaPssParameters<'static> {
    pss(pss_sha1_hash_alg(), pss_sha1_mask_gen_alg(), 20, 1)
}

#[test]
fn pss_defaults_are_left_out() {
    assert_eq!(all_defaults().write_data().unwrap(), b"");
    assert_eq!(write_single(&all_defaults()).unwrap(), b"\x30\x00");
    assert_eq!(
        write_single(&id(AlgorithmParameters::RsaPss(Some(Box::new(all_defaults()))))).unwrap(),
        alg(KnownOid::RsaPss, b"\x30\x00")
    );
    assert_eq!(RsaPssParameters::parse_data(b""), Ok(all_defaults()));
    assert_eq!(parse_single::<RsaPssParameters<'_>>(b"\x30\x00"), Ok(all_defaults()));
}

#[test]
fn pss_only_salt_length() {
    let p = pss(pss_sha1_hash_alg(), pss_sha1_mask_gen_alg(), 32, 1);
    assert_eq!(p.write_data().unwrap(), b"\xa2\x03\x02\x01\x20");
    assert_eq!(write_single(&p).unwrap(), b"\x30\x05\xa2\x03\x02\x01\x20");
    assert_eq!(RsaPssParameters::parse_data(b"\xa2\x03\x02\x01\x20"), Ok(p));
}

#[test]
fn pss_each_field_by_itself() {
    let hash_field = el(0xa0, &alg(KnownOid::Sha256, b"\x05\x00"));
    let mask_field = el(0xa1, &el(0x30, &cat(&[&el(0x06, KnownOid::Mgf1.der()), &alg(KnownOid::Sha256, b"\x05\x00")])));
    let salt_field = b"\xa2\x04\x02\x02\x00\xde".to_vec();
    let trailer_field = b"\xa3\x03\x02\x01\x02".to_vec();
    for mask in 0u8..16 {
        let p = pss(
            if mask & 1 != 0 { pss_sha256_hash_alg() } else { pss_sha1_hash_alg() },
            if mask & 2 != 0 { pss_sha256_mask_gen_alg() } else { pss_sha1_mask_gen_alg() },
            if mask & 4 != 0 { 222 } else { 20 },
            if mask & 8 != 0 { 2 } else { 1 },
        );
        let mut expected = Vec::new();
        if mask & 1 != 0 {
            expected.extend_from_slice(&hash_field);
        }
        if mask & 2 != 0 {
            expected.extend_from_slice(&mask_field);
        }
        if mask & 4 != 0 {
            expected.extend_from_slice(&salt_field);
        }
        if mask & 8 != 0 {
            expected.extend_from_slice(&trailer_field);
        }
        assert_eq!(p.write_data().unwrap(), expected, "{mask}");
        assert_eq!(RsaPssParameters::parse_data(&expected), Ok(p.clone()));
        let whole = alg(KnownOid::RsaPss, &el(0x30, &expected));
        assert_eq!(decode(&whole), Ok(AlgorithmParameters::RsaPss(Some(Box::new(p.clone())))));
        assert_eq!(write_single(&id(AlgorithmParameters::RsaPss(Some(Box::new(p))))).unwrap(), whole);
    }
}

#[test]
fn pss_as_certificates_have_it() {
    let data: &[u8] = b"\x30\x41\x06\x09\x2a\x86\x48\x86\xf7\x0d\x01\x01\x0a\x30\x34\
        \xa0\x0f\x30\x0d\x06\x09\x60\x86\x48\x01\x65\x03\x04\x02\x01\x05\x00\
        \xa1\x1c\x30\x1a\x06\x09\x2a\x86\x48\x86\xf7\x0d\x01\x01\x08\
        \x30\x0d\x06\x09\x60\x86\x48\x01\x65\x03\x04\x02\x01\x05\x00\
        \xa2\x03\x02\x01\x20";
    let p = pss(pss_sha256_hash_alg(), pss_sha256_mask_gen_alg(), 32, 1);
    let value = AlgorithmParameters::RsaPss(Some(Box::new(p)));
    assert_eq!(decode(data), Ok(value.clone()));
    assert_eq!(write_single(&id(value)).unwrap(), data);
}

#[test]
fn pss_without_parameters() {
    let data = alg(KnownOid::RsaPss, b"");
    assert_eq!(decode(&data), Ok(AlgorithmParameters::RsaPss(None)));
    assert_eq!(write_single(&id(AlgorithmParameters::RsaPss(None))).unwrap(), data);
}

#[test]
fn pss_defaults_written_out_are_taken() {
    // Each field is there and holds its default.
    let hash_field = el(0xa0, &alg(KnownOid::Sha1, b"\x05\x00"));
    let mask_field = el(0xa1, &el(0x30, &cat(&[&el(0x06, KnownOid::Mgf1.der()), &alg(KnownOid::Sha1, b"\x05\x00")])));
    let content = cat(&[&hash_field, &mask_field, b"\xa2\x03\x02\x01\x14", b"\xa3\x03\x02\x01\x01"]);
    let p = RsaPssParameters::parse_data(&content).unwrap();
    assert_eq!(p, all_defaults());
    // Written again, the defaults are left out.
    assert_eq!(p.write_data().unwrap(), b"");
    for field in [&hash_field[..], &mask_field[..], b"\xa2\x03\x02\x01\x14", b"\xa3\x03\x02\x01\x01"] {
        assert_eq!(RsaPssParameters::parse_data(field), Ok(all_defaults()));
    }
}

#[test]
fn pss_errors() {
    // Fields out of order.
    assert_eq!(
        RsaPssParameters::parse_data(b"\xa3\x03\x02\x01\x02\xa2\x03\x02\x01\x20"),
        Err(ParseError::ExtraData)
    );
    // A field twice.
    assert_eq!(
        RsaPssParameters::parse_data(b"\xa2\x03\x02\x01\x20\xa2\x03\x02\x01\x20"),
        Err(ParseError::ExtraData)
    );
    // The salt length does not fit 16 bits, the trailer field not 8.
    assert_eq!(RsaPssParameters::parse_data(b"\xa2\x05\x02\x03\x01\x00\x00"), Err(ParseError::IntegerOverflow));
    assert_eq!(RsaPssParameters::parse_data(b"\xa3\x04\x02\x02\x01\x00"), Err(ParseError::IntegerOverflow));
    // More than the integer under the explicit tag.
    assert_eq!(RsaPssParameters::parse_data(b"\xa2\x05\x02\x01\x20\x05\x00"), Err(ParseError::ExtraData));
    // Something else under the explicit tag.
    assert_eq!(
        RsaPssParameters::parse_data(b"\xa2\x02\x05\x00"),
        Err(ParseError::UnexpectedTag { actual: Tag::primitive(5) })
    );
    assert_eq!(RsaPssParameters::parse_data(b"\xa2\x00"), Err(ParseError::ShortData { needed: 1 }));
    assert_eq!(RsaPssParameters::parse_data(b"\xa2\x03\x02\x01\x80"), Err(ParseError::InvalidValue));
    assert_eq!(
        RsaPssParameters::parse_data(b"\xa0\x02\x05\x00"),
        Err(ParseError::UnexpectedTag { actual: Tag::primitive(5) })
    );
    assert_eq!(
        RsaPssParameters::parse_data(b"\xa1\x02\x05\x00"),
        Err(ParseError::UnexpectedTag { actual: Tag::primitive(5) })
    );
    assert_eq!(RsaPssParameters::parse_data(b"\x05\x00"), Err(ParseError::ExtraData));
    assert_eq!(
        decode(&alg(KnownOid::RsaPss, b"\x05\x00")),
        Err(ParseError::ExtraData)
    );
}

#[test]
fn pss_nested() {
    // A hash algorithm that is itself RSASSA-PSS with parameters.
    let inner = pss(pss_sha512_hash_alg(), pss_sha384_mask_gen_alg(), 64, 1);
    let outer = pss(
        id(AlgorithmParameters::RsaPss(Some(Box::new(inner)))),
        mgf1_with(pss_sha384_hash_alg()),
        20,
        3,
    );
    let value = id(AlgorithmParameters::RsaPss(Some(Box::new(outer))));
    let written = write_single(&value).unwrap();
    assert_eq!(parse_single::<AlgorithmIdentifier<'_>>(&written), Ok(value.clone()));
    assert_eq!(value.clone(), value);
}

#[test]
fn pss_default_tests() {
    assert!(is_default_hash(&pss_sha1_hash_alg()));
    assert!(!is_default_hash(&pss_sha256_hash_alg()));
    assert!(!is_default_hash(&id(AlgorithmParameters::Sha1(None))));
    assert!(!is_default_hash(&id(AlgorithmParameters::RsaWithSha1(Some(())))));
    assert!(!is_default_hash(&id(AlgorithmParameters::Other(ObjectIdentifier::known(KnownOid::Sha1), None))));
    assert!(is_default_mask_gen(&pss_sha1_mask_gen_alg()));
    assert!(!is_default_mask_gen(&pss_sha256_mask_gen_alg()));
    assert!(!is_default_mask_gen(&pss_sha512_mask_gen_alg()));
    assert!(!is_default_mask_gen(&MaskGenAlgorithm {
        oid: ObjectIdentifier::known(KnownOid::Rsa),
        params: pss_sha1_hash_alg()
    }));
    assert_eq!(pss_sha384_hash_alg().params, AlgorithmParameters::Sha384(Some(())));
    assert_eq!(pss_sha512_hash_alg().params, AlgorithmParameters::Sha512(Some(())));
    assert_eq!(pss_sha256_mask_gen_alg().oid.as_der(), KnownOid::Mgf1.der());
}

#[test]
fn mask_gen_algorithm() {
    let data = el(0x30, &cat(&[&el(0x06, KnownOid::Mgf1.der()), &alg(KnownOid::Sha256, b"\x05\x00")]));
    assert_eq!(parse_single::<MaskGenAlgorithm<'_>>(&data), Ok(pss_sha256_mask_gen_alg()));
    assert_eq!(write_single(&pss_sha256_mask_gen_alg()).unwrap(), data);
    // The hash algorithm is not optional, and nothing follows it.
    assert_eq!(
        MaskGenAlgorithm::parse_data(&el(0x06, KnownOid::Mgf1.der())),
        Err(ParseError::ShortData { needed: 1 })
    );
    assert_eq!(
        MaskGenAlgorithm::parse_data(&cat(&[&el(0x06, KnownOid::Mgf1.der()), &alg(KnownOid::Sha256, b""), b"\x05\x00"])),
        Err(ParseError::ExtraData)
    );
}

#[test]
fn older_identifier_of_rsa_with_sha1() {
    let older = alg(KnownOid::RsaWithSha1Alt, b"\x05\x00");
    let newer = alg(KnownOid::RsaWithSha1, b"\x05\x00");
    assert_eq!(older, b"\x30\x09\x06\x05\x2b\x0e\x03\x02\x1d\x05\x00");
    assert_eq!(decode(&older), Ok(AlgorithmParameters::RsaWithSha1(Some(()))));
    assert_eq!(decode(&older), decode(&newer));
    assert_eq!(decode(&alg(KnownOid::RsaWithSha1Alt, b"")), Ok(AlgorithmParameters::RsaWithSha1(None)));
    // The newer one is written.
    let value = parse_single::<AlgorithmIdentifier<'_>>(&older).unwrap();
    assert_eq!(write_single(&value).unwrap(), newer);
    assert_eq!(value.oid().as_der(), KnownOid::RsaWithSha1.der());
    assert_eq!(canonical(KnownOid::RsaWithSha1Alt), KnownOid::RsaWithSha1);
    assert_eq!(canonical(KnownOid::RsaWithSha1), KnownOid::RsaWithSha1);
    assert_eq!(shape(KnownOid::RsaWithSha1Alt), ParamsShape::Null);
}

#[test]
fn unknown_algorithms() {
    let oid = ObjectIdentifier::from_der(b"\x2a\x03\x04\x05").unwrap();
    let bare: &[u8] = b"\x30\x06\x06\x04\x2a\x03\x04\x05";
    assert_eq!(decode(bare), Ok(AlgorithmParameters::Other(oid, None)));
    assert_eq!(write_single(&parse_single::<AlgorithmIdentifier<'_>>(bare).unwrap()).unwrap(), bare);
    assert_eq!(parse_single::<AlgorithmIdentifier<'_>>(bare).unwrap().oid(), oid);
    assert_eq!(AlgorithmParameters::Other(oid, None).known(), None);

    let inputs: [&[u8]; 4] = [
        b"\x30\x08\x06\x04\x2a\x03\x04\x05\x05\x00",
        b"\x30\x0b\x06\x04\x2a\x03\x04\x05\x30\x03\x02\x01\x01",
        b"\x30\x0a\x06\x04\x2a\x03\x04\x05\x04\x02ab",
        b"\x30\x09\x06\x04\x2a\x03\x04\x05\x80\x01\x00",
    ];
    for data in inputs {
        let value = parse_single::<AlgorithmIdentifier<'_>>(data).unwrap();
        match &value.params {
            AlgorithmParameters::Other(o, Some(tlv)) => {
                assert_eq!(*o, oid);
                assert_eq!(tlv.full_data(), &data[8..]);
            }
            other => panic!("{other:?}"),
        }
        assert_eq!(write_single(&value).unwrap(), data);
    }
    // One element at most.
    assert_eq!(decode(b"\x30\x0a\x06\x04\x2a\x03\x04\x05\x05\x00\x05\x00"), Err(ParseError::ExtraData));
    assert_eq!(decode(b"\x30\x08\x06\x04\x2a\x03\x04\x05\x05\x01"), Err(ParseError::ShortData { needed: 1 }));
    // The identifier of the mask generation function names no algorithm here.
    let mgf1 = alg(KnownOid::Mgf1, b"");
    assert_eq!(decode(&mgf1), Ok(AlgorithmParameters::Other(ObjectIdentifier::known(KnownOid::Mgf1), None)));
    assert_eq!(shape(KnownOid::Mgf1), ParamsShape::Any);
}

#[test]
fn malformed_algorithm_identifiers() {
    assert_eq!(decode(b""), Err(ParseError::ShortData { needed: 1 }));
    assert_eq!(decode(b"\x30"), Err(ParseError::ShortData { needed: 1 }));
    assert_eq!(decode(b"\x30\x05\x06\x03\x2b\x65"), Err(ParseError::ShortData { needed: 1 }));
    assert_eq!(decode(b"\x30\x81\x05\x06\x03\x2b\x65\x70"), Err(ParseError::InvalidLength));
    assert_eq!(decode(b"\x31\x05\x06\x03\x2b\x65\x70"), Err(ParseError::UnexpectedTag { actual: Tag::constructed(17) }));
    assert_eq!(decode(b"\x30\x00"), Err(ParseError::ShortData { needed: 1 }));
    assert_eq!(decode(b"\x30\x02\x05\x00"), Err(ParseError::UnexpectedTag { actual: Tag::primitive(5) }));
    assert_eq!(decode(b"\x30\x02\x06\x00"), Err(ParseError::InvalidValue));
    assert_eq!(decode(b"\x30\x04\x06\x02\x2a\x80"), Err(ParseError::InvalidValue));
    assert_eq!(decode(b"\x30\x05\x06\x03\x2b\x65\x70\x00"), Err(ParseError::ExtraData));
    let long = el(0x30, &el(0x06, &[0x2a; 64]));
    assert_eq!(decode(&long), Err(ParseError::OidTooLong));
    assert_eq!(AlgorithmIdentifier::tag(), Tag::constructed(16));
    assert_eq!(AlgorithmIdentifier::write_tag(), Tag::constructed(16));
}

fn big(data: &'static [u8]) -> BigUint<'static> {
    BigUint::new(data).unwrap()
}

#[test]
fn dsa_and_diffie_hellman() {
    let dss = DssParams { p: big(b"\x00\x83"), q: big(b"\x0b"), g: big(b"\x02") };
    let content = b"\x02\x02\x00\x83\x02\x01\x0b\x02\x01\x02";
    assert_eq!(DssParams::parse_data(content), Ok(dss));
    assert_eq!(dss.write_data().unwrap(), content);
    let data = alg(KnownOid::Dsa, &el(0x30, content));
    assert_eq!(decode(&data), Ok(AlgorithmParameters::Dsa(dss)));
    assert_eq!(write_single(&id(AlgorithmParameters::Dsa(dss))).unwrap(), data);
    assert_eq!(DssParams::parse_data(b"\x02\x02\x00\x83\x02\x01\x0b"), Err(ParseError::ShortData { needed: 1 }));
    assert_eq!(DssParams::parse_data(b"\x02\x01\x80\x02\x01\x0b\x02\x01\x02"), Err(ParseError::InvalidValue));
    assert_eq!(
        DssParams::parse_data(b"\x02\x02\x00\x83\x02\x01\x0b\x02\x01\x02\x02\x01\x02"),
        Err(ParseError::ExtraData)
    );
    assert_eq!(decode(&alg(KnownOid::Dsa, b"")), Err(ParseError::ShortData { needed: 1 }));

    let sig = DssSignature { r: big(b"\x01"), s: big(b"\x00\xff") };
    assert_eq!(parse_single::<DssSignature<'_>>(b"\x30\x07\x02\x01\x01\x02\x02\x00\xff"), Ok(sig));
    assert_eq!(write_single(&sig).unwrap(), b"\x30\x07\x02\x01\x01\x02\x02\x00\xff");

    for q in [None, Some(big(b"\x0b"))] {
        let dh = DHParams { p: big(b"\x17"), g: big(b"\x05"), q };
        let written = write_single(&dh).unwrap();
        assert_eq!(written.len(), if q.is_some() { 11 } else { 8 });
        assert_eq!(parse_single::<DHParams<'_>>(&written), Ok(dh));
    }

    for length in [None, Some(0u32), Some(160), Some(u32::MAX)] {
        let basic = BasicDHParams { p: big(b"\x17"), g: big(b"\x05"), private_value_length: length };
        let written = write_single(&id(AlgorithmParameters::DhKeyAgreement(basic))).unwrap();
        assert_eq!(decode(&written), Ok(AlgorithmParameters::DhKeyAgreement(basic)));
    }
    assert_eq!(
        BasicDHParams::parse_data(b"\x02\x01\x17\x02\x01\x05\x02\x02\x00\xa0"),
        Ok(BasicDHParams { p: big(b"\x17"), g: big(b"\x05"), private_value_length: Some(160) })
    );
    assert_eq!(
        BasicDHParams::parse_data(b"\x02\x01\x17\x02\x01\x05\x02\x05\x01\x00\x00\x00\x00"),
        Err(ParseError::IntegerOverflow)
    );

    for j in [None, Some(big(b"\x02"))] {
        for validation in [None, Some(Sequence::new(b"\x03\x02\x00\x01\x02\x01\x07"))] {
            let dhx = DHXParams { p: big(b"\x17"), g: big(b"\x05"), q: big(b"\x0b"), j, validation_params: validation };
            let written = write_single(&id(AlgorithmParameters::Dh(dhx))).unwrap();
            assert_eq!(decode(&written), Ok(AlgorithmParameters::Dh(dhx)));
        }
    }
    assert_eq!(
        DHXParams::parse_data(b"\x02\x01\x17\x02\x01\x05\x02\x01\x0b\x30\x00"),
        Ok(DHXParams {
            p: big(b"\x17"),
            g: big(b"\x05"),
            q: big(b"\x0b"),
            j: None,
            validation_params: Some(Sequence::new(b""))
        })
    );
    assert_eq!(
        DHXParams::parse_data(b"\x02\x01\x17\x02\x01\x05\x02\x01\x0b\x30\x00\x02\x01\x02"),
        Err(ParseError::ExtraData)
    );
}

#[test]
fn parameters_by_themselves() {
    let rsa = ObjectIdentifier::known(KnownOid::Rsa);
    assert_eq!(
        AlgorithmParameters::parse(rsa, b"\x05\x00\x02\x01\x01"),
        Ok((AlgorithmParameters::Rsa(Some(())), &b"\x02\x01\x01"[..]))
    );
    assert_eq!(AlgorithmParameters::Rsa(Some(())).write().unwrap(), b"\x05\x00");
    assert_eq!(AlgorithmParameters::Rsa(None).write().unwrap(), b"");
    assert_eq!(AlgorithmParameters::X448.write().unwrap(), b"");
    let unknown = ObjectIdentifier::from_der(b"\x2a\x03").unwrap();
    let (value, rest) = AlgorithmParameters::parse(unknown, b"\x04\x01a\x05\x00").unwrap();
    assert_eq!(rest, b"\x05\x00");
    assert_eq!(value.write().unwrap(), b"\x04\x01a");
    assert_eq!(value.item(), unknown);
}

#[test]
fn wrapped_values_compare_by_value() {
    // The same parameters, once with the defaults left out and once written out.
    let short = alg(KnownOid::RsaPss, b"\x30\x00");
    let long = alg(KnownOid::RsaPss, &el(0x30, &cat(&[b"\xa2\x03\x02\x01\x14", b"\xa3\x03\x02\x01\x01"])));
    let (a, _) = WithTlv::<AlgorithmIdentifier<'_>>::parse(&short).unwrap();
    let (b, _) = WithTlv::<AlgorithmIdentifier<'_>>::parse(&long).unwrap();
    assert_ne!(a.tlv().full_data(), b.tlv().full_data());
    assert_ne!(a.tlv(), b.tlv());
    assert!(a == b);
    assert_eq!(a.value(), b.value());
    assert_eq!(a.params, b.params);
    // What is written is the value, not the element that was read.
    assert_eq!(write_single(&b).unwrap(), short);
    let bare = alg(KnownOid::RsaPss, b"");
    let (c, _) = WithTlv::<AlgorithmIdentifier<'_>>::parse(&bare).unwrap();
    assert!(a != c);

    let digest = |v: &WithTlv<'_, AlgorithmIdentifier<'_>>| {
        let mut h = std::collections::hash_map::DefaultHasher::new();
        v.hash(&mut h);
        h.finish()
    };
    let plain = |v: &AlgorithmIdentifier<'_>| {
        let mut h = std::collections::hash_map::DefaultHasher::new();
        v.hash(&mut h);
        h.finish()
    };
    assert_eq!(digest(&a), digest(&b));
    assert_eq!(digest(&a), plain(a.value()));
}

#[test]
fn public_key_info() {
    let key = [0x04u8, 1, 2, 3, 4, 5, 6, 7, 8];
    let algorithm = alg(KnownOid::Ec, b"\x06\x08\x2a\x86\x48\xce\x3d\x03\x01\x07");
    let data = el(0x30, &cat(&[&algorithm, &el(0x03, &cat(&[b"\x00", &key]))]));
    let info = parse_single::<SubjectPublicKeyInfo<'_>>(&data).unwrap();
    assert_eq!(
        info.algorithm.params,
        AlgorithmParameters::Ec(EcParameters::NamedCurve(
            ObjectIdentifier::from_der(b"\x2a\x86\x48\xce\x3d\x03\x01\x07").unwrap()
        ))
    );
    assert_eq!(info.subject_public_key, BitString::new(&key, 0).unwrap());
    assert_eq!(write_single(&info).unwrap(), data);
    assert_eq!(info.clone(), info);
    assert_eq!(
        SubjectPublicKeyInfo::parse_data(&algorithm).map(|_| ()),
        Err(ParseError::ShortData { needed: 1 })
    );
    assert_eq!(
        SubjectPublicKeyInfo::parse_data(&cat(&[&algorithm, b"\x03\x01\x08"])).map(|_| ()),
        Err(ParseError::InvalidValue)
    );
    assert_eq!(
        SubjectPublicKeyInfo::parse_data(&cat(&[&algorithm, b"\x04\x01\x00"])).map(|_| ()),
        Err(ParseError::UnexpectedTag { actual: Tag::primitive(4) })
    );
}

#[test]
fn attribute_type_and_value() {
    let data: &[u8] = b"\x30\x09\x06\x03\x55\x04\x03\x0c\x02hi";
    let atv = parse_single::<AttributeTypeValue<'_>>(data).unwrap();
    assert_eq!(atv.type_id.as_der(), b"\x55\x04\x03");
    assert_eq!(atv.value, RawTlv::new(Tag::primitive(12), b"hi"));
    assert_eq!(write_single(&atv).unwrap(), data);
    assert_eq!(
        AttributeTypeValue::parse_data(b"\x06\x03\x55\x04\x03").map(|_| ()),
        Err(ParseError::ShortData { needed: 1 })
    );
    assert_eq!(
        AttributeTypeValue::parse_data(b"\x06\x03\x55\x04\x03\x0c\x02hi\x05\x00").map(|_| ()),
        Err(ParseError::ExtraData)
    );
}

#[test]
fn tlv_of_unknown_parameters() {
    let (tlv, rest) = Tlv::parse(b"\x04\x02ab\x05\x00").unwrap();
    assert_eq!(rest, b"\x05\x00");
    assert_eq!((tlv.tag(), tlv.data(), tlv.full_data()), (Tag::primitive(4), &b"ab"[..], &b"\x04\x02ab"[..]));
    assert_eq!(write_single(&tlv).unwrap(), b"\x04\x02ab");
    assert_eq!(Option::<Tlv<'_>>::parse(b""), Ok((None, &b""[..])));
    assert_eq!(Option::<Tlv<'_>>::parse(b"\x1f\x1e"), Ok((None, &b"\x1f\x1e"[..])));
}

#[test]
fn what_is_decoded_is_valid_and_is_read_back() {
    let inputs: Vec<Vec<u8>> = vec![
        alg(KnownOid::Sha256, b"\x05\x00"),
        alg(KnownOid::Ed448, b""),
        alg(KnownOid::RsaWithSha1Alt, b""),
        alg(KnownOid::Mgf1, b"\x30\x00"),
        alg(KnownOid::Ec, b"\x06\x03\x2a\x03\x04"),
        alg(KnownOid::RsaPss, &el(0x30, &el(0xa0, &alg(KnownOid::Sha1, b"")))),
        alg(KnownOid::RsaPss, &el(0x30, &el(0xa0, &alg(KnownOid::Mgf1, b"\x04\x00")))),
        alg(KnownOid::Dh, &el(0x30, b"\x02\x01\x17\x02\x01\x05\x02\x01\x0b\x30\x00")),
        b"\x30\x09\x06\x04\x2a\x03\x04\x05\x80\x01\x00".to_vec(),
    ];
    for data in inputs {
        let value = parse_single::<AlgorithmIdentifier<'_>>(&data).unwrap();
        assert!(is_valid_algorithm(&value));
        assert!(is_valid_parameters(&value.params));
        let written = write_single(&value).unwrap();
        assert_eq!(parse_single::<AlgorithmIdentifier<'_>>(&written), Ok(value.clone()));
    }
}

#[test]
fn an_identifier_of_the_table_held_as_unknown_is_not_valid() {
    let sha1 = ObjectIdentifier::known(KnownOid::Sha1);
    let odd = id(AlgorithmParameters::Other(sha1, None));
    assert!(!is_valid_algorithm(&odd));
    // It is written like the known algorithm, and read back as that.
    let written = write_single(&odd).unwrap();
    assert_eq!(written, alg(KnownOid::Sha1, b""));
    assert_eq!(decode(&written), Ok(AlgorithmParameters::Sha1(None)));
    let nested = pss(odd, pss_sha1_mask_gen_alg(), 20, 1);
    assert!(!is_valid_rsa_pss(&nested));
    assert!(!is_valid_algorithm(&id(AlgorithmParameters::RsaPss(Some(Box::new(nested))))));
    assert!(is_valid_rsa_pss(&all_defaults()));
    let mgf1 = id(AlgorithmParameters::Other(ObjectIdentifier::known(KnownOid::Mgf1), None));
    assert!(is_valid_algorithm(&mgf1));
    for (_, make) in null_variants() {
        assert!(is_valid_parameters(&make(Some(()))));
    }
    for (_, value) in absent_variants() {
        assert!(is_valid_parameters(&value));
    }
}

#[test]
fn parameters_that_are_absent_are_always_written() {
    assert_eq!(AlgorithmParameters::Ed448.write(), Ok(vec![]));
    assert_eq!(AlgorithmParameters::Sha256(None).write(), Ok(vec![]));
    assert_eq!(AlgorithmParameters::RsaPss(None).write(), Ok(vec![]));
    assert_eq!(AlgorithmParameters::Other(ObjectIdentifier::known(KnownOid::Mgf1), None).write(), Ok(vec![]));
    assert_eq!(all_defaults().write_data(), Ok(vec![]));
}
