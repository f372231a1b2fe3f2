use cryptography_x509::codec::{parse_single, write_single, Asn1Readable, SimpleAsn1Readable, SimpleAsn1Writable};
use cryptography_x509::error::ParseError;
use cryptography_x509::oid::{lookup, KnownOid, ObjectIdentifier};
use cryptography_x509::primitive::{
    bytes_eq, check_integer_content, join_bytes, copy_bytes, parse_uint, write_uint, BigUint, Sequence,
};
use cryptography_x509::strings::{UnvalidatedVisibleString, Utf8StoredBMPString};
use cryptography_x509::structures::BitString;
use cryptography_x509::tag::Tag;

fn kind(e: asn1::ParseError) -> ParseError {
    match e.kind() {
        asn1::ParseErrorKind::InvalidValue => ParseError::InvalidValue,
        asn1::ParseErrorKind::IntegerOverflow => ParseError::IntegerOverflow,
        asn1::ParseErrorKind::OidTooLong => ParseError::OidTooLong,
        other => panic!("{other:?}"),
    }
}

fn integer_contents() -> Vec<Vec<u8>> {
    let mut out: Vec<Vec<u8>> = vec![vec![]];
    let bytes = [0x00u8, 0x01, 0x7f, 0x80, 0xff];
    for a in bytes {
        out.push(vec![a]);
        for b in bytes {
            out.push(vec![a, b]);
            for c in bytes {
                out.push(vec![a, b, c]);
                for d in [0x00u8, 0x80, 0xff] {
                    out.push(vec![a, b, c, d]);
                    out.push(vec![a, b, c, d, 0x01]);
                    out.push(vec![a, b, c, d, 0x01, 0x02]);
                }
            }
        }
    }
    out
}

#[test]
fn unsigned_integers_are_read_as_asn1_reads_them() {
    for content in integer_contents() {
        let c = content.as_slice();
        assert_eq!(u8::parse_data(c), <u8 as asn1::SimpleAsn1Readable>::parse_data(c).map_err(kind), "{c:?}");
        assert_eq!(u16::parse_data(c), <u16 as asn1::SimpleAsn1Readable>::parse_data(c).map_err(kind), "{c:?}");
        assert_eq!(u32::parse_data(c), <u32 as asn1::SimpleAsn1Readable>::parse_data(c).map_err(kind), "{c:?}");
        assert_eq!(check_integer_content(c), asn1::BigUint::new(c).is_some(), "{c:?}");
        assert_eq!(BigUint::new(c).map(|v| v.as_bytes()), asn1::BigUint::new(c).map(|v| v.as_bytes()), "{c:?}");
    }
}

#[test]
fn unsigned_integers_are_written_as_asn1_writes_them() {
    let values: [u32; 17] = [
        0, 1, 20, 32, 127, 128, 255, 256, 32767, 32768, 65535, 65536, 0x7f_ffff, 0x80_0000, 0x7fff_ffff,
        0x8000_0000, u32::MAX,
    ];
    for v in values {
        assert_eq!(write_single(&v).unwrap(), asn1::write_single(&v).unwrap());
        assert_eq!(parse_uint(&write_uint(v), u32::MAX), Ok(v));
        if v <= 0xffff {
            assert_eq!(write_single(&(v as u16)).unwrap(), asn1::write_single(&(v as u16)).unwrap());
        }
        if v <= 0xff {
            assert_eq!(write_single(&(v as u8)).unwrap(), asn1::write_single(&(v as u8)).unwrap());
        }
    }
}

#[test]
fn integer_content_by_example() {
    assert_eq!(write_uint(0), vec![0x00]);
    assert_eq!(write_uint(20), vec![0x14]);
    assert_eq!(write_uint(127), vec![0x7f]);
    assert_eq!(write_uint(128), vec![0x00, 0x80]);
    assert_eq!(write_uint(256), vec![0x01, 0x00]);
    assert_eq!(write_uint(65535), vec![0x00, 0xff, 0xff]);
    assert_eq!(parse_uint(b"\x00\xff", 0xff), Ok(255));
    assert_eq!(parse_uint(b"\x01\x00", 0xff), Err(ParseError::IntegerOverflow));
    assert_eq!(parse_uint(b"\x00\x7f", 0xff), Err(ParseError::InvalidValue));
    assert_eq!(parse_uint(b"\x80", 0xff), Err(ParseError::InvalidValue));
    assert_eq!(parse_uint(b"", 0xff), Err(ParseError::InvalidValue));
    assert_eq!(u8::tag(), Tag::primitive(2));
    assert_eq!(u32::write_tag(), Tag::primitive(2));
}

#[test]
fn null_and_boolean() {
    assert_eq!(parse_single::<()>(b"\x05\x00"), Ok(()));
    assert_eq!(parse_single::<()>(b"\x05\x01\x00"), Err(ParseError::InvalidValue));
    assert_eq!(write_single(&()).unwrap(), b"\x05\x00");
    assert_eq!(parse_single::<bool>(b"\x01\x01\x00"), Ok(false));
    assert_eq!(parse_single::<bool>(b"\x01\x01\xff"), Ok(true));
    assert_eq!(parse_single::<bool>(b"\x01\x01\x01"), Err(ParseError::InvalidValue));
    assert_eq!(parse_single::<bool>(b"\x01\x00"), Err(ParseError::InvalidValue));
    assert_eq!(write_single(&true).unwrap(), b"\x01\x01\xff");
    assert_eq!(write_single(&false).unwrap(), b"\x01\x01\x00");
}

#[test]
fn optional_elements() {
    assert_eq!(Option::<bool>::parse(b"\x01\x01\xff\x05\x00"), Ok((Some(true), &b"\x05\x00"[..])));
    assert_eq!(Option::<bool>::parse(b"\x05\x00"), Ok((None, &b"\x05\x00"[..])));
    assert_eq!(Option::<bool>::parse(b""), Ok((None, &b""[..])));
    assert_eq!(Option::<bool>::parse(b"\x01\x01\x05"), Err(ParseError::InvalidValue));
    assert_eq!(Option::<bool>::parse(b"\x01\x05"), Err(ParseError::ShortData { needed: 5 }));
    assert_eq!(write_single(&Some(true)).unwrap(), b"\x01\x01\xff");
    assert_eq!(write_single(&None::<bool>).unwrap(), b"");
}

#[test]
fn octet_string_and_sequence() {
    assert_eq!(parse_single::<&[u8]>(b"\x04\x03abc"), Ok(&b"abc"[..]));
    assert_eq!(write_single(&&b"abc"[..]).unwrap(), b"\x04\x03abc");
    let s = parse_single::<Sequence<'_>>(b"\x30\x03\x02\x01\x07").unwrap();
    assert_eq!(s.data(), b"\x02\x01\x07");
    assert_eq!(s, Sequence::new(b"\x02\x01\x07"));
    assert_eq!(write_single(&s).unwrap(), b"\x30\x03\x02\x01\x07");
    assert_eq!(
        parse_single::<Sequence<'_>>(b"\x31\x00").map(|s| s.data().to_vec()),
        Err(ParseError::UnexpectedTag { actual: Tag::constructed(17) })
    );
}

#[test]
fn big_unsigned_integers() {
    let v = parse_single::<BigUint<'_>>(b"\x02\x09\x00\xff\xee\xdd\xcc\xbb\xaa\x99\x88").unwrap();
    assert_eq!(v.as_bytes(), b"\x00\xff\xee\xdd\xcc\xbb\xaa\x99\x88");
    assert_eq!(write_single(&v).unwrap(), b"\x02\x09\x00\xff\xee\xdd\xcc\xbb\xaa\x99\x88");
    assert_eq!(parse_single::<BigUint<'_>>(b"\x02\x02\xff\x01").map(|_| ()), Err(ParseError::InvalidValue));
    assert_eq!(parse_single::<BigUint<'_>>(b"\x02\x02\x00\x01").map(|_| ()), Err(ParseError::InvalidValue));
    assert_eq!(parse_single::<BigUint<'_>>(b"\x02\x00").map(|_| ()), Err(ParseError::InvalidValue));
    assert!(BigUint::new(b"\x80").is_none());
}

#[test]
fn byte_helpers() {
    assert!(bytes_eq(b"abc", b"abc"));
    assert!(!bytes_eq(b"abc", b"abd"));
    assert!(!bytes_eq(b"abc", b"ab"));
    assert!(bytes_eq(b"", b""));
    assert_eq!(copy_bytes(b"xyz"), b"xyz");
    assert_eq!(join_bytes(vec![1, 2], vec![3]), vec![1, 2, 3]);
}

#[test]
fn bit_strings_agree_with_asn1() {
    let datas: [&[u8]; 7] = [b"", b"\x00", b"\xff", b"\xfe", b"\x80", b"\xab\xc0", b"\x01\x02\x04"];
    for data in datas {
        for padding in 0u8..=9 {
            let theirs = asn1::BitString::new(data, padding).map(|b| (b.as_bytes().to_vec(), b.padding_bits()));
            let ours = BitString::new(data, padding).map(|b| (b.as_bytes().to_vec(), b.padding_bits()));
            assert_eq!(ours, theirs, "{data:?} {padding}");
            let mut content = vec![padding];
            content.extend_from_slice(data);
            let theirs = <asn1::BitString<'_> as asn1::SimpleAsn1Readable>::parse_data(&content)
                .map(|b| (b.as_bytes().to_vec(), b.padding_bits()))
                .map_err(kind);
            let ours = BitString::parse_data(&content).map(|b| (b.as_bytes().to_vec(), b.padding_bits()));
            assert_eq!(ours, theirs);
            if let Ok(b) = BitString::parse_data(&content) {
                assert_eq!(b.write_data().unwrap(), content);
            }
        }
    }
    assert_eq!(BitString::parse_data(b"").map(|_| ()), Err(ParseError::InvalidValue));
    assert_eq!(
        write_single(&BitString::new(b"\xab\xc0", 6).unwrap()).unwrap(),
        asn1::write_single(&asn1::BitString::new(b"\xab\xc0", 6).unwrap()).unwrap()
    );
}

const TABLE: [(KnownOid, &str); 43] = [
    (KnownOid::Sha1, "1.3.14.3.2.26"),
    (KnownOid::Sha224, "2.16.840.1.101.3.4.2.4"),
    (KnownOid::Sha256, "2.16.840.1.101.3.4.2.1"),
    (KnownOid::Sha384, "2.16.840.1.101.3.4.2.2"),
    (KnownOid::Sha512, "2.16.840.1.101.3.4.2.3"),
    (KnownOid::Sha3_224, "1.3.6.1.4.1.37476.3.2.1.99.7.224"),
    (KnownOid::Sha3_256, "1.3.6.1.4.1.37476.3.2.1.99.7.256"),
    (KnownOid::Sha3_384, "1.3.6.1.4.1.37476.3.2.1.99.7.384"),
    (KnownOid::Sha3_512, "1.3.6.1.4.1.37476.3.2.1.99.7.512"),
    (KnownOid::Ed25519, "1.3.101.112"),
    (KnownOid::Ed448, "1.3.101.113"),
    (KnownOid::X25519, "1.3.101.110"),
    (KnownOid::X448, "1.3.101.111"),
    (KnownOid::Ec, "1.2.840.10045.2.1"),
    (KnownOid::Rsa, "1.2.840.113549.1.1.1"),
    (KnownOid::AesCbc, "2.16.840.1.101.3.4.1.2"),
    (KnownOid::EcDsaWithSha224, "1.2.840.10045.4.3.1"),
    (KnownOid::EcDsaWithSha256, "1.2.840.10045.4.3.2"),
    (KnownOid::EcDsaWithSha384, "1.2.840.10045.4.3.3"),
    (KnownOid::EcDsaWithSha512, "1.2.840.10045.4.3.4"),
    (KnownOid::EcDsaWithSha3_224, "2.16.840.1.101.3.4.3.9"),
    (KnownOid::EcDsaWithSha3_256, "2.16.840.1.101.3.4.3.10"),
    (KnownOid::EcDsaWithSha3_384, "2.16.840.1.101.3.4.3.11"),
    (KnownOid::EcDsaWithSha3_512, "2.16.840.1.101.3.4.3.12"),
    (KnownOid::RsaWithSha1, "1.2.840.113549.1.1.5"),
    (KnownOid::RsaWithSha1Alt, "1.3.14.3.2.29"),
    (KnownOid::RsaWithSha224, "1.2.840.113549.1.1.14"),
    (KnownOid::RsaWithSha256, "1.2.840.113549.1.1.11"),
    (KnownOid::RsaWithSha384, "1.2.840.113549.1.1.12"),
    (KnownOid::RsaWithSha512, "1.2.840.113549.1.1.13"),
    (KnownOid::RsaWithSha3_224, "2.16.840.1.101.3.4.3.13"),
    (KnownOid::RsaWithSha3_256, "2.16.840.1.101.3.4.3.14"),
    (KnownOid::RsaWithSha3_384, "2.16.840.1.101.3.4.3.15"),
    (KnownOid::RsaWithSha3_512, "2.16.840.1.101.3.4.3.16"),
    (KnownOid::RsaPss, "1.2.840.113549.1.1.10"),
    (KnownOid::Dsa, "1.2.840.10040.4.1"),
    (KnownOid::DsaWithSha224, "2.16.840.1.101.3.4.3.1"),
    (KnownOid::DsaWithSha256, "2.16.840.1.101.3.4.3.2"),
    (KnownOid::DsaWithSha384, "2.16.840.1.101.3.4.3.3"),
    (KnownOid::DsaWithSha512, "2.16.840.1.101.3.4.3.4"),
    (KnownOid::Dh, "1.2.840.10046.2.1"),
    (KnownOid::DhKeyAgreement, "1.2.840.113549.1.3.1"),
    (KnownOid::Mgf1, "1.2.840.113549.1.1.8"),
];

#[test]
fn every_named_identifier_is_what_asn1_makes_of_its_arcs() {
    for (known, dotted) in TABLE {
        let theirs = asn1::ObjectIdentifier::from_string(dotted).unwrap();
        let der = known.der();
        // asn1 accepts the octets and takes them for the same identifier.
        assert_eq!(asn1::ObjectIdentifier::from_der(der).unwrap(), theirs);
        let ours = ObjectIdentifier::known(known);
        assert_eq!(ours.as_der(), der);
        assert_eq!(write_single(&ours).unwrap(), asn1::write_single(&theirs).unwrap());
        assert_eq!(lookup(der), Some(known));
        assert_eq!(ours.known_oid(), Some(known));
        assert_eq!(ObjectIdentifier::from_der(der), Ok(ours));
    }
    for (i, (a, _)) in TABLE.iter().enumerate() {
        for (j, (b, _)) in TABLE.iter().enumerate() {
            assert_eq!(a.der() == b.der(), i == j);
        }
    }
}

#[test]
fn object_identifiers_are_checked_by_asn1() {
    let inputs: [&[u8]; 9] = [
        b"",
        b"\x2a\x03\x04",
        b"\x80\x01",
        b"\x2a\x80\x01",
        b"\x2a\x81",
        b"\x55",
        b"\x2a\xff\xff\xff\xff\xff\xff\xff\xff\xff\xff\xff\xff\xff\xff\xff\xff\xff\x7f\x01",
        b"\x2a\x83\xff\xff\xff\xff\xff\xff\xff\xff\xff\xff\xff\xff\xff\xff\xff\xff\xff\x7f",
        &[0x2a; 64],
    ];
    for data in inputs {
        let theirs = asn1::ObjectIdentifier::from_der(data).map(|_| data.to_vec()).map_err(kind);
        let ours = ObjectIdentifier::from_der(data).map(|o| o.as_der().to_vec());
        assert_eq!(ours, theirs, "{data:?}");
    }
    assert_eq!(ObjectIdentifier::from_der(b"").map(|_| ()), Err(ParseError::InvalidValue));
    assert_eq!(ObjectIdentifier::from_der(&[0x2a; 64]).map(|_| ()), Err(ParseError::OidTooLong));
    assert_eq!(lookup(b"\x2a\x03\x04"), None);
    let a = ObjectIdentifier::from_der(b"\x2a\x03\x04").unwrap();
    let b = parse_single::<ObjectIdentifier<'_>>(b"\x06\x03\x2a\x03\x04").unwrap();
    assert!(a.same(&b));
    assert!(!a.same(&ObjectIdentifier::known(KnownOid::Rsa)));
    assert_eq!(a.known_oid(), None);
}

#[test]
fn visible_string_takes_any_utf8() {
    let v = parse_single::<UnvalidatedVisibleString<'_>>(b"\x1a\x03foo").unwrap();
    assert_eq!(v.as_str(), "foo");
    // A line feed is no visible character, and a letter with an accent is no IA5 character.
    let v = parse_single::<UnvalidatedVisibleString<'_>>(b"\x1a\x05a\n\xc3\xa9z").unwrap();
    assert_eq!(v.as_str(), "a\n\u{e9}z");
    assert!(asn1::parse_single::<asn1::VisibleString<'_>>(b"\x1a\x05a\n\xc3\xa9z").is_err());
    assert_eq!(UnvalidatedVisibleString::parse_data(b"").map(|v| v.as_str()), Ok(""));
    assert_eq!(UnvalidatedVisibleString::parse_data(b"\xff\xfe").map(|v| v.0), Err(ParseError::InvalidValue));
    assert_eq!(UnvalidatedVisibleString::parse_data(b"\xc3").map(|v| v.0), Err(ParseError::InvalidValue));
    assert_eq!(UnvalidatedVisibleString::parse_data(b"\xed\xa0\x80").map(|v| v.0), Err(ParseError::InvalidValue));
    assert_eq!(
        parse_single::<UnvalidatedVisibleString<'_>>(b"\x0c\x03foo").map(|v| v.0),
        Err(ParseError::UnexpectedTag { actual: Tag::primitive(12) })
    );
    assert_eq!(UnvalidatedVisibleString::tag(), Tag::primitive(0x1a));
    assert_eq!(UnvalidatedVisibleString("bar").as_str(), "bar");
}

#[test]
fn bmp_string_is_written_as_utf16() {
    assert_eq!(Utf8StoredBMPString::new("a").write_data().unwrap(), b"\x00a");
    assert_eq!(Utf8StoredBMPString::new("").write_data().unwrap(), b"");
    assert_eq!(Utf8StoredBMPString::new("\u{e9}\u{20ac}").write_data().unwrap(), b"\x00\xe9\x20\xac");
    // U+1F600 is the pair D83D DE00; U+10000 is D800 DC00; U+10FFFF is DBFF DFFF.
    assert_eq!(Utf8StoredBMPString::new("\u{1f600}").write_data().unwrap(), b"\xd8\x3d\xde\x00");
    assert_eq!(Utf8StoredBMPString::new("\u{10000}").write_data().unwrap(), b"\xd8\x00\xdc\x00");
    assert_eq!(Utf8StoredBMPString::new("\u{10ffff}").write_data().unwrap(), b"\xdb\xff\xdf\xff");
    assert_eq!(Utf8StoredBMPString::new("\u{ffff}").write_data().unwrap(), b"\xff\xff");
    assert_eq!(
        write_single(&Utf8StoredBMPString::new("x\u{1f600}y")).unwrap(),
        b"\x1e\x08\x00x\xd8\x3d\xde\x00\x00y"
    );
    for text in ["hello", "\u{7ff}\u{800}\u{d7ff}\u{e000}", "a\u{1f600}\u{10000}\u{10ffff}b"] {
        let expected: Vec<u8> = text.encode_utf16().flat_map(|u| u.to_be_bytes()).collect();
        assert_eq!(Utf8StoredBMPString::new(text).write_data().unwrap(), expected);
        // asn1 reads what was written as a BMPString.
        let written = write_single(&Utf8StoredBMPString(text)).unwrap();
        let read = asn1::parse_single::<asn1::BMPString<'_>>(&written).unwrap();
        assert_eq!(read.as_utf16_be_bytes(), &expected[..]);
    }
    assert_eq!(Utf8StoredBMPString::write_tag(), Tag::primitive(0x1e));
}

#[test]
fn what_is_written_without_a_call_is_always_written() {
    assert_eq!(true.write_data(), Ok(vec![0xff]));
    assert_eq!(().write_data(), Ok(vec![]));
    assert_eq!(300u32.write_data(), Ok(vec![0x01, 0x2c]));
    assert_eq!(300u16.write_data(), Ok(vec![0x01, 0x2c]));
    assert_eq!(200u8.write_data(), Ok(vec![0x00, 0xc8]));
    assert_eq!((&b"ab"[..]).write_data(), Ok(vec![0x61, 0x62]));
    assert_eq!(BigUint::new(b"\x00\x80").unwrap().write_data(), Ok(vec![0x00, 0x80]));
    assert_eq!(Sequence::new(b"\x05\x00").write_data(), Ok(vec![0x05, 0x00]));
    assert_eq!(ObjectIdentifier::known(KnownOid::Ed25519).write_data(), Ok(vec![0x2b, 0x65, 0x70]));
    assert_eq!(BitString::new(b"\xf0", 4).unwrap().write_data(), Ok(vec![0x04, 0xf0]));
    assert_eq!(Utf8StoredBMPString::new("A").write_data(), Ok(vec![0x00, 0x41]));
    assert_eq!(write_single(&None::<u32>), Ok(vec![]));
}
