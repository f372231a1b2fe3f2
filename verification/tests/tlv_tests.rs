use cryptography_x509::codec::{parse_single, write_single, Asn1Readable, Asn1Writable};
use cryptography_x509::der::{join_written, length_to_bytes, peek_tag, read_tlv, write_element, write_framed, Tlv};
use cryptography_x509::error::{ErrorClass, ParseError, WriteError};
use cryptography_x509::primitive::Sequence;
use cryptography_x509::readable_or_writable::Asn1ReadableOrWritable;
use cryptography_x509::tag::{Tag, TagClass};
use cryptography_x509::tlv::{RawTlv, WithTlv};

#[test]
#[should_panic]
fn test_asn1_readable_or_writable_unwrap_read() {
    Asn1ReadableOrWritable::<u32, u32>::new_write(17).unwrap_read();
}

#[test]
fn test_asn1_readable_or_writable_write_read_data() {
    let v = Asn1ReadableOrWritable::<u32, u32>::new_read(17);
    assert_eq!(&write_single(&v).unwrap(), b"\x02\x01\x11");
}

#[test]
fn test_raw_tlv_can_parse() {
    let t = Tag::from_bytes(&[0]).unwrap().0;
    assert!(RawTlv::can_parse(t));
}

#[test]
fn test_with_raw_tlv_can_parse() {
    let t = Tag::from_bytes(&[0x30]).unwrap().0;

    assert!(WithTlv::<Sequence<'_>>::can_parse(t));
    assert!(!WithTlv::<bool>::can_parse(t));
}

#[test]
fn readable_or_writable_reads_as_first_and_writes_as_either() {
    let r = parse_single::<Asn1ReadableOrWritable<u32, bool>>(b"\x02\x02\x01\x00").unwrap();
    assert_eq!(*r.unwrap_read(), 256);
    assert_eq!(r, Asn1ReadableOrWritable::new_read(256));
    // Written under the tag of the second type, with the content of the arm that is held.
    assert_eq!(write_single(&r).unwrap(), b"\x01\x02\x01\x00");
    let w = Asn1ReadableOrWritable::<u32, bool>::new_write(true);
    assert_eq!(write_single(&w).unwrap(), b"\x01\x01\xff");
    assert_eq!(
        parse_single::<Asn1ReadableOrWritable<u32, bool>>(b"\x01\x01\xff"),
        Err(ParseError::UnexpectedTag { actual: Tag::primitive(1) })
    );
}

fn asn1_tag_fields(t: asn1::Tag) -> (u8, bool, u32) {
    (t.class() as u8, t.is_constructed(), t.value())
}

fn class_number(c: TagClass) -> u8 {
    match c {
        TagClass::Universal => 0,
        TagClass::Application => 1,
        TagClass::ContextSpecific => 2,
        TagClass::Private => 3,
    }
}

#[test]
fn tag_octets_agree_with_asn1() {
    let classes = [TagClass::Universal, TagClass::Application, TagClass::ContextSpecific, TagClass::Private];
    let values: [u32; 14] = [0, 1, 5, 16, 30, 31, 32, 127, 128, 255, 16383, 16384, 0x0fff_ffff, u32::MAX];
    for class in classes {
        for constructed in [false, true] {
            for value in values {
                let tag = Tag { class, constructed, value };
                let octets = tag.to_bytes();
                let (theirs, rest) = asn1::Tag::from_bytes(&octets).unwrap();
                assert!(rest.is_empty());
                assert_eq!(asn1_tag_fields(theirs), (class_number(class), constructed, value));
                assert_eq!(tag.as_u8(), theirs.as_u8());
                let mut followed = octets.clone();
                followed.extend_from_slice(b"xyz");
                let (ours, rest) = Tag::from_bytes(&followed).unwrap();
                assert_eq!(ours, tag);
                assert_eq!(rest, b"xyz");
            }
        }
    }
}

#[test]
fn tag_one_octet_forms() {
    assert_eq!(Tag::primitive(5).to_bytes(), vec![0x05]);
    assert_eq!(Tag::constructed(16).to_bytes(), vec![0x30]);
    assert_eq!(Tag::explicit(3).to_bytes(), vec![0xa3]);
    assert_eq!(Tag::explicit(3).as_u8(), Some(0xa3));
    assert_eq!(Tag { class: TagClass::Application, constructed: true, value: 5 }.as_u8(), Some(0x65));
    assert_eq!(Tag::primitive(31).as_u8(), None);
    assert_eq!(Tag::primitive(31).to_bytes(), vec![0x1f, 0x1f]);
    assert_eq!(Tag::primitive(128).to_bytes(), vec![0x1f, 0x81, 0x00]);
    let t = Tag { class: TagClass::Private, constructed: false, value: 7 };
    assert_eq!((t.class(), t.is_constructed(), t.value()), (TagClass::Private, false, 7));
}

#[test]
fn tag_errors() {
    assert_eq!(Tag::from_bytes(b""), Err(ParseError::ShortData { needed: 1 }));
    assert_eq!(Tag::from_bytes(b"\x1f"), Err(ParseError::ShortData { needed: 1 }));
    // A number below 31 in the long form.
    assert_eq!(Tag::from_bytes(b"\x1f\x1e"), Err(ParseError::InvalidTag));
    // A leading zero digit.
    assert_eq!(Tag::from_bytes(b"\x1f\x80\x7f"), Err(ParseError::InvalidTag));
    // A number beyond 32 bits.
    assert_eq!(Tag::from_bytes(b"\x1f\x90\x80\x80\x80\x00"), Err(ParseError::InvalidTag));
    assert_eq!(peek_tag(b"\x1f\x1e"), None);
    assert_eq!(peek_tag(b"\x30\x80"), Some(Tag::constructed(16)));
}

fn check_against_asn1(data: &[u8]) {
    let theirs = asn1::strip_tlv(data);
    let ours = read_tlv(data);
    match (theirs, ours) {
        (Ok((t, rest_t)), Ok((o, rest_o))) => {
            assert_eq!(asn1_tag_fields(t.tag()), (class_number(o.tag().class), o.tag().constructed, o.tag().value));
            assert_eq!(t.data(), o.data());
            assert_eq!(t.full_data(), o.full_data());
            assert_eq!(rest_t, rest_o);
            // What was read is written back as it was found.
            assert_eq!(write_element(o.tag(), o.data()).unwrap(), o.full_data());
            // The input is the identifier octets, the length octets, the content and the rest.
            let mut parts = o.tag().to_bytes();
            parts.extend_from_slice(&length_to_bytes(o.data().len() as u64));
            parts.extend_from_slice(o.data());
            assert_eq!(parts, o.full_data());
            parts.extend_from_slice(rest_o);
            assert_eq!(parts, data);
        }
        (Err(t), Err(o)) => match t.kind() {
            asn1::ParseErrorKind::ShortData { needed } => assert_eq!(o, ParseError::ShortData { needed }),
            asn1::ParseErrorKind::InvalidTag => assert_eq!(o, ParseError::InvalidTag),
            asn1::ParseErrorKind::InvalidLength => assert_eq!(o, ParseError::InvalidLength),
            other => panic!("{other:?}"),
        },
        (t, o) => panic!("{t:?} {o:?}"),
    }
}

#[test]
fn read_tlv_agrees_with_asn1() {
    let inputs: [&[u8]; 18] = [
        b"",
        b"\x04",
        b"\x04\x00",
        b"\x04\x03abc",
        b"\x04\x03abcdef",
        b"\x04\x03ab",
        b"\x04\x82",
        b"\x04\x81\x01a",
        b"\x04\x81\x80",
        b"\x04\x82\x00\x80",
        b"\x04\x83\x00\x01\x00",
        b"\x04\x84\x00\x00\x00\x01",
        b"\x04\x85\x01\x00\x00\x00\x00",
        b"\x04\x80",
        b"\x1f\x1f\x01\x00rest",
        b"\x1f\x1e\x01\x00",
        b"\xbf\x81\x00\x00",
        b"\x30\x06\x02\x01\x01\x02\x01\x02\x05\x00",
    ];
    for data in inputs {
        check_against_asn1(data);
    }
}

#[test]
fn long_lengths_round_trip() {
    for len in [0usize, 1, 127, 128, 255, 256, 65535, 65536, 70000] {
        let content: Vec<u8> = (0..len).map(|i| (i % 251) as u8).collect();
        let tag = Tag::primitive(4);
        let written = write_element(tag, &content).unwrap();
        assert_eq!(written, asn1::write_single(&content.as_slice()).unwrap());
        let mut followed = written.clone();
        followed.push(0x05);
        let (tlv, rest) = read_tlv(&followed).unwrap();
        assert_eq!(tlv.tag(), tag);
        assert_eq!(tlv.data(), &content[..]);
        assert_eq!(tlv.full_data(), &written[..]);
        assert_eq!(rest, b"\x05");
        check_against_asn1(&followed);
    }
}

#[test]
fn length_octets_by_example() {
    let content = vec![0x61u8; 129];
    let written = write_element(Tag::primitive(4), &content).unwrap();
    assert_eq!(&written[..3], b"\x04\x81\x81");
    let content = vec![0x61u8; 258];
    let written = write_element(Tag::primitive(4), &content).unwrap();
    assert_eq!(&written[..4], b"\x04\x82\x01\x02");
    assert_eq!(write_element(Tag::primitive(5), b"").unwrap(), b"\x05\x00");
}

#[test]
fn raw_tlv_keeps_what_it_reads() {
    let inputs: [&[u8]; 5] =
        [b"\x04\x03abc", b"\x30\x00", b"\xa3\x02\x05\x00", b"\x1f\x81\x00\x01z", b"\x7f\x21\x00"];
    for data in inputs {
        let (tlv, rest) = RawTlv::parse(data).unwrap();
        assert!(rest.is_empty());
        assert_eq!(tlv.write().unwrap(), data);
        assert_eq!(write_single(&tlv).unwrap(), data);
        let again = parse_single::<RawTlv<'_>>(&tlv.write().unwrap()).map(|t| (t.tag(), t.data().to_vec()));
        assert_eq!(again, Ok((tlv.tag(), tlv.data().to_vec())));
    }
}

#[test]
fn raw_tlv_from_parts() {
    let tag = Tag { class: TagClass::ContextSpecific, constructed: false, value: 2 };
    let tlv = RawTlv::new(tag, b"example.com");
    assert_eq!(tlv.tag(), tag);
    assert_eq!(tlv.data(), b"example.com");
    assert_eq!(tlv.write().unwrap(), b"\x82\x0bexample.com");
    let back = parse_single::<RawTlv<'_>>(b"\x82\x0bexample.com").unwrap();
    assert_eq!(back, tlv);
}

#[test]
fn raw_tlv_takes_every_tag() {
    for first in 0u8..=255 {
        if first & 0x1f == 0x1f {
            continue;
        }
        let t = Tag::from_bytes(&[first]).unwrap().0;
        assert!(RawTlv::can_parse(t));
        assert!(Tlv::can_parse(t));
        assert!(WithTlv::<RawTlv<'_>>::can_parse(t));
    }
}

#[test]
fn parse_single_rejects_trailing_octets() {
    assert_eq!(parse_single::<RawTlv<'_>>(b"\x05\x00\x00"), Err(ParseError::ExtraData));
    assert_eq!(parse_single::<bool>(b"\x01\x01\x00\x01"), Err(ParseError::ExtraData));
    assert_eq!(parse_single::<RawTlv<'_>>(b"\x05\x01"), Err(ParseError::ShortData { needed: 1 }));
}

#[test]
fn with_tlv_keeps_element_and_value() {
    let data = b"\x02\x02\x01\x00\x05\x00";
    let (v, rest) = WithTlv::<u32>::parse(data).unwrap();
    assert_eq!(rest, b"\x05\x00");
    assert_eq!(*v.value(), 256);
    assert_eq!(*v, 256);
    assert_eq!(v.tlv().tag(), Tag::primitive(2));
    assert_eq!(v.tlv().data(), b"\x01\x00");
    assert_eq!(v.tlv().full_data(), b"\x02\x02\x01\x00");
    assert_eq!(v.write().unwrap(), b"\x02\x02\x01\x00");
    assert_eq!(
        WithTlv::<u32>::parse(b"\x01\x01\x00").map(|x| *x.0),
        Err(ParseError::UnexpectedTag { actual: Tag::primitive(1) })
    );
    assert_eq!(WithTlv::<u32>::parse(b"\x02\x00").map(|x| *x.0), Err(ParseError::InvalidValue));
}

#[test]
fn with_tlv_can_parse_is_that_of_the_value() {
    for first in [0x01u8, 0x02, 0x04, 0x05, 0x06, 0x30, 0x31, 0xa0] {
        let t = Tag::from_bytes(&[first]).unwrap().0;
        assert_eq!(WithTlv::<bool>::can_parse(t), bool::can_parse(t));
        assert_eq!(WithTlv::<u32>::can_parse(t), u32::can_parse(t));
        assert_eq!(WithTlv::<Sequence<'_>>::can_parse(t), Sequence::can_parse(t));
        assert_eq!(WithTlv::<Option<bool>>::can_parse(t), Option::<bool>::can_parse(t));
    }
}

#[test]
fn error_classes() {
    assert_eq!(ParseError::InvalidLength.class(), ErrorClass::MalformedLength);
    assert_eq!(ParseError::ShortData { needed: 3 }.class(), ErrorClass::MalformedLength);
    assert_eq!(ParseError::UnexpectedTag { actual: Tag::primitive(2) }.class(), ErrorClass::TagMismatch);
    assert_eq!(ParseError::InvalidTag.class(), ErrorClass::TagMismatch);
    assert_eq!(ParseError::InvalidValue.class(), ErrorClass::InvalidValue);
    assert_eq!(ParseError::ExtraData.class(), ErrorClass::InvalidValue);
    assert_eq!(ParseError::IntegerOverflow.class(), ErrorClass::InvalidValue);
    assert_eq!(ParseError::OidTooLong.class(), ErrorClass::InvalidValue);
}

#[test]
fn length_octets_agree_with_asn1() {
    for len in [0usize, 1, 2, 126, 127, 128, 129, 255, 256, 257, 1000, 65535, 65536, 65537, 0xff_ffff, 0x100_0000] {
        let content = vec![0u8; len];
        let written = asn1::write_single(&content.as_slice()).unwrap();
        let header = &written[..written.len() - len];
        let mut expected = vec![0x04u8];
        expected.extend_from_slice(&length_to_bytes(len as u64));
        assert_eq!(header, &expected[..]);
    }
    assert_eq!(length_to_bytes(0), vec![0x00]);
    assert_eq!(length_to_bytes(127), vec![0x7f]);
    assert_eq!(length_to_bytes(128), vec![0x81, 0x80]);
    assert_eq!(length_to_bytes(0x1234), vec![0x82, 0x12, 0x34]);
    assert_eq!(length_to_bytes(0xffff_ffff), vec![0x84, 0xff, 0xff, 0xff, 0xff]);
    assert_eq!(length_to_bytes(0x1_0000_0000), vec![0x85, 0x01, 0x00, 0x00, 0x00, 0x00]);
}

#[test]
fn many_inputs_are_read_as_asn1_reads_them() {
    // A fixed sequence of numbers stands in for chance.
    let mut state: u64 = 0x2545_f491_4f6c_dd1d;
    let mut next = move || {
        state ^= state << 13;
        state ^= state >> 7;
        state ^= state << 17;
        state
    };
    let firsts = [0x04u8, 0x30, 0x1f, 0x3f, 0x9f, 0xa0, 0x05, 0x7f, 0xff, 0x00];
    let lengths = [0x00u8, 0x01, 0x03, 0x7f, 0x80, 0x81, 0x82, 0x83, 0x84, 0x85, 0xff];
    for _ in 0..20000 {
        let mut data: Vec<u8> = Vec::new();
        let r = next();
        data.push(if r & 1 == 0 { firsts[(r >> 8) as usize % firsts.len()] } else { (r >> 16) as u8 });
        if data[0] & 0x1f == 0x1f {
            for _ in 0..(r >> 24) % 4 {
                data.push((next() as u8) | 0x80);
            }
            data.push(next() as u8);
        }
        let r = next();
        data.push(if r & 1 == 0 { lengths[(r >> 8) as usize % lengths.len()] } else { (r >> 16) as u8 });
        for _ in 0..(next() % 6) {
            data.push(if next() & 3 == 0 { 0 } else { next() as u8 });
        }
        for _ in 0..(next() % 300) {
            data.push(next() as u8);
        }
        check_against_asn1(&data);
        match (Tag::from_bytes(&data), asn1::Tag::from_bytes(&data)) {
            (Ok((o, rest_o)), Ok((t, rest_t))) => {
                assert_eq!(asn1_tag_fields(t), (class_number(o.class), o.constructed, o.value));
                assert_eq!(rest_o, rest_t);
                let mut parts = o.to_bytes();
                parts.extend_from_slice(rest_o);
                assert_eq!(parts, data);
            }
            (Err(o), Err(t)) => match t.kind() {
                asn1::ParseErrorKind::ShortData { needed } => assert_eq!(o, ParseError::ShortData { needed }),
                asn1::ParseErrorKind::InvalidTag => assert_eq!(o, ParseError::InvalidTag),
                other => panic!("{other:?}"),
            },
            (o, t) => panic!("{o:?} {t:?}"),
        }
    }
}

#[test]
fn written_parts_are_joined() {
    let failed = || -> Result<Vec<u8>, WriteError> { Err(WriteError::AllocationError) };
    assert_eq!(join_written(Ok(vec![1, 2]), Ok(vec![3])), Ok(vec![1, 2, 3]));
    assert_eq!(join_written(Ok(vec![]), Ok(vec![])), Ok(vec![]));
    assert_eq!(join_written(failed(), Ok(vec![3])), Err(WriteError::AllocationError));
    assert_eq!(join_written(Ok(vec![1, 2]), failed()), Err(WriteError::AllocationError));
    assert_eq!(join_written(failed(), failed()), Err(WriteError::AllocationError));
}

#[test]
fn written_content_is_framed() {
    assert_eq!(write_framed(Tag::constructed(16), Ok(vec![0x05, 0x00])), Ok(vec![0x30, 0x02, 0x05, 0x00]));
    assert_eq!(write_framed(Tag::primitive(4), Ok(vec![])), Ok(vec![0x04, 0x00]));
    assert_eq!(write_framed(Tag::primitive(4), Err(WriteError::AllocationError)), Err(WriteError::AllocationError));
}
