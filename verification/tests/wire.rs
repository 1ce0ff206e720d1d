use rusty_motors::wire::{
    DecodeFault, Header, MessageContainer, PlainString, PrefixedField, PrefixedString,
    PrefixedStringWithNull, VersionedHeader,
};

#[test]
fn header_encodes_big_endian() {
    let h = Header { id: 0x0501, length: 0x0123 };
    assert_eq!(h.to_bytes(), vec![0x05, 0x01, 0x01, 0x23]);
}

#[test]
fn header_decodes_big_endian() {
    let h = Header::from_bytes(&[0x05, 0x01, 0x00, 0x10]);
    assert_eq!(h, Ok(Header { id: 0x0501, length: 16 }));
}

#[test]
fn header_round_trip_on_samples() {
    for (id, length) in [(0u16, 0u16), (0x0501, 4), (0xffff, 0xffff), (0x9999, 1), (1, 256), (255, 65280)] {
        let h = Header { id, length };
        assert_eq!(Header::from_bytes(&h.to_bytes()), Ok(h));
    }
}

#[test]
fn header_ignores_bytes_behind_it() {
    let h = Header::from_bytes(&[0x00, 0x02, 0x00, 0x08, 0xaa, 0xbb]);
    assert_eq!(h, Ok(Header { id: 2, length: 8 }));
}

#[test]
fn header_truncated() {
    assert_eq!(Header::from_bytes(&[]), Err(DecodeFault::Truncated));
    assert_eq!(Header::from_bytes(&[5, 1, 0]), Err(DecodeFault::Truncated));
}

#[test]
fn versioned_header_decodes_all_fields() {
    let bytes = [0x05, 0x01, 0x01, 0x2c, 0x01, 0x01, 0xab, 0xcd, 0xde, 0xad, 0xbe, 0xef, 0x77];
    let h = VersionedHeader::from_bytes(&bytes);
    assert_eq!(
        h,
        Ok(VersionedHeader {
            id: 0x0501,
            length: 300,
            version: 0x0101,
            reserved: 0xabcd,
            checksum: 0xdeadbeef,
        })
    );
}

#[test]
fn versioned_header_truncated() {
    assert_eq!(VersionedHeader::from_bytes(&[0u8; 11]), Err(DecodeFault::Truncated));
    assert!(VersionedHeader::from_bytes(&[0u8; 12]).is_ok());
}

#[test]
fn prefixed_field_decodes() {
    let f = PrefixedField::from_bytes(&[0x00, 0x03, 9, 8, 7, 6]).unwrap();
    assert_eq!(f.length, 3);
    assert_eq!(f.data, vec![9, 8, 7]);
    assert_eq!(f.size(), 5);
}

#[test]
fn prefixed_field_empty() {
    let f = PrefixedField::from_bytes(&[0x00, 0x00]).unwrap();
    assert_eq!(f.length, 0);
    assert!(f.data.is_empty());
    assert_eq!(f.size(), 2);
}

#[test]
fn prefixed_field_round_trip() {
    let f = PrefixedField { length: 0x0102, data: vec![0x5a; 0x0102] };
    let wire = f.to_bytes();
    assert_eq!(wire.len(), 0x0104);
    assert_eq!(&wire[..2], &[0x01, 0x02]);
    let back = PrefixedField::from_bytes(&wire).unwrap();
    assert_eq!(back.length, f.length);
    assert_eq!(back.data, f.data);
}

#[test]
fn prefixed_field_truncated_inputs() {
    assert!(matches!(PrefixedField::from_bytes(&[]), Err(DecodeFault::Truncated)));
    assert!(matches!(PrefixedField::from_bytes(&[0x00]), Err(DecodeFault::Truncated)));
    assert!(matches!(PrefixedField::from_bytes(&[0x00, 0x04, 1, 2, 3]), Err(DecodeFault::Truncated)));
    assert!(matches!(PrefixedField::from_bytes(&[0xff, 0xff]), Err(DecodeFault::Truncated)));
}

#[test]
fn prefixed_field_every_truncation_fails() {
    let f = PrefixedField { length: 20, data: (0u8..20).collect() };
    let wire = f.to_bytes();
    for cut in 0..wire.len() {
        assert!(matches!(PrefixedField::from_bytes(&wire[..cut]), Err(DecodeFault::Truncated)));
    }
    assert!(PrefixedField::from_bytes(&wire).is_ok());
}

#[test]
fn prefixed_string_decodes() {
    let p = PrefixedString::from_bytes(&[0x00, 0x03, b'a', b'b', b'c', b'z']).unwrap();
    assert_eq!(p.string, "abc");
    assert_eq!(p.size(), 5);
}

#[test]
fn prefixed_string_round_trip() {
    for s in ["", "abc", "d\u{e9}j\u{e0} vu", "\u{1f600} smile", "0123456789abcdef"] {
        let p = PrefixedString { string: s.to_string() };
        let wire = p.to_bytes();
        assert_eq!(wire.len(), s.len() + 2);
        assert_eq!(p.size(), s.len() + 2);
        let back = PrefixedString::from_bytes(&wire).unwrap();
        assert_eq!(back.string, s);
        assert_eq!(back.size(), s.len() + 2);
    }
}

#[test]
fn prefixed_string_longest() {
    let s = "x".repeat(65535);
    let p = PrefixedString { string: s.clone() };
    let wire = p.to_bytes();
    assert_eq!(&wire[..2], &[0xff, 0xff]);
    assert_eq!(wire.len(), 65537);
    assert_eq!(PrefixedString::from_bytes(&wire).unwrap().string, s);
}

#[test]
fn prefixed_string_invalid_utf8() {
    let r = PrefixedString::from_bytes(&[0x00, 0x02, 0xc3, 0x28]);
    assert!(matches!(r, Err(DecodeFault::InvalidUtf8)));
    let r = PrefixedString::from_bytes(&[0x00, 0x01, 0xff]);
    assert!(matches!(r, Err(DecodeFault::InvalidUtf8)));
}

#[test]
fn prefixed_string_truncated_before_utf8_is_looked_at() {
    let r = PrefixedString::from_bytes(&[0x00, 0x05, 0xff, 0xff]);
    assert!(matches!(r, Err(DecodeFault::Truncated)));
}

#[test]
fn prefixed_string_with_null_round_trip() {
    for s in ["", "abc", "gr\u{fc}n"] {
        let p = PrefixedStringWithNull { string: s.to_string() };
        let wire = p.to_bytes();
        assert_eq!(wire.len(), s.len() + 3);
        assert_eq!(*wire.last().unwrap(), 0);
        assert_eq!(p.size(), s.len() + 3);
        let back = PrefixedStringWithNull::from_bytes(&wire).unwrap();
        assert_eq!(back.string, s);
        assert_eq!(back.size(), s.len() + 3);
    }
}

#[test]
fn prefixed_string_with_null_needs_the_reserved_byte() {
    let r = PrefixedStringWithNull::from_bytes(&[0x00, 0x03, b'a', b'b', b'c']);
    assert!(matches!(r, Err(DecodeFault::Truncated)));
    let r = PrefixedStringWithNull::from_bytes(&[0x00, 0x03, b'a', b'b', b'c', 0x00]);
    assert_eq!(r.unwrap().string, "abc");
}

#[test]
fn prefixed_string_with_null_invalid_utf8() {
    let r = PrefixedStringWithNull::from_bytes(&[0x00, 0x01, 0x80, 0x00]);
    assert!(matches!(r, Err(DecodeFault::InvalidUtf8)));
}

#[test]
fn plain_string_decodes_prefix_of_buffer() {
    let p = PlainString::from_bytes(b"hello world", 5).unwrap();
    assert_eq!(p.string, "hello");
    let p = PlainString::from_bytes(b"hello", 0).unwrap();
    assert_eq!(p.string, "");
}

#[test]
fn plain_string_errors() {
    assert!(matches!(PlainString::from_bytes(b"abc", 4), Err(DecodeFault::Truncated)));
    assert!(matches!(PlainString::from_bytes(&[b'a', 0xfe], 2), Err(DecodeFault::InvalidUtf8)));
    // a cut inside a two-byte character is not valid text
    assert!(matches!(PlainString::from_bytes(&[0xc3, 0xa9], 1), Err(DecodeFault::InvalidUtf8)));
}

#[test]
fn message_container_decodes() {
    let c = MessageContainer::from_bytes(&[0x12, 0x34, 1, 2, 3]).unwrap();
    assert_eq!(c.id(), 0x1234);
    assert_eq!(c.data(), &[1, 2, 3]);
    assert_eq!(c.size(), 7);
}

#[test]
fn message_container_empty_payload_and_truncation() {
    let c = MessageContainer::from_bytes(&[0x00, 0x00]).unwrap();
    assert_eq!(c.id(), 0);
    assert!(c.data().is_empty());
    assert_eq!(c.size(), 4);
    assert!(matches!(MessageContainer::from_bytes(&[0x00]), Err(DecodeFault::Truncated)));
    assert!(matches!(MessageContainer::from_bytes(&[]), Err(DecodeFault::Truncated)));
}

#[test]
fn message_container_round_trip_and_mutation() {
    let mut c = MessageContainer::from_bytes(&[0x00, 0x07, 0xaa]).unwrap();
    assert_eq!(c.to_bytes(), vec![0x00, 0x07, 0xaa]);
    c.set_id(0x0102);
    assert_eq!(c.id(), 0x0102);
    assert_eq!(c.data(), &[0xaa]);
    c.data_mut().push(0xbb);
    assert_eq!(c.id(), 0x0102);
    assert_eq!(c.data(), &[0xaa, 0xbb]);
    assert_eq!(c.to_bytes(), vec![0x01, 0x02, 0xaa, 0xbb]);
    let back = MessageContainer::from_bytes(&c.to_bytes()).unwrap();
    assert_eq!(back.id(), c.id());
    assert_eq!(back.data(), c.data());
}

#[test]
fn prefixed_string_every_truncation_fails() {
    let p = PrefixedString { string: "caf\u{e9} au lait".to_string() };
    let wire = p.to_bytes();
    for cut in 0..wire.len() {
        assert!(matches!(PrefixedString::from_bytes(&wire[..cut]), Err(DecodeFault::Truncated)));
    }
    let q = PrefixedStringWithNull { string: "caf\u{e9} au lait".to_string() };
    let wire = q.to_bytes();
    for cut in 0..wire.len() {
        assert!(matches!(
            PrefixedStringWithNull::from_bytes(&wire[..cut]),
            Err(DecodeFault::Truncated)
        ));
    }
}

#[test]
fn bytes_behind_a_field_do_not_matter() {
    let mut wire = PrefixedString { string: "abc".to_string() }.to_bytes();
    wire.extend_from_slice(&[0xff, 0xfe, 0xfd]);
    assert_eq!(PrefixedString::from_bytes(&wire).unwrap().string, "abc");
    let f = PrefixedField::from_bytes(&wire).unwrap();
    assert_eq!(f.data, b"abc".to_vec());
}
