use ssdp::field::FieldPair::{Unknown, UPnP, URN, UUID};
use ssdp::field::FieldPair;
use ssdp::header::{BOOTID, CONFIGID, MAN, NT, SEARCHPORT, SECURELOCATION, ST, USN};

#[test]
fn positive_configid() {
    let configid_header_value = &[b"1777215"[..].to_vec()];

    CONFIGID::parse_header(configid_header_value).unwrap();
}

#[test]
fn positive_reserved() {
    let configid_header_value = &[b"20720000"[..].to_vec()];

    CONFIGID::parse_header(configid_header_value).unwrap();
}

#[test]
fn positive_lower_bound() {
    let configid_header_value = &[b"0"[..].to_vec()];

    CONFIGID::parse_header(configid_header_value).unwrap();
}

#[test]
fn positive_upper_bound() {
    let configid_header_value = &[b"2147483647"[..].to_vec()];

    CONFIGID::parse_header(configid_header_value).unwrap();
}

#[test]
fn positive_negative_zero() {
    let configid_header_value = &[b"-0"[..].to_vec()];

    CONFIGID::parse_header(configid_header_value).unwrap();
}

#[test]
#[should_panic]
fn negative_overflow() {
    let configid_header_value = &[b"2290649224"[..].to_vec()];

    CONFIGID::parse_header(configid_header_value).unwrap();
}

#[test]
#[should_panic]
fn negative_negative_overflow() {
    let configid_header_value = &[b"-2290649224"[..].to_vec()];

    CONFIGID::parse_header(configid_header_value).unwrap();
}

#[test]
#[should_panic]
fn negative_nan() {
    let configid_header_value = &[b"2290wow649224"[..].to_vec()];

    CONFIGID::parse_header(configid_header_value).unwrap();
}

#[test]
fn configid_values() {
    assert_eq!(
        CONFIGID::parse_header(&[b"1777215"[..].to_vec()]).unwrap(),
        CONFIGID(1777215)
    );
    assert_eq!(
        CONFIGID::parse_header(&[b"-0"[..].to_vec()]).unwrap(),
        CONFIGID(0)
    );
    assert_eq!(CONFIGID::parse_header(&[b"-5"[..].to_vec()]), None);
}

#[test]
fn positive_man() {
    let man_header = &[b"\"ssdp:discover\""[..].to_vec()];

    MAN::parse_header(man_header).unwrap();
}

#[test]
#[should_panic]
fn negative_wrong_case() {
    let wrong_case_man_header = &[b"\"SSDP:discover\""[..].to_vec()];

    MAN::parse_header(wrong_case_man_header).unwrap();
}

#[test]
#[should_panic]
fn negative_missing_quotes() {
    let missing_quotes_man_header = &[b"ssdp:discover"[..].to_vec()];

    MAN::parse_header(missing_quotes_man_header).unwrap();
}

#[test]
fn nt_positive_uuid() {
    let uuid_header = &["uuid:a984bc8c-aaf0-5dff-b980-00d098bda247".to_string().into_bytes()];

    let data = match NT::parse_header(uuid_header) {
        Some(NT(UUID(n))) => n,
        _ => panic!("uuid Token Not Parsed"),
    };

    assert!(uuid_header[0][5..].iter().zip(data.iter()).all(|(a, b)| a == b));
}

#[test]
fn positive_upnp() {
    let upnp_header = &["upnp:rootdevice".to_string().into_bytes()];

    let data = match NT::parse_header(upnp_header) {
        Some(NT(UPnP(n))) => n,
        _ => panic!("upnp Token Not Parsed"),
    };

    assert!(upnp_header[0][5..].iter().zip(data.iter()).all(|(a, b)| a == b));
}

#[test]
fn positive_urn() {
    let urn_header = &["urn:schemas-upnp-org:device:printer:1".to_string().into_bytes()];

    let data = match NT::parse_header(urn_header) {
        Some(NT(URN(n))) => n,
        _ => panic!("urn Token Not Parsed"),
    };

    assert!(urn_header[0][4..].iter().zip(data.iter()).all(|(a, b)| a == b));
}

#[test]
fn positive_unknown() {
    let unknown_header = &["max-age:1500::upnp:rootdevice".to_string().into_bytes()];

    let (k, v) = match NT::parse_header(unknown_header) {
        Some(NT(Unknown(k, v))) => (k, v),
        _ => panic!("Unknown Token Not Parsed"),
    };

    let sep_iter = b":".iter();
    let mut original_iter = unknown_header[0][..].iter();
    let mut result_iter = k[..].iter().chain(sep_iter).chain(v[..].iter());

    assert!(original_iter.by_ref().zip(result_iter.by_ref()).all(|(&a, &b)| a == b));
    assert!(result_iter.next().is_none() && original_iter.next().is_none());
}

#[test]
fn positive_short_field() {
    let short_header = &["a:a".to_string().into_bytes()];

    let (k, v) = match NT::parse_header(short_header) {
        Some(NT(Unknown(k, v))) => (k, v),
        _ => panic!("Unknown Short Token Not Parsed"),
    };

    let sep_iter = b":".iter();
    let mut original_iter = short_header[0][..].iter();
    let mut result_iter = k[..].iter().chain(sep_iter).chain(v[..].iter());

    assert!(original_iter.by_ref().zip(result_iter.by_ref()).all(|(&a, &b)| a == b));
    assert!(result_iter.next().is_none() && original_iter.next().is_none());
}

#[test]
fn positive_leading_double_colon() {
    let leading_double_colon_header =
        &["uuid::a984bc8c-aaf0-5dff-b980-00d098bda247".to_string().into_bytes()];

    let result = match NT::parse_header(leading_double_colon_header).unwrap() {
        NT(UUID(n)) => n,
        _ => panic!("NT Double Colon Failed To Parse"),
    };

    assert_eq!(result, b":a984bc8c-aaf0-5dff-b980-00d098bda247".to_vec());
}

#[test]
#[should_panic]
fn negative_double_colon() {
    let double_colon_header = &["::".to_string().into_bytes()];

    NT::parse_header(double_colon_header).unwrap();
}

#[test]
#[should_panic]
fn negative_single_colon() {
    let single_colon_header = &[":".to_string().into_bytes()];

    NT::parse_header(single_colon_header).unwrap();
}

#[test]
#[should_panic]
fn negative_empty_field() {
    let empty_header = &["".to_string().into_bytes()];

    NT::parse_header(empty_header).unwrap();
}

#[test]
#[should_panic]
fn negative_no_colon() {
    let no_colon_header = &["some_key-some_value".to_string().into_bytes()];

    NT::parse_header(no_colon_header).unwrap();
}

#[test]
fn positive_securelocation() {
    let securelocation_header_value = &[b"https://192.168.1.1/"[..].to_vec()];

    SECURELOCATION::parse_header(securelocation_header_value).unwrap();
}

#[test]
fn positive_invalid_url() {
    let securelocation_header_value = &[b"just some text"[..].to_vec()];

    SECURELOCATION::parse_header(securelocation_header_value).unwrap();
}

#[test]
#[should_panic]
fn negative_empty() {
    let securelocation_header_value = &[b""[..].to_vec()];

    SECURELOCATION::parse_header(securelocation_header_value).unwrap();
}

#[test]
#[should_panic]
fn negative_invalid_utf8() {
    let securelocation_header_value = &[b"https://192.168.1.1/\x80"[..].to_vec()];

    SECURELOCATION::parse_header(securelocation_header_value).unwrap();
}

#[test]
fn positive_all() {
    let st_all_header = &[b"ssdp:all"[..].to_vec()];

    match ST::parse_header(st_all_header) {
        Some(ST::All) => (),
        _ => panic!("Failed To Match ST::All Header"),
    }
}

#[test]
fn positive_field_upnp() {
    let st_upnp_root_header = &[b"upnp:some_identifier"[..].to_vec()];

    match ST::parse_header(st_upnp_root_header) {
        Some(ST::Target(FieldPair::UPnP(_))) => (),
        _ => panic!("Failed To Match ST::Target Header To FieldPair::UPnP"),
    }
}

#[test]
fn positive_field_urn() {
    let st_urn_root_header = &[b"urn:some_identifier"[..].to_vec()];

    match ST::parse_header(st_urn_root_header) {
        Some(ST::Target(FieldPair::URN(_))) => (),
        _ => panic!("Failed To Match ST::Target Header To FieldPair::URN"),
    }
}

#[test]
fn positive_field_uuid() {
    let st_uuid_root_header = &[b"uuid:some_identifier"[..].to_vec()];

    match ST::parse_header(st_uuid_root_header) {
        Some(ST::Target(FieldPair::UUID(_))) => (),
        _ => panic!("Failed To Match ST::Target Header To FieldPair::UUID"),
    }
}

#[test]
fn field_pair_round_trips() {
    let tokens: Vec<&[u8]> = vec![
        b"uuid:a984bc8c-aaf0-5dff-b980-00d098bda247",
        b"uuid::a984bc8c-aaf0-5dff-b980-00d098bda247",
        b"urn:schemas-upnp-org:device:printer:1",
        b"upnp:rootdevice",
        b"max-age:1500::upnp:rootdevice",
        b"a:a",
        b"upnp:",
    ];
    for token in tokens {
        let pair = FieldPair::new(token).unwrap();
        assert_eq!(pair.to_bytes(), token.to_vec());
    }
}

#[test]
fn usn_splits_on_double_colon() {
    let usn_header =
        &["uuid:ae239f00-ae2b-bbad-ddf1-88ddcc00a234::upnp:rootdevice".to_string().into_bytes()];
    let usn = USN::parse_header(usn_header).unwrap();
    assert_eq!(
        usn.0,
        FieldPair::UUID(b"ae239f00-ae2b-bbad-ddf1-88ddcc00a234".to_vec())
    );
    assert_eq!(usn.1, Some(FieldPair::UPnP(b"rootdevice".to_vec())));
}

#[test]
fn usn_without_second_field() {
    let usn_header = &["uuid:ae239f00-ae2b-bbad-ddf1-88ddcc00a234".to_string().into_bytes()];
    let usn = USN::parse_header(usn_header).unwrap();
    assert_eq!(
        usn.0,
        FieldPair::UUID(b"ae239f00-ae2b-bbad-ddf1-88ddcc00a234".to_vec())
    );
    assert_eq!(usn.1, None);
}

#[test]
fn usn_leading_double_colon_stays_in_value() {
    let usn_header = &["uuid::a984bc8c-aaf0-5dff-b980-00d098bda247".to_string().into_bytes()];
    let usn = USN::parse_header(usn_header).unwrap();
    assert_eq!(
        usn.0,
        FieldPair::UUID(b":a984bc8c-aaf0-5dff-b980-00d098bda247".to_vec())
    );
    assert_eq!(usn.1, None);
}

#[test]
fn usn_unparseable_second_field() {
    let usn_header = &["uuid:ae239f00::notafieldpair".to_string().into_bytes()];
    assert_eq!(USN::parse_header(usn_header), None);
}

#[test]
fn header_names() {
    assert_eq!(NT::header_name(), "NT");
    assert_eq!(ST::header_name(), "ST");
    assert_eq!(MAN::header_name(), "MAN");
    assert_eq!(CONFIGID::header_name(), "CONFIGID.UPNP.ORG");
    assert_eq!(SECURELOCATION::header_name(), "SECURELOCATION.UPNP.ORG");
    assert_eq!(USN::header_name(), "USN");
    assert_eq!(BOOTID::header_name(), "BOOTID.UPNP.ORG");
    assert_eq!(SEARCHPORT::header_name(), "SEARCHPORT.UPNP.ORG");
    assert_eq!(ssdp::header::NTS::header_name(), "NTS");
}

#[test]
fn bootid_searchport_parse() {
    assert_eq!(BOOTID::parse_header(&[b"89"[..].to_vec()]), Some(BOOTID(89)));
    assert_eq!(
        BOOTID::parse_header(&[b"4294967295"[..].to_vec()]),
        Some(BOOTID(4294967295))
    );
    assert_eq!(BOOTID::parse_header(&[b"4294967296"[..].to_vec()]), None);
    assert_eq!(BOOTID::parse_header(&[b"-1"[..].to_vec()]), None);
    assert_eq!(
        SEARCHPORT::parse_header(&[b"1901"[..].to_vec()]),
        Some(SEARCHPORT(1901))
    );
    assert_eq!(SEARCHPORT::parse_header(&[b"65536"[..].to_vec()]), None);
}

#[test]
fn st_round_trips() {
    let all = ST::parse_header(&[b"ssdp:all"[..].to_vec()]).unwrap();
    assert_eq!(all.to_bytes(), b"ssdp:all".to_vec());

    let target = ST::parse_header(&[b"urn:schemas-upnp-org:device:printer:1"[..].to_vec()]).unwrap();
    assert_eq!(
        target.to_bytes(),
        b"urn:schemas-upnp-org:device:printer:1".to_vec()
    );
}
