use ssdp::field::FieldPair;
use ssdp::forum::device::DeviceType;
use ssdp::forum::{TargetError, TargetType};
use ssdp::version::Version;

#[test]
fn positive_root() {
    let root_pair = FieldPair::UPnP(b"rootdevice".to_vec());

    assert_eq!(TargetType::new(&root_pair).unwrap(), TargetType::Root);
}

#[test]
fn mod_positive_uuid() {
    let uuid_pair = FieldPair::UUID(b"valid_utf8_is_a_valid_uuid_in_upnp_10".to_vec());

    assert_eq!(TargetType::new(&uuid_pair).unwrap(), TargetType::UUID);
}

#[test]
fn positive_device() {
    let urn_pair = FieldPair::URN(b"schemas-upnp-org:device:Basic:1".to_vec());

    assert_eq!(
        TargetType::new(&urn_pair).unwrap(),
        TargetType::Device(DeviceType::BasicDevice(Version::V1))
    );
}

#[test]
fn positive_service() {
    let urn_pair = FieldPair::URN(b"schemas-upnp-org:device:Basic:1".to_vec());

    assert_eq!(
        TargetType::new(&urn_pair).unwrap(),
        TargetType::Device(DeviceType::BasicDevice(Version::V1))
    );
}

#[test]
#[should_panic]
fn negative_root() {
    let root_pair = FieldPair::UPnP(b"root_device".to_vec());

    TargetType::new(&root_pair).unwrap();
}

#[test]
#[should_panic]
fn negative_uuid() {
    let uuid_pair = FieldPair::UUID(b"woops_invalid_utf8_\x80".to_vec());

    TargetType::new(&uuid_pair).unwrap();
}

#[test]
#[should_panic]
fn negative_missing_urn_schema() {
    let urn_pair = FieldPair::URN(b":device:Basic:1".to_vec());

    TargetType::new(&urn_pair).unwrap();
}

#[test]
#[should_panic]
fn negative_bad_urn_class() {
    let urn_pair = FieldPair::URN(b"schemas-upnp-org:blarg:Basic:1".to_vec());

    TargetType::new(&urn_pair).unwrap();
}

#[test]
#[should_panic]
fn negative_bad_urn_version() {
    let urn_pair = FieldPair::URN(b"schemas-upnp-org:device:Basic:one".to_vec());

    TargetType::new(&urn_pair).unwrap();
}

#[test]
#[should_panic]
fn negative_extra_fields() {
    let urn_pair = FieldPair::URN(b"schemas-upnp-org:device:Basic:1:extra".to_vec());

    TargetType::new(&urn_pair).unwrap();
}

#[test]
fn positive_upnp_schema() {
    let device_type = DeviceType::new("schemas-upnp-org", "Basic", Version::V1);

    assert_eq!(device_type, DeviceType::BasicDevice(Version::V1));
}

#[test]
fn positive_unimplemented_device() {
    let device_type = DeviceType::new("schemas-upnp-org", "Blargenfargen", Version::V1);

    assert_eq!(
        device_type,
        DeviceType::Unimplemented("Blargenfargen".to_string(), Version::V1)
    );
}

#[test]
fn urn_standard_names_resolve() {
    let cases: Vec<(&[u8], DeviceType)> = vec![
        (
            b"schemas-upnp-org:device:MediaServer:2",
            DeviceType::MediaServer(Version::V2),
        ),
        (
            b"schemas-upnp-org:device:InternetGatewayDevice:1",
            DeviceType::InternetGateway(Version::V1),
        ),
        (
            b"schemas-upnp-org:device:Printer:5",
            DeviceType::Printer(Version::V5),
        ),
        (
            b"schemas-upnp-org:device:HVAC_System:3",
            DeviceType::HVACSystem(Version::V3),
        ),
    ];
    for (urn, expected) in cases {
        let pair = FieldPair::URN(urn.to_vec());
        assert_eq!(TargetType::new(&pair).unwrap(), TargetType::Device(expected));
    }
}

#[test]
fn urn_unknown_name_is_data_not_error() {
    let pair = FieldPair::URN(b"schemas-upnp-org:device:FizzBuzzDevice:4".to_vec());
    assert_eq!(
        TargetType::new(&pair).unwrap(),
        TargetType::Device(DeviceType::Unimplemented(
            "FizzBuzzDevice".to_string(),
            Version::V4
        ))
    );
}

#[test]
fn urn_service_class_resolves() {
    let pair = FieldPair::URN(b"schemas-upnp-org:service:ContentDirectory:1".to_vec());
    assert_eq!(
        TargetType::new(&pair).unwrap(),
        TargetType::Service(ssdp::forum::service::ServiceType::PlaceHolder)
    );
}

#[test]
fn urn_vendor_schema_is_unsupported_error() {
    let pair = FieldPair::URN(b"vendor-schema-org:device:Basic:1".to_vec());
    assert_eq!(
        TargetType::new(&pair).unwrap_err(),
        ssdp::forum::TargetError::UnsupportedSchema
    );
}

#[test]
fn urn_error_variants() {
    let cases: Vec<(&[u8], TargetError)> = vec![
        (b"nocolon", TargetError::MissingClass),
        (b"a:b", TargetError::MissingType),
        (b"a:b:c", TargetError::MissingVersion),
        (b"a:b:c:0", TargetError::InvalidVersion),
        (b"a:b:c:6", TargetError::InvalidVersion),
        (b"a:device:c:1:extra", TargetError::InvalidFormat),
        (b"a:blarg:c:1", TargetError::InvalidTargetClass),
        (b"a:device:c\x80:1", TargetError::InvalidUrnUtf8),
    ];
    for (urn, expected) in cases {
        let pair = FieldPair::URN(urn.to_vec());
        assert_eq!(TargetType::new(&pair).unwrap_err(), expected);
    }
}

#[test]
fn unknown_field_key_invalid_as_target() {
    let pair = FieldPair::Unknown(b"max-age".to_vec(), b"1500".to_vec());
    assert_eq!(
        TargetType::new(&pair).unwrap_err(),
        ssdp::forum::TargetError::UnknownFieldKey
    );
    assert_eq!(
        ssdp::forum::TargetError::UnknownFieldKey
            .to_simple_error()
            .description(),
        "Target Unknown Field Key Is Invalid As A Target Type"
    );
}

#[test]
fn device_type_version_accessor() {
    assert_eq!(
        DeviceType::new("schemas-upnp-org", "Scanner", Version::V3).version(),
        Version::V3
    );
    assert_eq!(
        DeviceType::Unimplemented("Whatever".to_string(), Version::V2).version(),
        Version::V2
    );
}

#[test]
fn version_conversions() {
    assert_eq!(Version::from_u8(1), Some(Version::V1));
    assert_eq!(Version::from_u8(5), Some(Version::V5));
    assert_eq!(Version::from_u8(0), None);
    assert_eq!(Version::from_u8(6), None);
    assert_eq!(Version::from_str("3"), Some(Version::V3));
    assert_eq!(Version::from_str("+2"), Some(Version::V2));
    assert_eq!(Version::from_str(""), None);
    assert_eq!(Version::from_str("one"), None);
    assert_eq!(Version::from_str("256"), None);
}
