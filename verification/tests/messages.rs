use ssdp::discovery::{validate_notify_method, worker_step, ListenerState, TokenizedRequest, WorkerAction};
use ssdp::header::HeaderMap;
use ssdp::message::notify::{AliveMessage, ByeByeMessage, NotifyMessage, UpdateMessage};
use ssdp::message::{AliveExtV11, AliveExtV20, AliveVersion, MessageExt};
use ssdp::{HeaderName, SSDPError};

fn header_map(entries: &[(&str, &str)]) -> HeaderMap {
    let mut map = HeaderMap::new();
    for (name, value) in entries {
        map.insert_raw(name.as_bytes().to_vec(), value.as_bytes().to_vec());
    }
    map
}

fn alive_headers() -> Vec<(&'static str, &'static str)> {
    vec![
        ("HOST", "239.255.255.250:1900"),
        ("CACHE-CONTROL", "max-age=1800"),
        ("LOCATION", "http://192.168.0.1/desc.xml"),
        ("NT", "upnp:rootdevice"),
        ("NTS", "ssdp:alive"),
        ("SERVER", "Windows/3.1 UPnP/1.0 omni/0.0.1"),
        ("USN", "uuid:ae239f00-ae2b-bbad-ddf1-88ddcc00a234::upnp:rootdevice"),
    ]
}


fn alive_err(hs: &[(&str, &str)]) -> SSDPError {
    match AliveMessage::new(header_map(hs)) {
        Err(e) => e,
        Ok(_) => panic!("Expected An Error"),
    }
}

fn alive_headers_with(name: &'static str, value: &'static str) -> Vec<(&'static str, &'static str)> {
    let mut hs: Vec<(&'static str, &'static str)> = alive_headers()
        .into_iter()
        .filter(|(n, _)| *n != name)
        .collect();
    if !value.is_empty() {
        hs.push((name, value));
    }
    hs
}

#[test]
fn positive_alive_message() {
    let headers = header_map(&alive_headers());

    let message = AliveMessage::new(headers).unwrap();

    assert_eq!(message.max_age(), 1800);
    assert_eq!(message.server_info(), "Windows/3.1 UPnP/1.0 omni/0.0.1");
    assert!(matches!(message.version(), AliveVersion::V10));
    let query = message.query().unwrap();
    assert_eq!(query.uuid(), b"ae239f00-ae2b-bbad-ddf1-88ddcc00a234");
}

#[test]
fn alive_not_expired_right_after_construction() {
    let message = AliveMessage::new(header_map(&alive_headers())).unwrap();

    assert!(!message.is_expired());
}

#[test]
fn alive_zero_max_age_expires_immediately() {
    let headers = header_map(&alive_headers_with("CACHE-CONTROL", "max-age=0"));
    let message = AliveMessage::new(headers).unwrap();

    assert_eq!(message.max_age(), 0);
    // any elapsed time at all expires a zero lifetime, and constructing the
    // message already took some
    assert!(message.is_expired());
    assert!(message.expired_after_nanos(1));
    assert!(!message.expired_after_nanos(0));
}

#[test]
fn expiry_thresholds_are_exact() {
    let message = AliveMessage::new(header_map(&alive_headers())).unwrap();

    assert!(!message.expired_after_nanos(1_800_000_000_000));
    assert!(message.expired_after_nanos(1_800_000_000_001));
}

#[test]
fn nt_usn_uuid_without_second_field_is_valid() {
    let mut hs = alive_headers_with("NT", "uuid:ae239f00-ae2b-bbad-ddf1-88ddcc00a234");
    hs = hs
        .into_iter()
        .filter(|(n, _)| *n != "USN")
        .collect();
    hs.push(("USN", "uuid:ae239f00-ae2b-bbad-ddf1-88ddcc00a234"));
    AliveMessage::new(header_map(&hs)).unwrap();
}

#[test]
fn nt_usn_uuid_with_second_field_is_invalid() {
    let hs = alive_headers_with("NT", "uuid:ae239f00-ae2b-bbad-ddf1-88ddcc00a234");
    // the USN stays `uuid:<X>::upnp:rootdevice`: its second field must be
    // absent when NT carries a UUID
    let err = alive_err(&hs);
    assert_eq!(err, SSDPError::InvalidHeader(HeaderName::Usn));
}

#[test]
fn nt_usn_mismatched_uuid_is_invalid() {
    let mut hs = alive_headers_with("NT", "uuid:00000000-0000-0000-0000-000000000000");
    hs = hs.into_iter().filter(|(n, _)| *n != "USN").collect();
    hs.push(("USN", "uuid:ae239f00-ae2b-bbad-ddf1-88ddcc00a234"));
    let err = alive_err(&hs);
    assert_eq!(err, SSDPError::InvalidHeader(HeaderName::Nt));
}

#[test]
fn nt_usn_missing_second_field_is_invalid() {
    let mut hs = alive_headers();
    hs = hs.into_iter().filter(|(n, _)| *n != "USN").collect();
    hs.push(("USN", "uuid:ae239f00-ae2b-bbad-ddf1-88ddcc00a234"));
    let err = alive_err(&hs);
    assert_eq!(err, SSDPError::InvalidHeader(HeaderName::Usn));
}

#[test]
fn version_inference_v10_ignores_optional_fields() {
    let mut hs = alive_headers_with("SERVER", "OS/1 UPnP/1.0 Prod/1");
    hs.push(("BOOTID.UPNP.ORG", "89"));
    let message = AliveMessage::new(header_map(&hs)).unwrap();
    assert!(matches!(message.version(), AliveVersion::V10));
}

#[test]
fn version_inference_v11_exposes_boot_and_config() {
    let mut hs = alive_headers_with("SERVER", "OS/1 UPnP/1.1 Prod/1");
    hs.push(("BOOTID.UPNP.ORG", "89"));
    hs.push(("CONFIGID.UPNP.ORG", "8"));
    let message = AliveMessage::new(header_map(&hs)).unwrap();
    match message.version() {
        AliveVersion::V11(ext) => {
            assert_eq!(ext.boot_id(), 89);
            assert_eq!(ext.config_id(), 8);
            assert_eq!(ext.search_port(), None);
        }
        _ => panic!("Expected An Inferred 1.1 Version"),
    }
}

#[test]
fn version_inference_v11_missing_bootid_is_error() {
    let mut hs = alive_headers_with("SERVER", "OS/1 UPnP/1.1 Prod/1");
    hs.push(("CONFIGID.UPNP.ORG", "8"));
    let err = alive_err(&hs);
    assert_eq!(err, SSDPError::MissingHeader(HeaderName::BootId));
}

#[test]
fn version_inference_v10_wins_over_v20() {
    let hs = alive_headers_with("SERVER", "OS/1 UPnP/2.0 and UPnP/1.0 Prod/1");
    let message = AliveMessage::new(header_map(&hs)).unwrap();
    assert!(matches!(message.version(), AliveVersion::V10));
}

#[test]
fn version_inference_v20_with_secure_location() {
    let mut hs = alive_headers_with("SERVER", "OS/1 UPnP/2.0 Prod/1");
    hs.push(("BOOTID.UPNP.ORG", "3"));
    hs.push(("CONFIGID.UPNP.ORG", "0"));
    hs.push(("SEARCHPORT.UPNP.ORG", "1901"));
    hs.push(("SECURELOCATION.UPNP.ORG", "https://192.168.0.1/desc.xml"));
    let message = AliveMessage::new(header_map(&hs)).unwrap();
    match message.version() {
        AliveVersion::V20(ext) => {
            assert_eq!(ext.boot_id(), 3);
            assert_eq!(ext.config_id(), 0);
            assert_eq!(ext.search_port(), Some(1901));
            assert_eq!(ext.secure_location(), Some("https://192.168.0.1/desc.xml"));
        }
        _ => panic!("Expected An Inferred 2.0 Version"),
    }
}

#[test]
fn version_inference_unknown_is_error() {
    let hs = alive_headers_with("SERVER", "OS/1 UPnP/3.0 Prod/1");
    let err = alive_err(&hs);
    assert_eq!(err, SSDPError::InvalidHeader(HeaderName::Server));
}

#[test]
fn alive_missing_headers_are_errors() {
    let cases = vec![
        ("HOST", SSDPError::MissingHeader(HeaderName::Host)),
        ("CACHE-CONTROL", SSDPError::MissingHeader(HeaderName::CacheControl)),
        ("LOCATION", SSDPError::MissingHeader(HeaderName::Location)),
        ("NT", SSDPError::MissingHeader(HeaderName::Nt)),
        ("USN", SSDPError::MissingHeader(HeaderName::Usn)),
        ("SERVER", SSDPError::MissingHeader(HeaderName::Server)),
    ];
    for (name, expected) in cases {
        let hs = alive_headers_with(name, "");
        assert_eq!(alive_err(&hs), expected);
    }
}

#[test]
fn alive_wrong_multicast_host_is_error() {
    let hs = alive_headers_with("HOST", "239.255.255.250:1901");
    let err = alive_err(&hs);
    assert_eq!(err, SSDPError::InvalidHeader(HeaderName::Host));
}

#[test]
fn alive_cache_control_without_max_age_is_error() {
    let hs = alive_headers_with("CACHE-CONTROL", "no-cache, private");
    let err = alive_err(&hs);
    assert_eq!(err, SSDPError::InvalidHeader(HeaderName::CacheControl));
}

#[test]
fn alive_max_age_first_occurrence_wins() {
    let hs = alive_headers_with("CACHE-CONTROL", "no-cache, max-age=120, max-age=999");
    let message = AliveMessage::new(header_map(&hs)).unwrap();
    assert_eq!(message.max_age(), 120);
}

#[test]
fn alive_unparseable_location_is_error() {
    let hs = alive_headers_with("LOCATION", "not a url at all");
    let err = alive_err(&hs);
    assert_eq!(err, SSDPError::InvalidHeader(HeaderName::Location));
}

#[test]
fn update_message_validates_like_alive() {
    let hs = alive_headers_with("NTS", "ssdp:update");
    let message = UpdateMessage::new(header_map(&hs)).unwrap();
    assert_eq!(message.max_age(), 1800);
    assert!(matches!(message.version(), AliveVersion::V10));
}

#[test]
fn byebye_needs_no_cache_control_or_location() {
    let headers = header_map(&[
        ("HOST", "239.255.255.250:1900"),
        ("NT", "upnp:rootdevice"),
        ("NTS", "ssdp:byebye"),
        ("USN", "uuid:ae239f00-ae2b-bbad-ddf1-88ddcc00a234::upnp:rootdevice"),
    ]);
    let message = ByeByeMessage::new(headers).unwrap();
    let query = message.query().unwrap();
    assert_eq!(query.uuid(), b"ae239f00-ae2b-bbad-ddf1-88ddcc00a234");
}

#[test]
fn byebye_still_validates_nt_usn() {
    let headers = header_map(&[
        ("HOST", "239.255.255.250:1900"),
        ("NT", "upnp:rootdevice"),
        ("NTS", "ssdp:byebye"),
        ("USN", "uuid:ae239f00-ae2b-bbad-ddf1-88ddcc00a234::upnp:otherdevice"),
    ]);
    let err = match ByeByeMessage::new(headers) {
        Err(e) => e,
        Ok(_) => panic!("Expected An Error"),
    };
    assert_eq!(err, SSDPError::InvalidHeader(HeaderName::Nt));
}

#[test]
fn notify_message_dispatches_on_nts() {
    let alive = NotifyMessage::new(header_map(&alive_headers())).unwrap();
    assert!(matches!(alive, NotifyMessage::Alive(_)));

    let update = NotifyMessage::new(header_map(&alive_headers_with("NTS", "ssdp:update"))).unwrap();
    assert!(matches!(update, NotifyMessage::Update(_)));

    let byebye = NotifyMessage::new(header_map(&alive_headers_with("NTS", "ssdp:byebye"))).unwrap();
    assert!(matches!(byebye, NotifyMessage::ByeBye(_)));

    let missing = match NotifyMessage::new(header_map(&alive_headers_with("NTS", ""))) {
        Err(e) => e,
        Ok(_) => panic!("Expected An Error"),
    };
    assert_eq!(missing, SSDPError::MissingHeader(HeaderName::Nts));

    let unknown = match NotifyMessage::new(header_map(&alive_headers_with("NTS", "ssdp:gone"))) {
        Err(e) => e,
        Ok(_) => panic!("Expected An Error"),
    };
    assert_eq!(unknown, SSDPError::InvalidHeader(HeaderName::Nts));
}

#[test]
fn check_header_exposes_vendor_extensions() {
    let mut hs = alive_headers();
    hs.push(("X-VENDOR.EXAMPLE.ORG", "opaque"));
    let message = AliveMessage::new(header_map(&hs)).unwrap();
    let values = message.check_header(b"X-VENDOR.EXAMPLE.ORG").unwrap();
    assert_eq!(values, vec![b"opaque".to_vec()]);
    assert!(message.check_header(b"NO-SUCH-HEADER").is_none());
}

fn notify_request(entries: &[(&str, &str)]) -> TokenizedRequest {
    TokenizedRequest {
        method: b"NOTIFY".to_vec(),
        star_target: true,
        headers: header_map(entries),
    }
}

#[test]
fn worker_ignores_invalid_then_delivers_valid() {
    // a datagram that did not even tokenize
    let first = worker_step(false, None);
    assert!(matches!(first, WorkerAction::Ignore));

    // a tokenized request with a wrong method
    let mut bad = notify_request(&alive_headers());
    bad.method = b"M-SEARCH".to_vec();
    let second = worker_step(false, Some(bad));
    assert!(matches!(second, WorkerAction::Ignore));

    // a malformed announcement
    let malformed = notify_request(&alive_headers_with("HOST", "wrong:1900"));
    let third = worker_step(false, Some(malformed));
    assert!(matches!(third, WorkerAction::Ignore));

    // exactly the valid announcement is handed to the handler
    let valid = notify_request(&alive_headers());
    let fourth = worker_step(false, Some(valid));
    match fourth {
        WorkerAction::Deliver(NotifyMessage::Alive(_)) => (),
        _ => panic!("Expected The Valid Announcement To Be Delivered"),
    }

    // and the listener is still listening
    let state = ListenerState::Listening.observe(false);
    assert_eq!(state, ListenerState::Listening);
}

#[test]
fn worker_exits_once_cancelled() {
    // with the flag set the worker exits, even with a valid datagram in hand
    let valid = notify_request(&alive_headers());
    let action = worker_step(true, Some(valid));
    assert!(matches!(action, WorkerAction::Exit));

    let idle = worker_step(true, None);
    assert!(matches!(idle, WorkerAction::Exit));

    assert_eq!(ListenerState::Listening.observe(true), ListenerState::Stopped);
    assert_eq!(ListenerState::Stopped.observe(false), ListenerState::Stopped);
    // setting the flag more than once is idempotent
    assert_eq!(ListenerState::Stopped.observe(true), ListenerState::Stopped);
}

#[test]
fn validate_notify_method_checks_method_and_target() {
    assert!(validate_notify_method(b"NOTIFY", true).is_ok());
    assert_eq!(
        validate_notify_method(b"M-SEARCH", true).unwrap_err(),
        SSDPError::InvalidMethod
    );
    assert_eq!(
        validate_notify_method(b"NOTIFY", false).unwrap_err(),
        SSDPError::InvalidUri
    );
}
