//! Device types included in the UPnP Forum layer of the UPnP architecture.

use vstd::prelude::*;
use vstd::string::StringSliceAdditionalSpecFns;
use vstd::utf8::encode_utf8;

use crate::bytes::bytes_eq;
use crate::version::Version;

verus! {

pub const BASIC_DEVICE_NAME: &'static str = "Basic";

pub const MEDIA_SERVER_NAME: &'static str = "MediaServer";

pub const MEDIA_RENDERER_NAME: &'static str = "MediaRenderer";

pub const MANAGED_DEVICE_NAME: &'static str = "ManageableDevice";

pub const SOLAR_BLIND_NAME: &'static str = "SolarProtectionBlind";

pub const SECURITY_CAMERA_NAME: &'static str = "DigitalSecurityCamera";

pub const HVAC_SYSTEM_NAME: &'static str = "HVAC_System";

pub const BINARY_LIGHT_NAME: &'static str = "BinaryLight";

pub const DIMMABLE_LIGHT_NAME: &'static str = "DimmableLight";

pub const INTERNET_GATEWAY_NAME: &'static str = "InternetGatewayDevice";

pub const WIRELESS_AP_NAME: &'static str = "WLANAccessPointDevice";

pub const PRINTER_NAME: &'static str = "Printer";

pub const SCANNER_NAME: &'static str = "Scanner";

pub const SENSOR_MANAGER_NAME: &'static str = "SensorManagement";

pub const TELEPHONY_CLIENT_NAME: &'static str = "TelephonyClient";

pub const TELEPHONY_SERVER_NAME: &'static str = "TelephonyServer";

/// Device types included in the UPnP Forum layer of the UPnP architecture.
///
/// Unimplemented: MultiScreen, RemoteAccess, Remoting.
#[derive(PartialEq, Eq, Hash, Debug)]
pub enum DeviceType {
    /// Device that provides basic information about itself.
    BasicDevice(Version),
    /// Device that provides an interface for accessing a MediaServer.
    MediaServer(Version),
    /// Device that provides an interface for accessing a MediaRenderer.
    MediaRenderer(Version),
    /// Device that provides an interface for maintenance.
    ManagedDevice(Version),
    /// Device that provides an interface for adjusting blinds.
    SolarBlind(Version),
    /// Device that provides an interface for accessing a security camera.
    SecurityCamera(Version),
    /// Device that provides an interface for controlling an HVAC system.
    HVACSystem(Version),
    /// Device that provides an interface for toggling a light.
    BinaryLight(Version),
    /// Device that provides an interface for toggling and dimming a light.
    DimmableLight(Version),
    /// Device that provides an interface for interfacing with a router.
    InternetGateway(Version),
    /// Device that provides an interface for interfacing with a wireless
    /// access point.
    WirelessAP(Version),
    /// Device that provides an interface for print services.
    Printer(Version),
    /// Device that provides an interface for scanning services.
    Scanner(Version),
    /// Device that provides an interface for accessing sensors and actuators.
    SensorManager(Version),
    /// Device that provides an interface for controlling a telephony client.
    TelephonyClient(Version),
    /// Device that provides an interface for controlling a telephony server.
    TelephonyServer(Version),
    /// Device that has not been implemented; carries the advertised type
    /// name.
    Unimplemented(String, Version),
}

/// The mathematical value of a [`DeviceType`]; an unrecognized name is
/// carried as its bytes.
pub ghost enum DeviceTypeV {
    BasicDevice(Version),
    MediaServer(Version),
    MediaRenderer(Version),
    ManagedDevice(Version),
    SolarBlind(Version),
    SecurityCamera(Version),
    HVACSystem(Version),
    BinaryLight(Version),
    DimmableLight(Version),
    InternetGateway(Version),
    WirelessAP(Version),
    Printer(Version),
    Scanner(Version),
    SensorManager(Version),
    TelephonyClient(Version),
    TelephonyServer(Version),
    Unimplemented(Seq<u8>, Version),
}

impl View for DeviceType {
    type V = DeviceTypeV;

    open spec fn view(&self) -> DeviceTypeV {
        match self {
            DeviceType::BasicDevice(v) => DeviceTypeV::BasicDevice(*v),
            DeviceType::MediaServer(v) => DeviceTypeV::MediaServer(*v),
            DeviceType::MediaRenderer(v) => DeviceTypeV::MediaRenderer(*v),
            DeviceType::ManagedDevice(v) => DeviceTypeV::ManagedDevice(*v),
            DeviceType::SolarBlind(v) => DeviceTypeV::SolarBlind(*v),
            DeviceType::SecurityCamera(v) => DeviceTypeV::SecurityCamera(*v),
            DeviceType::HVACSystem(v) => DeviceTypeV::HVACSystem(*v),
            DeviceType::BinaryLight(v) => DeviceTypeV::BinaryLight(*v),
            DeviceType::DimmableLight(v) => DeviceTypeV::DimmableLight(*v),
            DeviceType::InternetGateway(v) => DeviceTypeV::InternetGateway(*v),
            DeviceType::WirelessAP(v) => DeviceTypeV::WirelessAP(*v),
            DeviceType::Printer(v) => DeviceTypeV::Printer(*v),
            DeviceType::Scanner(v) => DeviceTypeV::Scanner(*v),
            DeviceType::SensorManager(v) => DeviceTypeV::SensorManager(*v),
            DeviceType::TelephonyClient(v) => DeviceTypeV::TelephonyClient(*v),
            DeviceType::TelephonyServer(v) => DeviceTypeV::TelephonyServer(*v),
            DeviceType::Unimplemented(n, v) => DeviceTypeV::Unimplemented(encode_utf8(n@), *v),
        }
    }
}

/// The device type a standardized type name denotes: the static table of
/// known names, with every other name carried as data, never an error.
pub open spec fn spec_match_vendor_name(name: Seq<u8>, version: Version) -> DeviceTypeV {
    if name == BASIC_DEVICE_NAME.spec_bytes() {
        DeviceTypeV::BasicDevice(version)
    } else if name == MEDIA_SERVER_NAME.spec_bytes() {
        DeviceTypeV::MediaServer(version)
    } else if name == MEDIA_RENDERER_NAME.spec_bytes() {
        DeviceTypeV::MediaRenderer(version)
    } else if name == MANAGED_DEVICE_NAME.spec_bytes() {
        DeviceTypeV::ManagedDevice(version)
    } else if name == SOLAR_BLIND_NAME.spec_bytes() {
        DeviceTypeV::SolarBlind(version)
    } else if name == SECURITY_CAMERA_NAME.spec_bytes() {
        DeviceTypeV::SecurityCamera(version)
    } else if name == HVAC_SYSTEM_NAME.spec_bytes() {
        DeviceTypeV::HVACSystem(version)
    } else if name == BINARY_LIGHT_NAME.spec_bytes() {
        DeviceTypeV::BinaryLight(version)
    } else if name == DIMMABLE_LIGHT_NAME.spec_bytes() {
        DeviceTypeV::DimmableLight(version)
    } else if name == INTERNET_GATEWAY_NAME.spec_bytes() {
        DeviceTypeV::InternetGateway(version)
    } else if name == WIRELESS_AP_NAME.spec_bytes() {
        DeviceTypeV::WirelessAP(version)
    } else if name == PRINTER_NAME.spec_bytes() {
        DeviceTypeV::Printer(version)
    } else if name == SCANNER_NAME.spec_bytes() {
        DeviceTypeV::Scanner(version)
    } else if name == SENSOR_MANAGER_NAME.spec_bytes() {
        DeviceTypeV::SensorManager(version)
    } else if name == TELEPHONY_CLIENT_NAME.spec_bytes() {
        DeviceTypeV::TelephonyClient(version)
    } else if name == TELEPHONY_SERVER_NAME.spec_bytes() {
        DeviceTypeV::TelephonyServer(version)
    } else {
        DeviceTypeV::Unimplemented(name, version)
    }
}

/// The version a device type carries.
pub open spec fn spec_device_type_version(d: DeviceTypeV) -> Version {
    match d {
        DeviceTypeV::BasicDevice(n) => n,
        DeviceTypeV::MediaServer(n) => n,
        DeviceTypeV::MediaRenderer(n) => n,
        DeviceTypeV::ManagedDevice(n) => n,
        DeviceTypeV::SolarBlind(n) => n,
        DeviceTypeV::SecurityCamera(n) => n,
        DeviceTypeV::HVACSystem(n) => n,
        DeviceTypeV::BinaryLight(n) => n,
        DeviceTypeV::DimmableLight(n) => n,
        DeviceTypeV::InternetGateway(n) => n,
        DeviceTypeV::WirelessAP(n) => n,
        DeviceTypeV::Printer(n) => n,
        DeviceTypeV::Scanner(n) => n,
        DeviceTypeV::SensorManager(n) => n,
        DeviceTypeV::TelephonyClient(n) => n,
        DeviceTypeV::TelephonyServer(n) => n,
        DeviceTypeV::Unimplemented(_, n) => n,
    }
}

impl Clone for DeviceType {
    /// Clone the device type, keeping its value.
    fn clone(&self) -> (r: Self)
        ensures
            r@ == self@,
    {
        match self {
            DeviceType::BasicDevice(n) => DeviceType::BasicDevice(*n),
            DeviceType::MediaServer(n) => DeviceType::MediaServer(*n),
            DeviceType::MediaRenderer(n) => DeviceType::MediaRenderer(*n),
            DeviceType::ManagedDevice(n) => DeviceType::ManagedDevice(*n),
            DeviceType::SolarBlind(n) => DeviceType::SolarBlind(*n),
            DeviceType::SecurityCamera(n) => DeviceType::SecurityCamera(*n),
            DeviceType::HVACSystem(n) => DeviceType::HVACSystem(*n),
            DeviceType::BinaryLight(n) => DeviceType::BinaryLight(*n),
            DeviceType::DimmableLight(n) => DeviceType::DimmableLight(*n),
            DeviceType::InternetGateway(n) => DeviceType::InternetGateway(*n),
            DeviceType::WirelessAP(n) => DeviceType::WirelessAP(*n),
            DeviceType::Printer(n) => DeviceType::Printer(*n),
            DeviceType::Scanner(n) => DeviceType::Scanner(*n),
            DeviceType::SensorManager(n) => DeviceType::SensorManager(*n),
            DeviceType::TelephonyClient(n) => DeviceType::TelephonyClient(*n),
            DeviceType::TelephonyServer(n) => DeviceType::TelephonyServer(*n),
            DeviceType::Unimplemented(s, n) => DeviceType::Unimplemented(s.clone(), *n),
        }
    }
}

impl DeviceType {
    /// Create a new DeviceType from the given values.
    ///
    /// Only the UPnP forum schema is implemented; the vendor-extension path
    /// is unsupported, so callers must have checked the schema already (the
    /// target resolver reports a vendor schema as a typed error).
    pub fn new(schema: &str, dev_type: &str, version: Version) -> (r: DeviceType)
        requires
            schema.spec_bytes() == crate::forum::UPNP_SCHEMA_VALUE.spec_bytes(),
        ensures
            r@ == spec_match_vendor_name(dev_type.spec_bytes(), version),
    {
        match_vendor_name(dev_type, version)
    }

    /// The version this device type carries.
    pub fn version(&self) -> (r: Version)
        ensures
            r == spec_device_type_version(self@),
    {
        match self {
            DeviceType::BasicDevice(n) => *n,
            DeviceType::MediaServer(n) => *n,
            DeviceType::MediaRenderer(n) => *n,
            DeviceType::ManagedDevice(n) => *n,
            DeviceType::SolarBlind(n) => *n,
            DeviceType::SecurityCamera(n) => *n,
            DeviceType::HVACSystem(n) => *n,
            DeviceType::BinaryLight(n) => *n,
            DeviceType::DimmableLight(n) => *n,
            DeviceType::InternetGateway(n) => *n,
            DeviceType::WirelessAP(n) => *n,
            DeviceType::Printer(n) => *n,
            DeviceType::Scanner(n) => *n,
            DeviceType::SensorManager(n) => *n,
            DeviceType::TelephonyClient(n) => *n,
            DeviceType::TelephonyServer(n) => *n,
            DeviceType::Unimplemented(_, n) => *n,
        }
    }
}

/// Match the type name against the static table of standardized names.
///
/// Returns the appropriate DeviceType; an unrecognized name is data, not a
/// failure.
pub fn match_vendor_name(dev_type: &str, version: Version) -> (r: DeviceType)
    ensures
        r@ == spec_match_vendor_name(dev_type.spec_bytes(), version),
{
    let n = dev_type.as_bytes();
    if bytes_eq(n, BASIC_DEVICE_NAME.as_bytes()) {
        DeviceType::BasicDevice(version)
    } else if bytes_eq(n, MEDIA_SERVER_NAME.as_bytes()) {
        DeviceType::MediaServer(version)
    } else if bytes_eq(n, MEDIA_RENDERER_NAME.as_bytes()) {
        DeviceType::MediaRenderer(version)
    } else if bytes_eq(n, MANAGED_DEVICE_NAME.as_bytes()) {
        DeviceType::ManagedDevice(version)
    } else if bytes_eq(n, SOLAR_BLIND_NAME.as_bytes()) {
        DeviceType::SolarBlind(version)
    } else if bytes_eq(n, SECURITY_CAMERA_NAME.as_bytes()) {
        DeviceType::SecurityCamera(version)
    } else if bytes_eq(n, HVAC_SYSTEM_NAME.as_bytes()) {
        DeviceType::HVACSystem(version)
    } else if bytes_eq(n, BINARY_LIGHT_NAME.as_bytes()) {
        DeviceType::BinaryLight(version)
    } else if bytes_eq(n, DIMMABLE_LIGHT_NAME.as_bytes()) {
        DeviceType::DimmableLight(version)
    } else if bytes_eq(n, INTERNET_GATEWAY_NAME.as_bytes()) {
        DeviceType::InternetGateway(version)
    } else if bytes_eq(n, WIRELESS_AP_NAME.as_bytes()) {
        DeviceType::WirelessAP(version)
    } else if bytes_eq(n, PRINTER_NAME.as_bytes()) {
        DeviceType::Printer(version)
    } else if bytes_eq(n, SCANNER_NAME.as_bytes()) {
        DeviceType::Scanner(version)
    } else if bytes_eq(n, SENSOR_MANAGER_NAME.as_bytes()) {
        DeviceType::SensorManager(version)
    } else if bytes_eq(n, TELEPHONY_CLIENT_NAME.as_bytes()) {
        DeviceType::TelephonyClient(version)
    } else if bytes_eq(n, TELEPHONY_SERVER_NAME.as_bytes()) {
        DeviceType::TelephonyServer(version)
    } else {
        DeviceType::Unimplemented(dev_type.to_owned(), version)
    }
}

} // verus!
