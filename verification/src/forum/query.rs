//! Query objects derived from notification messages: the device identifier
//! and location a caller needs to reach the announced device.

use vstd::prelude::*;

use crate::forum::device::{spec_device_type_version, DeviceType, DeviceTypeV};
use crate::forum::TargetType;
use crate::version::Version;

verus! {

/// Offset of the UUID inside a UDN: the length of the `uuid:` prefix.
pub const UDN_UUID_OFFSET: usize = 5;

/// Exposes information available to typed queries.
pub trait TypedQuery {
    /// The version of the standardized type being queried.
    spec fn spec_version(&self) -> Version;

    /// The version of the standardized type being queried.
    fn version(&self) -> (r: Version)
        ensures
            r == self.spec_version(),
    ;
}

/// Query containing no type information about what device it is querying.
#[derive(Clone, PartialEq, Eq, Hash, Debug)]
pub struct GenericQuery {
    url: String,
    udn: Vec<u8>,
}

impl GenericQuery {
    /// The location URL this query would address.
    pub closed spec fn spec_url(&self) -> Seq<char> {
        self.url@
    }

    /// The unique device name this query addresses, as `uuid:` plus the
    /// device's UUID text.
    pub closed spec fn spec_udn(&self) -> Seq<u8> {
        self.udn@
    }

    /// Create a query for the device at `url` with unique device name `udn`.
    pub fn new(url: String, udn: Vec<u8>) -> (r: GenericQuery)
        ensures
            r.spec_url() == url@,
            r.spec_udn() == udn@,
    {
        GenericQuery { url, udn }
    }

    /// The UUID text of the device: the UDN with its `uuid:` prefix cut off.
    pub fn uuid(&self) -> (r: &[u8])
        requires
            self.spec_udn().len() >= 5,
        ensures
            r@ == self.spec_udn().skip(5),
    {
        let r = vstd::slice::slice_subrange(self.udn.as_slice(), UDN_UUID_OFFSET, self.udn.len());
        assert(r@ =~= self.spec_udn().skip(5));
        r
    }
}

/// A typed device query: a generic query together with the standardized
/// device type that was advertised.
///
/// One parameterized wrapper serves every device class; the class is the
/// [`DeviceType`] tag.
#[derive(Clone, PartialEq, Eq, Hash, Debug)]
pub struct DeviceQuery {
    query: GenericQuery,
    dev_type: DeviceType,
}

impl DeviceQuery {
    /// The untyped query this device query wraps.
    pub closed spec fn spec_query(&self) -> GenericQuery {
        self.query
    }

    /// The advertised device type.
    pub closed spec fn spec_dev_type(&self) -> DeviceTypeV {
        self.dev_type@
    }

    /// Create a new DeviceQuery from the given query and device type.
    pub fn new(query: GenericQuery, dev_type: DeviceType) -> (r: DeviceQuery)
        ensures
            r.spec_query() == query,
            r.spec_dev_type() == dev_type@,
    {
        DeviceQuery { query, dev_type }
    }

    /// The UUID text of the device being queried.
    pub fn uuid(&self) -> (r: &[u8])
        requires
            self.spec_query().spec_udn().len() >= 5,
        ensures
            r@ == self.spec_query().spec_udn().skip(5),
    {
        self.query.uuid()
    }
}

impl TypedQuery for DeviceQuery {
    open spec fn spec_version(&self) -> Version {
        spec_device_type_version(self.spec_dev_type())
    }

    fn version(&self) -> Version {
        self.dev_type.version()
    }
}

/// Represents typed and untyped query objects.
#[derive(Clone, PartialEq, Eq, Hash, Debug)]
pub enum QueryType {
    Root(GenericQuery),
    UUID(GenericQuery),
    Device(DeviceQuery),
}

impl QueryType {
    /// The untyped query under this query object.
    pub closed spec fn spec_query(&self) -> GenericQuery {
        match self {
            QueryType::Root(q) => *q,
            QueryType::UUID(q) => *q,
            QueryType::Device(d) => d.spec_query(),
        }
    }

    /// Creates a new QueryType from the given query and target.
    ///
    /// Service targets are unsupported: the service query path is not
    /// implemented, so callers must have dealt with them already (the
    /// message layer reports a service target as an error).
    pub fn new(query: GenericQuery, target: TargetType) -> (r: QueryType)
        requires
            !(target@ is Service),
        ensures
            r.spec_query() == query,
            target@ is Root ==> r is Root,
            target@ is UUID ==> r is UUID,
            target@ matches crate::forum::TargetTypeV::Device(d) ==> r matches QueryType::Device(
                dq,
            ) && dq.spec_dev_type() == d,
    {
        match target {
            TargetType::Root => QueryType::Root(query),
            TargetType::UUID => QueryType::UUID(query),
            TargetType::Device(n) => QueryType::Device(DeviceQuery::new(query, n)),
            TargetType::Service(_) => vstd::pervasive::unreached(),
        }
    }

    /// The UUID text of the device this query addresses.
    pub fn uuid(&self) -> (r: &[u8])
        requires
            self.spec_query().spec_udn().len() >= 5,
        ensures
            r@ == self.spec_query().spec_udn().skip(5),
    {
        match self {
            QueryType::Root(n) => n.uuid(),
            QueryType::UUID(n) => n.uuid(),
            QueryType::Device(n) => n.uuid(),
        }
    }
}

} // verus!
