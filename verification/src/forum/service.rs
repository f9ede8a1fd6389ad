//! Service types of the UPnP Forum layer; only a placeholder is implemented.

use vstd::prelude::*;

use crate::version::Version;

verus! {

/// Service types of the UPnP Forum layer.  The standardized service table is
/// not implemented yet, so every service resolves to the placeholder.
#[derive(Copy, Clone, PartialEq, Eq, Structural, Hash, Debug)]
pub enum ServiceType {
    PlaceHolder,
}

impl ServiceType {
    /// Create a new ServiceType from the given values.
    pub fn new(_schema: &str, _svc_type: &str, _version: Version) -> (r: ServiceType)
        ensures
            r == ServiceType::PlaceHolder,
    {
        ServiceType::PlaceHolder
    }
}

} // verus!
