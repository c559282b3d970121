//! Feature flags consulted by the surrounding service.

use vstd::prelude::*;

verus! {

/// The feature flags the service reads from its flag provider.
#[allow(non_camel_case_types)]
#[derive(Copy, Clone, PartialEq, Eq, Structural, Debug)]
pub enum UserFeatures {
    default,
    request_event,
    request_event_enabled,
}

} // verus!
