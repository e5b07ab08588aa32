//! Static per-service descriptor.
//!
//! Each declared service fixes, at compile time, a stable identifier, its
//! settings, state, state-operator and message types, and the capacity of its
//! relay buffer. The descriptor is consumed by [`crate::handle::ServiceHandle`]
//! when it builds runners. The service's own run loop is asynchronous and
//! lives outside this library, in the unverified glue that spawns what a
//! runner assembles.

use vstd::prelude::*;

verus! {

/// The stable identifier of a declared service.
pub type ServiceId = &'static str;

/// A service state that can be derived from a settings value. The handle
/// derives the initial state once, at construction, and reseeds every later
/// pipeline from that original value.
pub trait ServiceState<Settings>: Sized {
    /// The state a settings value determines.
    spec fn spec_from_settings(settings: Settings) -> Self;

    /// Derive the initial state from the initial settings.
    fn from_settings(settings: &Settings) -> (r: Self)
        ensures
            r == Self::spec_from_settings(*settings),
    ;
}

/// The static descriptor of one declared service: exactly one per service
/// type.
pub trait ServiceData: Sized {
    /// The service's settings type.
    type Settings;

    /// The service's state type, derivable from settings and clonable so each
    /// runner build can be reseeded from the original initial state.
    type State: ServiceState<Self::Settings> + Clone;

    /// The policy persisting this service's state snapshots.
    type StateOperator: crate::state::StateOperator<Self::State>;

    /// The messages the service's relay carries.
    type Message;

    /// The service's stable identifier.
    spec fn spec_service_id() -> ServiceId;

    /// The service's stable identifier.
    fn service_id() -> (r: ServiceId)
        ensures
            r == Self::spec_service_id(),
    ;

    /// The capacity of the service's relay buffer.
    spec fn spec_relay_buffer_size() -> usize;

    /// The capacity of the service's relay buffer: a positive integer, fixed
    /// at the descriptor.
    fn relay_buffer_size() -> (r: usize)
        ensures
            r == Self::spec_relay_buffer_size(),
            1 <= r,
    ;
}

/// Marker for types a relay may carry.
pub trait RelayMessage {
}

} // verus!
