//! Service handle and runner.
//!
//! A [`ServiceHandle`] exists from construction to teardown: it owns the
//! settings cell, the service's original initial state (computed once and
//! never mutated), the scheduling context, and — once a runner has been built
//! — the current relay producer. [`ServiceHandle::service_runner`] assembles
//! everything one running instance needs: a fresh relay pair sized by the
//! descriptor, a reader of the handle's settings cell, and a fresh
//! persistence pipeline reseeded from the original initial state; the
//! producer end is installed into the handle, replacing any previous one
//! without stopping a previously started instance. Spawning the runner's two
//! tasks is asynchronous and done by unverified glue outside the library,
//! from the public parts of [`ServiceRunner`].

use vstd::prelude::*;

use crate::overwatch::OverwatchHandle;
use crate::relay::{relay, InboundRelay, OutboundRelay};
use crate::service::{ServiceData, ServiceId, ServiceState};
use crate::settings::{AnySettings, SettingsNotifier, SettingsUpdater};
use crate::state::{StateHandle, StateOperator, StateUpdater};
use vstd::rwlock::RwLock;

verus! {

/// Per-service-type owner of the settings cell, the original initial state
/// and, while an instance is reachable, the current relay producer.
pub struct ServiceHandle<S: ServiceData> {
    /// The producer end of the current instance's relay; absent until the
    /// first runner is built, replaced on each later build.
    outbound_relay: Option<OutboundRelay<S::Message>>,
    overwatch_handle: OverwatchHandle,
    settings: SettingsUpdater<S::Settings>,
    initial_state: S::State,
}

/// The per-instance resource bundle handed to a starting service: the relay
/// consumer, the scheduling context, a settings reader and the state pusher.
pub struct ServiceStateHandle<S: ServiceData> {
    /// Consumer end of the instance's relay.
    pub inbound_relay: InboundRelay<S::Message>,
    /// The shared scheduling context.
    pub overwatch_handle: OverwatchHandle,
    /// Reader of the handle's settings cell.
    pub settings_reader: SettingsNotifier<S::Settings>,
    /// Pusher of state snapshots into the instance's pipeline.
    pub state_updater: StateUpdater<S::State>,
    /// Placeholder for lifecycle wiring owned by the supervising layer.
    pub _lifecycle_handler: (),
}

/// The assembled, spawn-ready execution unit for one instance of a service:
/// the resource bundle paired with the pipeline that drains its pusher. The
/// unverified glue that spawns the two tasks consumes both parts.
pub struct ServiceRunner<S: ServiceData> {
    /// The bundle the service instance is initialized from.
    pub service_state: ServiceStateHandle<S>,
    /// The pipeline instance draining the bundle's state pusher.
    pub state_handle: StateHandle<S::State, S::StateOperator>,
}

impl<S: ServiceData> ServiceHandle<S> {
    /// The currently installed relay producer, if a runner has been built.
    pub closed spec fn producer(self) -> Option<OutboundRelay<S::Message>> {
        self.outbound_relay
    }

    /// The scheduling context the handle was constructed with.
    pub closed spec fn scheduler(self) -> OverwatchHandle {
        self.overwatch_handle
    }

    /// The settings cell owned by this handle.
    pub closed spec fn settings_cell(self) -> RwLock<S::Settings, AnySettings> {
        self.settings.cell()
    }

    /// The original initial state, derived once at construction.
    pub closed spec fn init_state(self) -> S::State {
        self.initial_state
    }

    /// Construct the handle: derive the descriptor's initial state from the
    /// initial settings, seed the settings cell with those settings, and
    /// leave the producer slot empty until a runner is built.
    pub fn new(settings: S::Settings, overwatch_handle: OverwatchHandle) -> (r: Self)
        ensures
            r.producer() is None,
            r.scheduler() == overwatch_handle,
            r.init_state() == <S::State as ServiceState<S::Settings>>::spec_from_settings(settings),
    {
        let initial_state = <S::State as ServiceState<S::Settings>>::from_settings(&settings);
        let settings = SettingsUpdater::new(settings);
        ServiceHandle { outbound_relay: None, settings, initial_state, overwatch_handle }
    }

    /// The service's stable identifier.
    pub fn id(&self) -> (r: ServiceId)
        ensures
            r == S::spec_service_id(),
    {
        S::service_id()
    }

    /// The scheduling runtime, for spawning work on demand.
    pub fn runtime(&self) -> (r: &tokio::runtime::Handle)
        ensures
            *r == self.scheduler().runtime_spec(),
    {
        self.overwatch_handle.runtime()
    }

    /// The shared scheduling context.
    pub fn overwatch_handle(&self) -> (r: &OverwatchHandle)
        ensures
            *r == self.scheduler(),
    {
        &self.overwatch_handle
    }

    /// Request a relay with this service: the current producer if a runner
    /// has been built, `None` to signal that the service is not running.
    /// There is no retry or waiting — the caller decides what to do.
    /// Starting the runner happens in the glue that spawns it and is not
    /// observable here: the producer is present from the build on, so between
    /// build and start a caller already holds the channel the started service
    /// will drain.
    pub fn relay_with(&self) -> (r: Option<OutboundRelay<S::Message>>)
        ensures
            self.producer() is None ==> r is None,
            self.producer() is Some ==> r is Some
                && r->0.channel() == self.producer()->0.channel(),
    {
        match &self.outbound_relay {
            Some(producer) => Some(producer.clone()),
            None => None,
        }
    }

    /// Publish new settings: the cell's value is replaced atomically and
    /// every reader's next poll — whether the reader existed before this call
    /// or is subscribed afterwards — returns the published value, until a
    /// later publish replaces it.
    pub fn update_settings(&self, settings: S::Settings) {
        self.settings.update(settings)
    }

    /// Build a runner for this service: open a fresh relay sized by the
    /// descriptor, install its producer end here — the handle's previous
    /// producer end is detached, though producers already cloned out by
    /// callers stay individually usable, and no previously started instance
    /// is stopped — read the settings snapshot visible now, construct a fresh
    /// operator from it, and open a fresh pipeline reseeded from the original
    /// initial state. The runner pairs the resource bundle with that
    /// pipeline.
    pub fn service_runner(&mut self) -> (r: ServiceRunner<S>) where S::Settings: Clone
        ensures
            final(self).producer() is Some,
            r.service_state.inbound_relay.channel() == final(self).producer()->0.channel(),
            final(self).producer()->0.cap() == S::spec_relay_buffer_size(),
            r.service_state.settings_reader.cell() == old(self).settings_cell(),
            r.service_state.state_updater.queue() == r.state_handle.queue(),
            r.service_state.overwatch_handle.runtime_spec() == old(self).scheduler().runtime_spec(),
            final(self).settings_cell() == old(self).settings_cell(),
            final(self).init_state() == old(self).init_state(),
            final(self).scheduler() == old(self).scheduler(),
    {
        let (inbound_relay, outbound_relay) = relay::<S::Message>(S::relay_buffer_size());
        let settings_reader = self.settings.notifier();
        match self.outbound_relay.take() {
            Some(replaced_producer) => replaced_producer.close(),
            None => (),
        }
        self.outbound_relay = Some(outbound_relay);
        let settings = self.settings.notifier().get_updated_settings();
        let operator = S::StateOperator::from_settings::<S::Settings>(settings);
        let (state_handle, state_updater) = StateHandle::<S::State, S::StateOperator>::new(
            self.initial_state.clone(),
            operator,
        );

        let service_state = ServiceStateHandle {
            inbound_relay,
            overwatch_handle: self.overwatch_handle.clone(),
            state_updater,
            settings_reader,
            _lifecycle_handler: (),
        };

        ServiceRunner { service_state, state_handle }
    }
}

impl<S: ServiceData> ServiceStateHandle<S> {
    /// The stable identifier of the service this bundle belongs to.
    pub fn id(&self) -> (r: ServiceId)
        ensures
            r == S::spec_service_id(),
    {
        S::service_id()
    }
}

} // verus!
