//! Scheduling context.
//!
//! The runtime that schedules service and pipeline tasks is owned outside
//! this library; [`OverwatchHandle`] is the shared handle to it that every
//! construction step threads through, so nothing here ever creates a thread
//! of its own. The library only carries the runtime handle and hands it out;
//! spawning futures on it is done by the unverified glue around the library.

use vstd::prelude::*;

verus! {

#[verifier::external_type_specification]
#[verifier::external_body]
/// Declares tokio's runtime handle so it can be carried in fields and
/// signatures; the library never looks inside it.
pub struct ExTokioRuntimeHandle(tokio::runtime::Handle);

/// Relies on tokio's `runtime::Handle::clone`, a derived clone of a shared
/// handle: the clone designates the same runtime as the original.
#[verifier::external_body]
fn clone_runtime_handle(handle: &tokio::runtime::Handle) -> (r: tokio::runtime::Handle)
    ensures
        r == *handle,
{
    handle.clone()
}

/// Shared handle to the externally owned scheduling runtime, threaded through
/// every construction step that may need to spawn work.
pub struct OverwatchHandle {
    runtime: tokio::runtime::Handle,
}

impl OverwatchHandle {
    /// The runtime this handle designates.
    pub closed spec fn runtime_spec(self) -> tokio::runtime::Handle {
        self.runtime
    }

    /// Wrap a handle to the externally owned runtime.
    pub fn new(runtime: tokio::runtime::Handle) -> (r: Self)
        ensures
            r.runtime_spec() == runtime,
    {
        OverwatchHandle { runtime }
    }

    /// The scheduling runtime's own handle, for spawning tasks on it.
    pub fn runtime(&self) -> (r: &tokio::runtime::Handle)
        ensures
            *r == self.runtime_spec(),
    {
        &self.runtime
    }
}

impl Clone for OverwatchHandle {
    /// A handle to the same runtime.
    fn clone(&self) -> (r: Self)
        ensures
            r.runtime_spec() == self.runtime_spec(),
    {
        OverwatchHandle { runtime: clone_runtime_handle(&self.runtime) }
    }
}

} // verus!
