//! Whether the frame-sharing service exists on this platform.
use vstd::prelude::*;

use crate::client::create_client_call;
use crate::descriptor::ServerDescription;
use crate::directory::ServerDirectory;
use crate::lifecycle::Lifecycle;
use crate::handle::{Backend, NativeCall};
use crate::server::is_create_server;

verus! {

/// Whether the native frame-sharing service is present on this platform. Every entry point
/// (directory access, producer and consumer creation, context and texture helpers) takes it;
/// where the service is absent they yield no value and no foreign call is planned.
#[derive(Clone, Copy, Debug, PartialEq, Eq, Structural)]
pub struct Capability {
    available: bool,
}

impl Capability {
    pub closed spec fn spec_available(self) -> bool {
        self.available
    }

    /// The capability of a platform where the service is present or absent.
    pub fn new(available: bool) -> (r: Capability)
        ensures
            r.spec_available() == available,
    {
        Capability { available }
    }

    /// The capability of a platform without the service.
    pub fn unavailable() -> (r: Capability)
        ensures
            !r.spec_available(),
    {
        Capability { available: false }
    }

    pub fn is_available(&self) -> (r: bool)
        ensures
            r == self.spec_available(),
    {
        self.available
    }

    /// Lets a call through when the service is present, and none when it is absent.
    pub fn permit(&self, call: NativeCall) -> (r: Option<NativeCall>)
        ensures
            r == (if self.spec_available() { Some(call) } else { None::<NativeCall> }),
    {
        if self.available {
            Some(call)
        } else {
            None
        }
    }
}

/// Without the service nothing is planned: no producer and no consumer is requested, the
/// only creation request a producer may have is none, and no valid directory, description
/// or producer or consumer lifecycle exists under it, so none of their calls can be planned.
pub proof fn lemma_absent_service_plans_nothing(
    cap: Capability,
    backend: Backend,
    name: Option<&str>,
    description: u64,
    target: u64,
    with_callback: bool,
    r: Option<NativeCall>,
    dir: &ServerDirectory,
    d: &ServerDescription,
    l: &Lifecycle,
)
    requires
        !cap.spec_available(),
    ensures
        is_create_server(r, cap, backend, name, target) <==> r is None,
        create_client_call(cap, backend, description, target, with_callback) is None,
        dir.spec_cap() == cap ==> !dir.wf(),
        d.spec_cap() == cap ==> !d.wf(),
        l.spec_cap() == cap ==> !l.wf(),
{
}

} // verus!
