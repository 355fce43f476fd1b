//! Frame consumers for the OpenGL and Metal backends.
use vstd::prelude::*;

use crate::descriptor::ServerDescription;
use crate::capability::Capability;
use crate::handle::{Backend, HandleKind, NativeCall};
use crate::lifecycle::Lifecycle;

verus! {

/// The subscription request for a consumer: planned only where the service is present and
/// the context or device is not null.
pub open spec fn create_client_call(
    cap: Capability,
    backend: Backend,
    description: u64,
    target: u64,
    with_callback: bool,
) -> Option<NativeCall> {
    if cap.spec_available() && target != 0 {
        Some(NativeCall::CreateClient(backend, description, target, with_callback))
    } else {
        None
    }
}

fn create_client_request(
    cap: &Capability,
    backend: Backend,
    description: &ServerDescription,
    target: u64,
    with_callback: bool,
) -> (r: Option<NativeCall>)
    ensures
        r == create_client_call(*cap, backend, description.spec_addr(), target, with_callback),
{
    if !cap.is_available() || target == 0 {
        return None;
    }
    Some(NativeCall::CreateClient(backend, description.addr(), target, with_callback))
}

/// Creates the lifecycle of a consumer once the framework answered a subscription request.
fn start_client(cap: &Capability, backend: Backend, target: u64, raw: u64) -> (r: Option<Lifecycle>)
    ensures
        r is Some <==> cap.spec_available() && target != 0 && raw != 0,
        r matches Some(l) ==> l.wf() && l.spec_kind() == HandleKind::Client(backend)
            && l.spec_addr() == raw && l.spec_live(),
{
    if !cap.is_available() || target == 0 {
        return None;
    }
    Lifecycle::start(cap, HandleKind::Client(backend), raw)
}

/// An OpenGL consumer: subscribes to one producer's frames on a context.
///
/// Where a new-frame callback was registered, its storage belongs to this consumer for its
/// whole life. The framework may call it from any thread until the consumer is stopped, so
/// that storage may only be freed after every call of [`OpenGLClient::finish`] has run.
#[derive(Debug)]
pub struct OpenGLClient {
    life: Lifecycle,
    callback: bool,
}

impl OpenGLClient {
    pub closed spec fn spec_life(&self) -> Lifecycle {
        self.life
    }

    /// Whether a new-frame callback was registered for this consumer.
    pub closed spec fn spec_has_callback(&self) -> bool {
        self.callback
    }

    pub open spec fn wf(&self) -> bool {
        self.spec_life().wf() && self.spec_life().spec_kind() == HandleKind::Client(Backend::OpenGL)
    }

    pub open spec fn spec_addr(&self) -> u64 {
        self.spec_life().spec_addr()
    }

    pub open spec fn spec_live(&self) -> bool {
        self.spec_life().spec_live()
    }

    /// The subscription request to `description`'s producer on `context`, with or without a
    /// new-frame callback.
    pub fn create_request(
        cap: &Capability,
        description: &ServerDescription,
        context: u64,
        with_callback: bool,
    ) -> (r: Option<NativeCall>)
        ensures
            r == create_client_call(*cap, Backend::OpenGL, description.spec_addr(), context, with_callback),
    {
        create_client_request(cap, Backend::OpenGL, description, context, with_callback)
    }

    /// The consumer the framework created (`raw`) on `context`; none where the service is
    /// absent, the context is null, or the subscription failed.
    pub fn new(cap: &Capability, context: u64, raw: u64, with_callback: bool) -> (r: Option<OpenGLClient>)
        ensures
            r is Some <==> cap.spec_available() && context != 0 && raw != 0,
            r matches Some(c) ==> c.wf() && c.spec_addr() == raw && c.spec_live()
                && c.spec_has_callback() == with_callback,
    {
        match start_client(cap, Backend::OpenGL, context, raw) {
            Some(life) => Some(OpenGLClient { life, callback: with_callback }),
            None => None,
        }
    }

    pub fn addr(&self) -> (r: u64)
        ensures
            r == self.spec_addr(),
    {
        self.life.addr()
    }

    pub fn is_live(&self) -> (r: bool)
        ensures
            r == self.spec_live(),
    {
        self.life.is_live()
    }

    pub fn has_callback(&self) -> (r: bool)
        ensures
            r == self.spec_has_callback(),
    {
        self.callback
    }

    /// Asks whether the subscription is live; none once stopped, where the answer is false.
    pub fn is_valid(&self) -> (r: Option<NativeCall>)
        ensures
            r == self.spec_life().query_call(NativeCall::IsValid(Backend::OpenGL, self.spec_addr())),
    {
        self.life.query(NativeCall::IsValid(Backend::OpenGL, self.life.addr()))
    }

    /// Asks whether an unconsumed frame is pending; none once stopped, where the answer is
    /// false.
    pub fn has_new_frame(&self) -> (r: Option<NativeCall>)
        ensures
            r == self.spec_life().query_call(NativeCall::HasNewFrame(Backend::OpenGL, self.spec_addr())),
    {
        self.life.query(NativeCall::HasNewFrame(Backend::OpenGL, self.life.addr()))
    }

    /// Asks for the current frame as an owned frame handle; none once stopped.
    pub fn new_frame_image(&self) -> (r: Option<NativeCall>)
        ensures
            r == self.spec_life().query_call(
                NativeCall::NewFrameImage(HandleKind::Client(Backend::OpenGL), self.spec_addr()),
            ),
    {
        self.life.query(NativeCall::NewFrameImage(HandleKind::Client(Backend::OpenGL), self.life.addr()))
    }

    /// Stops the subscription, which unregisters the callback; idempotent.
    pub fn stop(&mut self) -> (r: Option<NativeCall>)
        ensures
            r == old(self).spec_life().stop_call(),
            final(self).spec_life() == old(self).spec_life().spec_stopped(),
            !final(self).spec_live(),
            final(self).spec_addr() == old(self).spec_addr(),
            final(self).wf() == old(self).wf(),
            final(self).spec_has_callback() == old(self).spec_has_callback(),
    {
        let r = self.life.stop();
        r
    }

    /// Ends the consumer: a stop (which unregisters the callback), whatever stops came
    /// before, then its one release. The flag says whether callback storage is then to be freed, after all
    /// of those calls.
    pub fn finish(self) -> (r: (Vec<NativeCall>, bool))
        ensures
            r.0@ == self.spec_life().finish_calls(),
            r.1 == self.spec_has_callback(),
    {
        let callback = self.callback;
        (self.life.finish(), callback)
    }
}

/// A Metal consumer: subscribes to one producer's frames on a device.
///
/// Where a new-frame callback was registered, its storage belongs to this consumer for its
/// whole life. The framework may call it from any thread until the consumer is stopped, so
/// that storage may only be freed after every call of [`MetalClient::finish`] has run.
#[derive(Debug)]
pub struct MetalClient {
    life: Lifecycle,
    callback: bool,
}

impl MetalClient {
    pub closed spec fn spec_life(&self) -> Lifecycle {
        self.life
    }

    /// Whether a new-frame callback was registered for this consumer.
    pub closed spec fn spec_has_callback(&self) -> bool {
        self.callback
    }

    pub open spec fn wf(&self) -> bool {
        self.spec_life().wf() && self.spec_life().spec_kind() == HandleKind::Client(Backend::Metal)
    }

    pub open spec fn spec_addr(&self) -> u64 {
        self.spec_life().spec_addr()
    }

    pub open spec fn spec_live(&self) -> bool {
        self.spec_life().spec_live()
    }

    /// The subscription request to `description`'s producer on `device`, with or without a
    /// new-frame callback.
    pub fn create_request(
        cap: &Capability,
        description: &ServerDescription,
        device: u64,
        with_callback: bool,
    ) -> (r: Option<NativeCall>)
        ensures
            r == create_client_call(*cap, Backend::Metal, description.spec_addr(), device, with_callback),
    {
        create_client_request(cap, Backend::Metal, description, device, with_callback)
    }

    /// The consumer the framework created (`raw`) on `device`; none where the service is
    /// absent, the device is null, or the subscription failed.
    pub fn new(cap: &Capability, device: u64, raw: u64, with_callback: bool) -> (r: Option<MetalClient>)
        ensures
            r is Some <==> cap.spec_available() && device != 0 && raw != 0,
            r matches Some(c) ==> c.wf() && c.spec_addr() == raw && c.spec_live()
                && c.spec_has_callback() == with_callback,
    {
        match start_client(cap, Backend::Metal, device, raw) {
            Some(life) => Some(MetalClient { life, callback: with_callback }),
            None => None,
        }
    }

    pub fn addr(&self) -> (r: u64)
        ensures
            r == self.spec_addr(),
    {
        self.life.addr()
    }

    pub fn is_live(&self) -> (r: bool)
        ensures
            r == self.spec_live(),
    {
        self.life.is_live()
    }

    pub fn has_callback(&self) -> (r: bool)
        ensures
            r == self.spec_has_callback(),
    {
        self.callback
    }

    /// Asks whether the subscription is live; none once stopped, where the answer is false.
    pub fn is_valid(&self) -> (r: Option<NativeCall>)
        ensures
            r == self.spec_life().query_call(NativeCall::IsValid(Backend::Metal, self.spec_addr())),
    {
        self.life.query(NativeCall::IsValid(Backend::Metal, self.life.addr()))
    }

    /// Asks whether an unconsumed frame is pending; none once stopped, where the answer is
    /// false.
    pub fn has_new_frame(&self) -> (r: Option<NativeCall>)
        ensures
            r == self.spec_life().query_call(NativeCall::HasNewFrame(Backend::Metal, self.spec_addr())),
    {
        self.life.query(NativeCall::HasNewFrame(Backend::Metal, self.life.addr()))
    }

    /// Asks for the current frame as an owned frame handle; none once stopped.
    pub fn new_frame_image(&self) -> (r: Option<NativeCall>)
        ensures
            r == self.spec_life().query_call(
                NativeCall::NewFrameImage(HandleKind::Client(Backend::Metal), self.spec_addr()),
            ),
    {
        self.life.query(NativeCall::NewFrameImage(HandleKind::Client(Backend::Metal), self.life.addr()))
    }

    /// Stops the subscription, which unregisters the callback; idempotent.
    pub fn stop(&mut self) -> (r: Option<NativeCall>)
        ensures
            r == old(self).spec_life().stop_call(),
            final(self).spec_life() == old(self).spec_life().spec_stopped(),
            !final(self).spec_live(),
            final(self).spec_addr() == old(self).spec_addr(),
            final(self).wf() == old(self).wf(),
            final(self).spec_has_callback() == old(self).spec_has_callback(),
    {
        let r = self.life.stop();
        r
    }

    /// Ends the consumer: a stop (which unregisters the callback), whatever stops came
    /// before, then its one release. The flag says whether callback storage is then to be freed, after all
    /// of those calls.
    pub fn finish(self) -> (r: (Vec<NativeCall>, bool))
        ensures
            r.0@ == self.spec_life().finish_calls(),
            r.1 == self.spec_has_callback(),
    {
        let callback = self.callback;
        (self.life.finish(), callback)
    }
}

} // verus!
