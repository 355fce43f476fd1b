//! Frame producers for the OpenGL and Metal backends.
use vstd::prelude::*;

use crate::capability::Capability;
use crate::handle::{Backend, HandleKind, NativeCall};
use crate::lifecycle::Lifecycle;

verus! {

/// The name a producer is created with: an absent name is the empty name.
pub open spec fn name_text(name: Option<&str>) -> Seq<char> {
    match name {
        Some(s) => s@,
        None => Seq::empty(),
    }
}

/// What a creation request for a producer must be: planned only where the service is
/// present and the context or device is not null.
pub open spec fn is_create_server(
    r: Option<NativeCall>,
    cap: Capability,
    backend: Backend,
    name: Option<&str>,
    target: u64,
) -> bool {
    if cap.spec_available() && target != 0 {
        r matches Some(NativeCall::CreateServer(b, n, t)) && b == backend && n@ == name_text(name)
            && t == target
    } else {
        r is None
    }
}

/// Plans the creation of a producer of either backend.
fn create_server_request(cap: &Capability, backend: Backend, name: Option<&str>, target: u64) -> (r:
    Option<NativeCall>)
    ensures
        is_create_server(r, *cap, backend, name, target),
{
    if !cap.is_available() || target == 0 {
        return None;
    }
    let text: &str = match name {
        Some(s) => s,
        None => "",
    };
    proof {
        reveal_strlit("");
    }
    let owned = text.to_string();
    proof {
        broadcast use vstd::string::to_string_from_display_ensures_for_str;

        assert(owned@ == text@);
        if name is None {
            assert(text@ =~= Seq::<char>::empty());
        }
        assert(text@ == name_text(name));
    }
    Some(NativeCall::CreateServer(backend, owned, target))
}

/// Creates the lifecycle of a producer once the framework answered a creation request.
fn start_server(cap: &Capability, backend: Backend, target: u64, raw: u64) -> (r: Option<Lifecycle>)
    ensures
        r is Some <==> cap.spec_available() && target != 0 && raw != 0,
        r matches Some(l) ==> l.wf() && l.spec_kind() == HandleKind::Server(backend)
            && l.spec_addr() == raw && l.spec_live(),
{
    if !cap.is_available() || target == 0 {
        return None;
    }
    Lifecycle::start(cap, HandleKind::Server(backend), raw)
}

/// An OpenGL producer: publishes frames from textures of one OpenGL context.
#[derive(Debug)]
pub struct OpenGLServer {
    life: Lifecycle,
}

impl OpenGLServer {
    pub closed spec fn spec_life(&self) -> Lifecycle {
        self.life
    }

    pub open spec fn wf(&self) -> bool {
        self.spec_life().wf() && self.spec_life().spec_kind() == HandleKind::Server(Backend::OpenGL)
    }

    pub open spec fn spec_addr(&self) -> u64 {
        self.spec_life().spec_addr()
    }

    pub open spec fn spec_live(&self) -> bool {
        self.spec_life().spec_live()
    }

    /// The creation request for a producer named `name` (absent: empty) on `context`.
    pub fn create_request(cap: &Capability, name: Option<&str>, context: u64) -> (r: Option<
        NativeCall,
    >)
        ensures
            is_create_server(r, *cap, Backend::OpenGL, name, context),
    {
        create_server_request(cap, Backend::OpenGL, name, context)
    }

    /// The producer the framework created (`raw`) on `context`; none where the service is
    /// absent, the context is null, or creation failed.
    pub fn new(cap: &Capability, context: u64, raw: u64) -> (r: Option<OpenGLServer>)
        ensures
            r is Some <==> cap.spec_available() && context != 0 && raw != 0,
            r matches Some(s) ==> s.wf() && s.spec_addr() == raw && s.spec_live(),
    {
        match start_server(cap, Backend::OpenGL, context, raw) {
            Some(life) => Some(OpenGLServer { life }),
            None => None,
        }
    }

    pub fn addr(&self) -> (r: u64)
        ensures
            r == self.spec_addr(),
    {
        self.life.addr()
    }

    pub fn is_live(&self) -> (r: bool)
        ensures
            r == self.spec_live(),
    {
        self.life.is_live()
    }

    /// Asks whether consumers are attached; none once stopped, where the answer is false.
    pub fn has_clients(&self) -> (r: Option<NativeCall>)
        ensures
            r == self.spec_life().query_call(NativeCall::HasClients(Backend::OpenGL, self.spec_addr())),
    {
        self.life.query(NativeCall::HasClients(Backend::OpenGL, self.life.addr()))
    }

    /// Asks for an owned description of this producer (see [`crate::ServerDescription::owned`]),
    /// stopped or not.
    pub fn server_description(&self) -> (r: Option<NativeCall>)
        ensures
            r == Some(NativeCall::ServerDescription(Backend::OpenGL, self.spec_addr())),
    {
        Some(NativeCall::ServerDescription(Backend::OpenGL, self.life.addr()))
    }

    /// Publishes an existing texture, flipped vertically or not; the source rectangle and
    /// texture size go beside the call. A null texture id is a silent no-op, and so is a
    /// stopped producer.
    pub fn publish_frame(&self, tex_id: u32, target: u32, flipped: bool) -> (r: Option<NativeCall>)
        ensures
            r == (if self.spec_live() && tex_id != 0 {
                Some(NativeCall::PublishTexture(self.spec_addr(), tex_id, target, flipped))
            } else {
                None::<NativeCall>
            }),
    {
        if tex_id == 0 {
            return None;
        }
        self.life.query(NativeCall::PublishTexture(self.life.addr(), tex_id, target, flipped))
    }

    /// Binds the producer's offscreen target for drawing a frame (its size goes with the
    /// call); pair with `unbind_and_publish`.
    pub fn bind_to_draw_frame(&self) -> (r: Option<NativeCall>)
        ensures
            r == self.spec_life().query_call(NativeCall::BindToDrawFrame(self.spec_addr())),
    {
        self.life.query(NativeCall::BindToDrawFrame(self.life.addr()))
    }

    /// Unbinds the offscreen target and publishes what was drawn into it.
    pub fn unbind_and_publish(&self) -> (r: Option<NativeCall>)
        ensures
            r == self.spec_life().query_call(NativeCall::UnbindAndPublish(self.spec_addr())),
    {
        self.life.query(NativeCall::UnbindAndPublish(self.life.addr()))
    }

    /// Stops publishing and detaches all consumers; idempotent.
    pub fn stop(&mut self) -> (r: Option<NativeCall>)
        ensures
            r == old(self).spec_life().stop_call(),
            final(self).spec_life() == old(self).spec_life().spec_stopped(),
            !final(self).spec_live(),
            final(self).spec_addr() == old(self).spec_addr(),
            final(self).wf() == old(self).wf(),
    {
        let r = self.life.stop();
        r
    }

    /// Ends the producer: a stop, whatever stops came before, then its one release.
    pub fn finish(self) -> (r: Vec<NativeCall>)
        ensures
            r@ == self.spec_life().finish_calls(),
    {
        self.life.finish()
    }
}

/// A Metal producer: publishes frames from textures of one Metal device.
#[derive(Debug)]
pub struct MetalServer {
    life: Lifecycle,
}

impl MetalServer {
    pub closed spec fn spec_life(&self) -> Lifecycle {
        self.life
    }

    pub open spec fn wf(&self) -> bool {
        self.spec_life().wf() && self.spec_life().spec_kind() == HandleKind::Server(Backend::Metal)
    }

    pub open spec fn spec_addr(&self) -> u64 {
        self.spec_life().spec_addr()
    }

    pub open spec fn spec_live(&self) -> bool {
        self.spec_life().spec_live()
    }

    /// The creation request for a producer named `name` (absent: empty) on `device`.
    pub fn create_request(cap: &Capability, name: Option<&str>, device: u64) -> (r: Option<
        NativeCall,
    >)
        ensures
            is_create_server(r, *cap, Backend::Metal, name, device),
    {
        create_server_request(cap, Backend::Metal, name, device)
    }

    /// The producer the framework created (`raw`) on `device`; none where the service is
    /// absent, the device is null, or creation failed.
    pub fn new(cap: &Capability, device: u64, raw: u64) -> (r: Option<MetalServer>)
        ensures
            r is Some <==> cap.spec_available() && device != 0 && raw != 0,
            r matches Some(s) ==> s.wf() && s.spec_addr() == raw && s.spec_live(),
    {
        match start_server(cap, Backend::Metal, device, raw) {
            Some(life) => Some(MetalServer { life }),
            None => None,
        }
    }

    pub fn addr(&self) -> (r: u64)
        ensures
            r == self.spec_addr(),
    {
        self.life.addr()
    }

    pub fn is_live(&self) -> (r: bool)
        ensures
            r == self.spec_live(),
    {
        self.life.is_live()
    }

    /// Asks whether consumers are attached; none once stopped, where the answer is false.
    pub fn has_clients(&self) -> (r: Option<NativeCall>)
        ensures
            r == self.spec_life().query_call(NativeCall::HasClients(Backend::Metal, self.spec_addr())),
    {
        self.life.query(NativeCall::HasClients(Backend::Metal, self.life.addr()))
    }

    /// Asks for an owned description of this producer (see [`crate::ServerDescription::owned`]),
    /// stopped or not.
    pub fn server_description(&self) -> (r: Option<NativeCall>)
        ensures
            r == Some(NativeCall::ServerDescription(Backend::Metal, self.spec_addr())),
    {
        Some(NativeCall::ServerDescription(Backend::Metal, self.life.addr()))
    }

    /// Enqueues publishing `texture`, flipped vertically or not, into the uncommitted
    /// `command_buffer`; the rectangle goes beside the call, and committing stays with the
    /// caller. A null texture or command buffer is a silent no-op, and so is a stopped
    /// producer.
    pub fn publish_frame(&self, texture: u64, command_buffer: u64, flipped: bool) -> (r: Option<
        NativeCall,
    >)
        ensures
            r == (if self.spec_live() && texture != 0 && command_buffer != 0 {
                Some(NativeCall::PublishMetalTexture(self.spec_addr(), texture, command_buffer, flipped))
            } else {
                None::<NativeCall>
            }),
    {
        if texture == 0 || command_buffer == 0 {
            return None;
        }
        self.life.query(
            NativeCall::PublishMetalTexture(self.life.addr(), texture, command_buffer, flipped),
        )
    }

    /// Asks for the current frame as an owned texture (see [`crate::MetalTexture::from_raw`]).
    pub fn new_frame_image(&self) -> (r: Option<NativeCall>)
        ensures
            r == self.spec_life().query_call(
                NativeCall::NewFrameImage(HandleKind::Server(Backend::Metal), self.spec_addr()),
            ),
    {
        self.life.query(NativeCall::NewFrameImage(HandleKind::Server(Backend::Metal), self.life.addr()))
    }

    /// Stops publishing and detaches all consumers; idempotent.
    pub fn stop(&mut self) -> (r: Option<NativeCall>)
        ensures
            r == old(self).spec_life().stop_call(),
            final(self).spec_life() == old(self).spec_life().spec_stopped(),
            !final(self).spec_live(),
            final(self).spec_addr() == old(self).spec_addr(),
            final(self).wf() == old(self).wf(),
    {
        let r = self.life.stop();
        r
    }

    /// Ends the producer: a stop, whatever stops came before, then its one release.
    pub fn finish(self) -> (r: Vec<NativeCall>)
        ensures
            r@ == self.spec_life().finish_calls(),
    {
        self.life.finish()
    }
}

} // verus!
