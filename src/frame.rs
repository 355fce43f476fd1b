//! Frames received from consumers or taken from producers.
use vstd::prelude::*;

use crate::capability::Capability;
use crate::handle::{Backend, Handle, HandleKind, NativeCall};

verus! {

/// One OpenGL frame, owned: release it promptly, since the framework recycles a bounded set
/// of buffers. Its size is reported by the framework in fractional units.
#[derive(Debug)]
pub struct OpenGLImage {
    handle: Handle,
    cap: Capability,
}

impl OpenGLImage {
    pub closed spec fn spec_addr(&self) -> u64 {
        self.handle.spec_addr()
    }

    /// The capability the frame was had under.
    pub closed spec fn spec_cap(&self) -> Capability {
        self.cap
    }

    /// The handle is not null, and it was had where the service is present.
    pub open spec fn wf(&self) -> bool {
        self.spec_addr() != 0 && self.spec_cap().spec_available()
    }

    /// The frame the framework handed out; none where the service is absent
    /// or the handle is null (no frame ready).
    pub fn from_raw(cap: &Capability, raw: u64) -> (r: Option<OpenGLImage>)
        ensures
            r is Some <==> cap.spec_available() && raw != 0,
            r matches Some(i) ==> i.wf() && i.spec_addr() == raw,
    {
        if !cap.is_available() {
            return None;
        }
        match Handle::from_raw(raw) {
            Some(handle) => Some(OpenGLImage { handle, cap: *cap }),
            None => None,
        }
    }

    pub fn addr(&self) -> (r: u64)
        ensures
            r == self.spec_addr(),
    {
        self.handle.addr()
    }

    /// The call that reads the frame's texture id.
    pub fn texture_name(&self) -> (r: NativeCall)
        ensures
            r == NativeCall::TextureName(self.spec_addr()),
    {
        NativeCall::TextureName(self.handle.addr())
    }

    /// The call that reads the frame's declared width and height.
    pub fn texture_size(&self) -> (r: NativeCall)
        ensures
            r == NativeCall::TextureSize(self.spec_addr()),
    {
        NativeCall::TextureSize(self.handle.addr())
    }

    /// Ends the frame: its one release.
    pub fn finish(self) -> (r: NativeCall)
        ensures
            r == NativeCall::Release(HandleKind::Frame(Backend::OpenGL), self.spec_addr()),
    {
        NativeCall::Release(HandleKind::Frame(Backend::OpenGL), self.handle.addr())
    }
}

/// One Metal frame texture, owned: release it promptly. Its dimensions are read from the
/// texture object itself.
#[derive(Debug)]
pub struct MetalTexture {
    handle: Handle,
    cap: Capability,
}

impl MetalTexture {
    pub closed spec fn spec_addr(&self) -> u64 {
        self.handle.spec_addr()
    }

    /// The capability the frame was had under.
    pub closed spec fn spec_cap(&self) -> Capability {
        self.cap
    }

    /// The handle is not null, and it was had where the service is present.
    pub open spec fn wf(&self) -> bool {
        self.spec_addr() != 0 && self.spec_cap().spec_available()
    }

    /// The texture the framework handed out; none where the service is absent
    /// or the handle is null (no frame ready).
    pub fn from_raw(cap: &Capability, raw: u64) -> (r: Option<MetalTexture>)
        ensures
            r is Some <==> cap.spec_available() && raw != 0,
            r matches Some(t) ==> t.wf() && t.spec_addr() == raw,
    {
        if !cap.is_available() {
            return None;
        }
        match Handle::from_raw(raw) {
            Some(handle) => Some(MetalTexture { handle, cap: *cap }),
            None => None,
        }
    }

    /// The raw texture handle, for the caller's own Metal code.
    pub fn as_ptr(&self) -> (r: u64)
        ensures
            r == self.spec_addr(),
    {
        self.handle.addr()
    }

    /// Ends the texture: its one release.
    pub fn finish(self) -> (r: NativeCall)
        ensures
            r == NativeCall::Release(HandleKind::Frame(Backend::Metal), self.spec_addr()),
    {
        NativeCall::Release(HandleKind::Frame(Backend::Metal), self.handle.addr())
    }
}

} // verus!
