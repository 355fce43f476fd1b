//! Opaque foreign handles and the foreign calls made on them.
use vstd::prelude::*;

verus! {

/// The two GPU backends of producers, consumers and frames.
#[derive(Clone, Copy, Debug, PartialEq, Eq, Structural)]
pub enum Backend {
    OpenGL,
    Metal,
}

/// What a foreign handle designates; it decides which release function applies to it.
#[derive(Clone, Copy, Debug, PartialEq, Eq, Structural)]
pub enum HandleKind {
    Directory,
    Description,
    Server(Backend),
    Client(Backend),
    Frame(Backend),
}

/// A non-null foreign handle: the address the framework handed out, never zero.
#[derive(Clone, Copy, Debug, PartialEq, Eq, Structural)]
pub struct Handle {
    addr: u64,
}

impl Handle {
    /// The raw address of this handle.
    pub closed spec fn spec_addr(self) -> u64 {
        self.addr
    }

    pub open spec fn wf(self) -> bool {
        self.spec_addr() != 0
    }

    /// Wraps a raw address from the framework; a null address yields no handle.
    pub fn from_raw(addr: u64) -> (r: Option<Handle>)
        ensures
            r is Some <==> addr != 0,
            r matches Some(h) ==> h.wf() && h.spec_addr() == addr,
    {
        if addr == 0 {
            None
        } else {
            Some(Handle { addr })
        }
    }

    pub fn addr(&self) -> (r: u64)
        ensures
            r == self.spec_addr(),
    {
        self.addr
    }
}

/// One foreign call into the frame-sharing framework, with the arguments this layer
/// decided on. Frame rectangles, flip flags and callback storage travel beside the call.
#[derive(Clone, Debug, PartialEq, Eq)]
pub enum NativeCall {
    /// Fetch the process-wide directory of producers.
    DirectoryShared,
    /// Count the producers the directory knows now.
    DirectoryCount(u64),
    /// Borrow the description at an index of the directory.
    DirectoryAt(u64, usize),
    /// Copy a description's unique id.
    CopyUuid(u64),
    /// Copy a description's human-readable name.
    CopyName(u64),
    /// Copy the name of the application that hosts the producer.
    CopyAppName(u64),
    /// Take one more reference on a description.
    Retain(u64),
    /// Give back one reference on a handle of the given kind.
    Release(HandleKind, u64),
    /// Create a producer with a name on a context (OpenGL) or device (Metal).
    CreateServer(Backend, String, u64),
    /// Subscribe to a description's producer on a context or device; the flag says whether
    /// a new-frame callback is registered.
    CreateClient(Backend, u64, u64, bool),
    /// Ask a producer whether consumers are attached.
    HasClients(Backend, u64),
    /// Ask a producer for an owned description of itself.
    ServerDescription(Backend, u64),
    /// Publish an OpenGL texture (id, target) from an OpenGL producer, flipped vertically
    /// or not.
    PublishTexture(u64, u32, u32, bool),
    /// Bind an OpenGL producer's offscreen target for drawing.
    BindToDrawFrame(u64),
    /// Unbind an OpenGL producer's offscreen target and publish what was drawn.
    UnbindAndPublish(u64),
    /// Enqueue publishing a Metal texture into a command buffer, flipped vertically or not.
    PublishMetalTexture(u64, u64, u64, bool),
    /// Ask a producer or consumer for the current frame, as an owned frame handle.
    NewFrameImage(HandleKind, u64),
    /// Ask a consumer whether its subscription is live.
    IsValid(Backend, u64),
    /// Ask a consumer whether an unconsumed frame is pending.
    HasNewFrame(Backend, u64),
    /// Read the texture id of an OpenGL frame.
    TextureName(u64),
    /// Read the declared width and height of an OpenGL frame.
    TextureSize(u64),
    /// Stop a producer or consumer.
    Stop(HandleKind, u64),
    /// Create a headless OpenGL context.
    CreateHeadlessContext,
    /// Destroy an OpenGL context.
    DestroyContext(u64),
    /// Make an OpenGL context current on the calling thread.
    MakeCurrent(u64),
    /// Create a rectangle RGBA8 texture of a width and height from pixel data.
    CreateTexture(usize, usize),
    /// Read a rectangle RGBA8 texture of a width and height back into a buffer.
    ReadTexture(u32, usize, usize),
    /// Delete an OpenGL texture.
    DeleteTexture(u32),
}

/// How a single call changes the references held on `addr`: a retain adds one, a release
/// gives one back.
pub open spec fn ref_delta(call: NativeCall, addr: u64) -> int {
    match call {
        NativeCall::Retain(a) => if a == addr { 1int } else { 0int },
        NativeCall::Release(_, a) => if a == addr { -1int } else { 0int },
        _ => 0int,
    }
}

/// References on `addr` taken minus references given back over a sequence of calls.
pub open spec fn net_refs(calls: Seq<NativeCall>, addr: u64) -> int
    decreases calls.len(),
{
    if calls.len() == 0 {
        0
    } else {
        net_refs(calls.drop_last(), addr) + ref_delta(calls.last(), addr)
    }
}

/// Net references of a concatenation are the sum of its parts.
pub proof fn lemma_net_refs_append(a: Seq<NativeCall>, b: Seq<NativeCall>, addr: u64)
    ensures
        net_refs(a + b, addr) == net_refs(a, addr) + net_refs(b, addr),
    decreases b.len(),
{
    if b.len() == 0 {
        assert(a + b =~= a);
    } else {
        lemma_net_refs_append(a, b.drop_last(), addr);
        assert((a + b).drop_last() =~= a + b.drop_last());
    }
}

} // verus!
