//! Ownership-correct handle layer for a reference-counted, event-driven frame-sharing
//! framework (frame producers and consumers for an OpenGL and a Metal backend).
//!
//! The framework itself is reached through foreign calls that this crate does not make.
//! Instead every operation here decides, with a proved contract, which foreign call the
//! host glue must perform (a [`NativeCall`]) and what the operation returns once the glue
//! hands the framework's answer back. The contracts carry the layer's safety rules: a null
//! handle never yields a value, every retain is paired with exactly one release, stop always
//! precedes release, and nothing at all is called when the service is unavailable.
pub mod capability;
pub mod client;
pub mod descriptor;
pub mod directory;
pub mod frame;
pub mod handle;
pub mod lifecycle;
pub mod server;
pub mod texture;

pub use capability::Capability;
pub use client::{MetalClient, OpenGLClient};
pub use descriptor::ServerDescription;
pub use directory::ServerDirectory;
pub use frame::{MetalTexture, OpenGLImage};
pub use handle::{Backend, Handle, HandleKind, NativeCall};
pub use lifecycle::Lifecycle;
pub use server::{MetalServer, OpenGLServer};
pub use texture::{
    cgl_create_headless_context, cgl_destroy_context, cgl_make_current, gl_create_texture_rectangle_rgba8,
    gl_delete_texture, gl_read_texture_rectangle_rgba8, GL_TEXTURE_RECTANGLE,
};
