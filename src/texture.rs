//! Helpers for OpenGL contexts and rectangle textures, as used around producers and
//! consumers (for instance to set up a headless context in a test).
use vstd::prelude::*;

use crate::capability::Capability;
use crate::handle::NativeCall;

verus! {

/// The texture target of rectangle textures, which frames are published and received as.
pub const GL_TEXTURE_RECTANGLE: u32 = 0x84F5;

/// Whether a buffer of `len` bytes holds a `width` by `height` RGBA8 image.
pub open spec fn holds_rgba8(len: nat, width: nat, height: nat) -> bool {
    len >= width * height * 4
}

/// Checks `holds_rgba8` without overflow: an image too large to count in `usize` bytes
/// fits no buffer.
fn fits_rgba8(len: usize, width: usize, height: usize) -> (r: bool)
    ensures
        r == holds_rgba8(len as nat, width as nat, height as nat),
{
    match width.checked_mul(height) {
        Some(pixels) => match pixels.checked_mul(4) {
            Some(bytes) => len >= bytes,
            None => {
                assert(width * height * 4 > usize::MAX);
                false
            },
        },
        None => {
            assert(width * height * 4 > usize::MAX) by (nonlinear_arith)
                requires
                    width * height > usize::MAX,
            ;
            false
        },
    }
}

/// The request for a headless OpenGL context; none where the service is absent.
pub fn cgl_create_headless_context(cap: &Capability) -> (r: Option<NativeCall>)
    ensures
        r == (if cap.spec_available() {
            Some(NativeCall::CreateHeadlessContext)
        } else {
            None::<NativeCall>
        }),
{
    cap.permit(NativeCall::CreateHeadlessContext)
}

/// The request that destroys `context`; none for a null context or where the service is
/// absent.
pub fn cgl_destroy_context(cap: &Capability, context: u64) -> (r: Option<NativeCall>)
    ensures
        r == (if cap.spec_available() && context != 0 {
            Some(NativeCall::DestroyContext(context))
        } else {
            None::<NativeCall>
        }),
{
    if context == 0 {
        return None;
    }
    cap.permit(NativeCall::DestroyContext(context))
}

/// The request that makes `context` current on the calling thread; none where the service
/// is absent.
pub fn cgl_make_current(cap: &Capability, context: u64) -> (r: Option<NativeCall>)
    ensures
        r == (if cap.spec_available() {
            Some(NativeCall::MakeCurrent(context))
        } else {
            None::<NativeCall>
        }),
{
    cap.permit(NativeCall::MakeCurrent(context))
}

/// The request that creates a `width` by `height` rectangle texture from `rgba`. None (no
/// texture, id 0) where `rgba` is shorter than `width * height * 4` bytes or the service is
/// absent.
pub fn gl_create_texture_rectangle_rgba8(
    cap: &Capability,
    width: usize,
    height: usize,
    rgba: &[u8],
) -> (r: Option<NativeCall>)
    ensures
        r == (if cap.spec_available() && holds_rgba8(rgba@.len(), width as nat, height as nat) {
            Some(NativeCall::CreateTexture(width, height))
        } else {
            None::<NativeCall>
        }),
{
    if !fits_rgba8(rgba.len(), width, height) {
        return None;
    }
    cap.permit(NativeCall::CreateTexture(width, height))
}

/// The request that reads texture `tex_id` of `width` by `height` back into `out_rgba`.
/// None, leaving the buffer as it is, where it is shorter than `width * height * 4` bytes or
/// the service is absent.
pub fn gl_read_texture_rectangle_rgba8(
    cap: &Capability,
    tex_id: u32,
    width: usize,
    height: usize,
    out_rgba: &[u8],
) -> (r: Option<NativeCall>)
    ensures
        r == (if cap.spec_available() && holds_rgba8(out_rgba@.len(), width as nat, height as nat) {
            Some(NativeCall::ReadTexture(tex_id, width, height))
        } else {
            None::<NativeCall>
        }),
{
    if !fits_rgba8(out_rgba.len(), width, height) {
        return None;
    }
    cap.permit(NativeCall::ReadTexture(tex_id, width, height))
}

/// The request that deletes texture `tex_id`; none for id 0 or where the service is absent.
pub fn gl_delete_texture(cap: &Capability, tex_id: u32) -> (r: Option<NativeCall>)
    ensures
        r == (if cap.spec_available() && tex_id != 0 {
            Some(NativeCall::DeleteTexture(tex_id))
        } else {
            None::<NativeCall>
        }),
{
    if tex_id == 0 {
        return None;
    }
    cap.permit(NativeCall::DeleteTexture(tex_id))
}

} // verus!
