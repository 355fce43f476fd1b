use rusty_syphon::{
    cgl_create_headless_context, cgl_destroy_context, cgl_make_current, gl_create_texture_rectangle_rgba8,
    gl_delete_texture, gl_read_texture_rectangle_rgba8, Capability, MetalClient, MetalServer, MetalTexture, NativeCall, OpenGLImage,
    OpenGLClient, OpenGLServer, ServerDescription, ServerDirectory,
};

#[test]
fn unavailable_service_yields_nothing() {
    let cap = Capability::unavailable();
    assert!(!cap.is_available());
    assert_eq!(ServerDirectory::shared_request(&cap), None);
    assert!(ServerDirectory::shared(&cap, 0x1).is_none());
    assert_eq!(OpenGLServer::create_request(&cap, Some("a"), 0x1), None);
    assert_eq!(MetalServer::create_request(&cap, None, 0x1), None);
    assert!(OpenGLServer::new(&cap, 0x1, 0x2).is_none());
    assert!(MetalServer::new(&cap, 0x1, 0x2).is_none());
    assert!(ServerDescription::borrowed(&cap, 0x3).is_none());
    assert!(ServerDescription::owned(&cap, 0x3).is_none());
    assert!(OpenGLImage::from_raw(&cap, 0x3).is_none());
    assert!(MetalTexture::from_raw(&cap, 0x3).is_none());
    let d = ServerDescription::borrowed(&Capability::new(true), 0x3).unwrap();
    assert_eq!(OpenGLClient::create_request(&cap, &d, 0x1, true), None);
    assert_eq!(MetalClient::create_request(&cap, &d, 0x1, false), None);
    assert!(OpenGLClient::new(&cap, 0x1, 0x2, true).is_none());
    assert!(MetalClient::new(&cap, 0x1, 0x2, false).is_none());
    assert_eq!(cgl_create_headless_context(&cap), None);
    assert_eq!(cgl_destroy_context(&cap, 0x1), None);
    assert_eq!(cgl_make_current(&cap, 0x1), None);
    assert_eq!(gl_create_texture_rectangle_rgba8(&cap, 1, 1, &[0u8; 4]), None);
    assert_eq!(gl_read_texture_rectangle_rgba8(&cap, 1, 1, 1, &[0u8; 4]), None);
    assert_eq!(gl_delete_texture(&cap, 1), None);
    assert_eq!(cap.permit(NativeCall::DirectoryShared), None);
}

#[test]
fn texture_helpers_check_buffer_size() {
    let cap = Capability::new(true);
    let buf = vec![0u8; 2 * 3 * 4];
    assert_eq!(gl_create_texture_rectangle_rgba8(&cap, 2, 3, &buf), Some(NativeCall::CreateTexture(2, 3)));
    assert_eq!(gl_create_texture_rectangle_rgba8(&cap, 2, 3, &buf[..23]), None);
    assert_eq!(gl_create_texture_rectangle_rgba8(&cap, usize::MAX, 2, &buf), None);
    assert_eq!(gl_create_texture_rectangle_rgba8(&cap, usize::MAX / 4 + 1, 1, &buf), None);
    assert_eq!(gl_read_texture_rectangle_rgba8(&cap, 9, 2, 3, &buf), Some(NativeCall::ReadTexture(9, 2, 3)));
    assert_eq!(gl_read_texture_rectangle_rgba8(&cap, 9, 3, 3, &buf), None);
    assert_eq!(gl_create_texture_rectangle_rgba8(&cap, 0, 0, &[]), Some(NativeCall::CreateTexture(0, 0)));
}

#[test]
fn context_and_texture_requests() {
    let cap = Capability::new(true);
    assert_eq!(cgl_create_headless_context(&cap), Some(NativeCall::CreateHeadlessContext));
    assert_eq!(cgl_destroy_context(&cap, 0), None);
    assert_eq!(cgl_destroy_context(&cap, 0x5), Some(NativeCall::DestroyContext(0x5)));
    assert_eq!(cgl_make_current(&cap, 0x5), Some(NativeCall::MakeCurrent(0x5)));
    assert_eq!(gl_delete_texture(&cap, 0), None);
    assert_eq!(gl_delete_texture(&cap, 3), Some(NativeCall::DeleteTexture(3)));
}
