use rustycamera::format::{FrameMessage, NegotiatedFormat};
use rustycamera::render::{texture_for, TexturePixels, TextureSpec};
use rustycamera::Render;

#[test]
fn render_starts_in_given_format() {
    let r = Render::new(640, 480, b"YUYV");
    assert_eq!(r.format(), NegotiatedFormat { fourcc: *b"YUYV", width: 640, height: 480 });
    assert_eq!(r.texture(), Some(TextureSpec { pixels: TexturePixels::Yuy2, width: 640, height: 480 }));
}

#[test]
fn same_format_needs_no_new_texture() {
    let mut r = Render::new(2, 1, b"YUYV");
    let m = FrameMessage::new(NegotiatedFormat { fourcc: *b"YUYV", width: 2, height: 1 }, vec![0; 4]).unwrap();
    assert_eq!(r.adopt(&m), None);
}

#[test]
fn new_format_asks_for_texture() {
    let mut r = Render::new(2, 1, b"YUYV");
    let m = FrameMessage::new(NegotiatedFormat { fourcc: *b"MJPG", width: 1, height: 1 }, vec![0; 4]).unwrap();
    assert_eq!(r.adopt(&m), Some(TextureSpec { pixels: TexturePixels::Rgba32, width: 1, height: 1 }));
    assert_eq!(r.format(), m.format);
    assert_eq!(r.adopt(&m), None);
}

#[test]
fn unknown_format_has_no_texture() {
    assert_eq!(texture_for(&NegotiatedFormat { fourcc: *b"GREY", width: 1, height: 1 }), None);
    assert_eq!(Render::new(1, 1, b"GREY").texture(), None);
}
