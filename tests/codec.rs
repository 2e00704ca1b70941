use rustycamera::codec::{decode, frame_from_payload, DecodeError};
use rustycamera::format::NegotiatedFormat;

fn jpeg_rgb(width: u16, height: u16) -> Vec<u8> {
    let pixels: Vec<u8> = (0..(width as usize * height as usize * 3)).map(|i| (i * 7) as u8).collect();
    let mut out = Vec::new();
    let encoder = jpeg_encoder::Encoder::new(&mut out, 90);
    encoder.encode(&pixels, width, height, jpeg_encoder::ColorType::Rgb).unwrap();
    out
}

#[test]
fn raw_buffer_is_the_payload() {
    let format = NegotiatedFormat { fourcc: *b"YUYV", width: 2, height: 1 };
    let m = decode(&format, &[1, 2, 3, 4]).unwrap();
    assert_eq!(m.format, format);
    assert_eq!(m.payload, vec![1, 2, 3, 4]);
}

#[test]
fn raw_buffer_of_wrong_size_is_refused() {
    let format = NegotiatedFormat { fourcc: *b"YUYV", width: 2, height: 1 };
    assert_eq!(decode(&format, &[1, 2, 3]).unwrap_err(), DecodeError::SizeMismatch);
}

#[test]
fn unknown_format_is_refused() {
    let format = NegotiatedFormat { fourcc: *b"GREY", width: 2, height: 1 };
    assert_eq!(decode(&format, &[1, 2]).unwrap_err(), DecodeError::UnsupportedFormat);
}

#[test]
fn malformed_jpeg_is_a_decode_error() {
    let format = NegotiatedFormat { fourcc: *b"MJPG", width: 8, height: 8 };
    assert_eq!(decode(&format, &[0xff, 0xd8, 0x00, 0x13]).unwrap_err(), DecodeError::Malformed);
    assert_eq!(decode(&format, &[]).unwrap_err(), DecodeError::Malformed);
}

#[test]
fn jpeg_decodes_to_rgba() {
    let jpeg = jpeg_rgb(8, 8);
    let format = NegotiatedFormat { fourcc: *b"MJPG", width: 8, height: 8 };
    let m = decode(&format, &jpeg).unwrap();
    assert_eq!(m.format, format);
    assert_eq!(m.payload.len(), 8 * 8 * 4);
    assert!(m.payload.chunks(4).all(|px| px[3] == 255));
}

#[test]
fn jpeg_of_other_size_is_refused() {
    let jpeg = jpeg_rgb(8, 8);
    let format = NegotiatedFormat { fourcc: *b"MJPG", width: 16, height: 8 };
    assert_eq!(decode(&format, &jpeg).unwrap_err(), DecodeError::SizeMismatch);
}

#[test]
fn payload_pairs_with_format() {
    let format = NegotiatedFormat { fourcc: *b"MJPG", width: 1, height: 1 };
    assert_eq!(frame_from_payload(&format, vec![1, 2, 3, 4]).unwrap().payload, vec![1, 2, 3, 4]);
    assert_eq!(frame_from_payload(&format, vec![1, 2]).unwrap_err(), DecodeError::SizeMismatch);
}
