use rustycamera::codec::DecodeError;
use rustycamera::config::DeviceConfig;
use rustycamera::format::{NegotiatedFormat, StreamRate};
use rustycamera::session::{CaptureSession, FatalError, Rebuild, SessionState, MAX_READ_RETRIES};

fn config(fourcc: &[u8; 4], width: u32, height: u32, numerator: u32, denominator: u32) -> DeviceConfig {
    DeviceConfig {
        device_index: 0,
        fourcc: *fourcc,
        width,
        height,
        rate: StreamRate { numerator, denominator },
    }
}

/// A session streaming the device's grant for `c`, taken verbatim.
fn streaming(c: &DeviceConfig) -> CaptureSession {
    let mut s = CaptureSession::new(c.format(), c.rate);
    assert_eq!(s.opened(c), Rebuild::Format(c.format(), c.rate));
    assert_eq!(s.state(), SessionState::Negotiating);
    s.format_applied(c.format(), c.rate);
    assert_eq!(s.state(), SessionState::Streaming);
    s
}

#[test]
fn resolution_change_rebuilds_format() {
    let start = config(b"YUYV", 640, 480, 1, 30);
    let mut s = streaming(&start);
    let before = s.stream_id();
    let wanted = config(b"YUYV", 800, 600, 1, 30);
    let cmd = s.check_drift(&wanted);
    assert_eq!(cmd, Rebuild::Format(wanted.format(), wanted.rate));
    assert_eq!(s.state(), SessionState::RebuildingFormat);
    s.format_applied(wanted.format(), wanted.rate);
    assert_eq!(s.state(), SessionState::Streaming);
    assert_ne!(s.stream_id(), before);
    for _ in 0..2 {
        assert_eq!(s.check_drift(&wanted), Rebuild::Keep);
        let m = s.process_buffer(&vec![0u8; 800 * 600 * 2]).unwrap();
        assert_eq!((m.format.width, m.format.height), (800, 600));
    }
}

#[test]
fn rate_change_keeps_allocation() {
    let start = config(b"YUYV", 640, 480, 1, 30);
    let mut s = streaming(&start);
    let allocations = s.allocations();
    let stream = s.stream_id();
    let wanted = config(b"YUYV", 640, 480, 1, 15);
    assert_eq!(s.check_drift(&wanted), Rebuild::Rate(StreamRate { numerator: 1, denominator: 15 }));
    assert_eq!(s.state(), SessionState::RebuildingRate);
    s.rate_applied(wanted.rate);
    assert_eq!(s.state(), SessionState::Streaming);
    assert_eq!(s.allocations(), allocations);
    assert_eq!(s.stream_id(), stream);
    assert_eq!(s.rate(), wanted.rate);
    assert_eq!(s.check_drift(&wanted), Rebuild::Keep);
}

#[test]
fn malformed_frame_is_dropped_and_next_is_delivered() {
    let c = config(b"MJPG", 8, 8, 1, 30);
    let mut s = streaming(&c);
    assert_eq!(s.process_buffer(&[0xff, 0xd8, 0x01]).unwrap_err(), DecodeError::Malformed);
    assert_eq!(s.state(), SessionState::Streaming);
    let pixels = vec![128u8; 8 * 8 * 3];
    let mut jpeg = Vec::new();
    jpeg_encoder::Encoder::new(&mut jpeg, 80)
        .encode(&pixels, 8, 8, jpeg_encoder::ColorType::Rgb)
        .unwrap();
    let m = s.process_buffer(&jpeg).unwrap();
    assert_eq!(m.format, c.format());
    assert_eq!(m.payload.len(), 8 * 8 * 4);
}

#[test]
fn raw_decode_error_does_not_stop_delivery() {
    let c = config(b"YUYV", 2, 2, 1, 30);
    let mut s = streaming(&c);
    assert_eq!(s.process_buffer(&[1, 2, 3]).unwrap_err(), DecodeError::SizeMismatch);
    assert_eq!(s.state(), SessionState::Streaming);
    let m = s.process_buffer(&[9; 8]).unwrap();
    assert_eq!(m.payload, vec![9; 8]);
}

#[test]
fn writing_the_value_in_effect_rebuilds_nothing() {
    let c = config(b"YUYV", 640, 480, 1, 30);
    let mut s = streaming(&c);
    let stream = s.stream_id();
    assert_eq!(s.check_drift(&c), Rebuild::Keep);
    assert_eq!(s.state(), SessionState::Streaming);
    assert_eq!(s.stream_id(), stream);
}

#[test]
fn format_wins_over_rate_in_one_cycle() {
    let mut s = streaming(&config(b"YUYV", 640, 480, 1, 30));
    let wanted = config(b"MJPG", 640, 480, 1, 15);
    assert_eq!(s.check_drift(&wanted), Rebuild::Format(wanted.format(), wanted.rate));
    assert_eq!(s.state(), SessionState::RebuildingFormat);
}

#[test]
fn settles_on_the_last_write_after_several() {
    let mut s = streaming(&config(b"YUYV", 640, 480, 1, 30));
    let writes = [
        config(b"YUYV", 320, 240, 1, 30),
        config(b"MJPG", 1280, 720, 1, 30),
        config(b"YUYV", 800, 600, 1, 15),
    ];
    for w in writes.iter() {
        match s.check_drift(w) {
            Rebuild::Format(f, r) => s.format_applied(f, r),
            Rebuild::Rate(r) => s.rate_applied(r),
            Rebuild::Keep => {}
        }
    }
    let last = writes[2];
    assert_eq!(s.format(), last.format());
    assert_eq!(s.rate(), last.rate);
    assert_eq!(s.check_drift(&last), Rebuild::Keep);
}

#[test]
fn best_effort_grant_is_adopted_and_stable() {
    let mut s = streaming(&config(b"YUYV", 640, 480, 1, 30));
    let wanted = config(b"YUYV", 1000, 1000, 1, 30);
    assert!(matches!(s.check_drift(&wanted), Rebuild::Format(..)));
    let granted = NegotiatedFormat { fourcc: *b"YUYV", width: 960, height: 720 };
    s.format_applied(granted, wanted.rate);
    assert_eq!(s.format(), granted);
    assert_eq!(s.check_drift(&wanted), Rebuild::Keep);
    assert_eq!(s.check_drift(&config(b"YUYV", 960, 720, 1, 30)), Rebuild::Keep);
}

#[test]
fn transient_read_errors_are_retried_then_fatal() {
    let mut s = streaming(&config(b"YUYV", 2, 2, 1, 30));
    for _ in 0..MAX_READ_RETRIES {
        assert!(s.read_failed(true));
        assert_eq!(s.state(), SessionState::Streaming);
    }
    assert!(!s.read_failed(true));
    assert_eq!(s.state(), SessionState::Fatal(FatalError::ReadFailed));
}

#[test]
fn successful_read_resets_retry_count() {
    let mut s = streaming(&config(b"YUYV", 1, 1, 1, 30));
    for _ in 0..MAX_READ_RETRIES {
        assert!(s.read_failed(true));
    }
    assert!(s.process_buffer(&[0, 0]).is_ok());
    assert!(s.read_failed(true));
}

#[test]
fn non_transient_read_error_is_fatal() {
    let mut s = streaming(&config(b"YUYV", 2, 2, 1, 30));
    assert!(!s.read_failed(false));
    assert_eq!(s.state(), SessionState::Fatal(FatalError::ReadFailed));
}

#[test]
fn failed_rate_change_falls_back_to_full_rebuild() {
    let c = config(b"YUYV", 640, 480, 1, 30);
    let mut s = streaming(&c);
    let wanted = config(b"YUYV", 640, 480, 1, 15);
    assert!(matches!(s.check_drift(&wanted), Rebuild::Rate(_)));
    assert_eq!(s.rate_failed(), Rebuild::Format(c.format(), wanted.rate));
    assert_eq!(s.state(), SessionState::RebuildingFormat);
    let allocations = s.allocations();
    s.format_applied(c.format(), wanted.rate);
    assert_eq!(s.allocations(), allocations + 1);
}

#[test]
fn fail_and_close_set_state() {
    let mut s = CaptureSession::new(NegotiatedFormat { fourcc: *b"YUYV", width: 1, height: 1 }, StreamRate { numerator: 1, denominator: 30 });
    assert_eq!(s.state(), SessionState::Closed);
    s.fail(FatalError::OpenError);
    assert_eq!(s.state(), SessionState::Fatal(FatalError::OpenError));
    s.close();
    assert_eq!(s.state(), SessionState::Closed);
}
