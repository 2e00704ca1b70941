use rustycamera::config::{
    CapabilityDescriptor, ConfigError, Coordinator, DeviceConfig, FormatCaps, FrameSizeCaps, IntervalEntry,
};
use rustycamera::format::StreamRate;

fn rate(numerator: u32, denominator: u32) -> StreamRate {
    StreamRate { numerator, denominator }
}

fn size(width: u32, height: u32, rates: &[StreamRate]) -> FrameSizeCaps {
    FrameSizeCaps { width, height, rates: rates.to_vec() }
}

fn caps() -> CapabilityDescriptor {
    CapabilityDescriptor {
        formats: vec![
            FormatCaps {
                fourcc: *b"YUYV",
                description: "YUYV 4:2:2".to_string(),
                sizes: vec![
                    size(640, 480, &[rate(1, 30), rate(1, 15)]),
                    size(800, 600, &[rate(1, 20)]),
                    size(320, 240, &[]),
                ],
            },
            FormatCaps {
                fourcc: *b"MJPG",
                description: "Motion-JPEG".to_string(),
                sizes: vec![size(1280, 720, &[rate(1, 60), rate(1, 30)]), size(640, 480, &[rate(1, 30)])],
            },
        ],
    }
}

fn start() -> Coordinator {
    Coordinator::new(
        caps(),
        DeviceConfig { device_index: 0, fourcc: *b"YUYV", width: 640, height: 480, rate: rate(1, 30) },
    )
}

#[test]
fn listed_resolution_is_taken_with_first_rate() {
    let mut c = start();
    assert_eq!(c.set_resolution(800, 600), Ok(()));
    let cfg = c.config();
    assert_eq!((cfg.width, cfg.height, cfg.rate), (800, 600, rate(1, 20)));
}

#[test]
fn resolution_without_rates_keeps_rate() {
    let mut c = start();
    assert_eq!(c.set_resolution(320, 240), Ok(()));
    assert_eq!(c.config().rate, rate(1, 30));
}

#[test]
fn unlisted_resolution_is_refused() {
    let mut c = start();
    assert_eq!(c.set_resolution(1280, 720), Err(ConfigError::UnsupportedConfiguration));
    assert_eq!(c.config().width, 640);
}

#[test]
fn pixel_format_keeps_listed_size_and_rate() {
    let mut c = start();
    assert_eq!(c.set_pixel_format(*b"MJPG"), Ok(()));
    let cfg = c.config();
    assert_eq!(&cfg.fourcc, b"MJPG");
    assert_eq!((cfg.width, cfg.height, cfg.rate), (640, 480, rate(1, 30)));
}

#[test]
fn pixel_format_falls_back_to_first_size() {
    let mut c = start();
    c.set_resolution(800, 600).unwrap();
    assert_eq!(c.set_pixel_format(*b"MJPG"), Ok(()));
    let cfg = c.config();
    assert_eq!((cfg.width, cfg.height, cfg.rate), (1280, 720, rate(1, 60)));
}

#[test]
fn unknown_pixel_format_is_refused() {
    let mut c = start();
    assert_eq!(c.set_pixel_format(*b"GREY"), Err(ConfigError::UnsupportedConfiguration));
    assert_eq!(&c.config().fourcc, b"YUYV");
}

#[test]
fn listed_frame_rate_is_taken() {
    let mut c = start();
    assert_eq!(c.set_frame_rate(1, 15), Ok(()));
    assert_eq!(c.config().rate, rate(1, 15));
    assert_eq!(c.set_frame_rate(1, 60), Err(ConfigError::UnsupportedConfiguration));
    assert_eq!(c.config().rate, rate(1, 15));
}

#[test]
fn new_capabilities_keep_config() {
    let mut c = start();
    c.set_capabilities(CapabilityDescriptor { formats: vec![] });
    assert_eq!(c.capabilities().formats.len(), 0);
    assert_eq!(c.config().width, 640);
    assert_eq!(c.set_frame_rate(1, 30), Err(ConfigError::UnsupportedConfiguration));
}

#[test]
fn stepwise_intervals_are_left_out() {
    let entries = vec![
        IntervalEntry::Discrete(rate(1, 30)),
        IntervalEntry::Stepwise,
        IntervalEntry::Discrete(rate(1, 5)),
    ];
    let s = FrameSizeCaps::from_intervals(640, 480, &entries);
    assert_eq!((s.width, s.height), (640, 480));
    assert_eq!(s.rates, vec![rate(1, 30), rate(1, 5)]);
    assert!(FrameSizeCaps::from_intervals(1, 1, &vec![IntervalEntry::Stepwise]).rates.is_empty());
}

#[test]
fn listed_sizes_and_rates_follow_config() {
    let mut c = start();
    assert_eq!(c.listed_sizes().map(|s| s.len()), Some(3));
    assert_eq!(c.listed_rates(), Some(&vec![rate(1, 30), rate(1, 15)]));
    c.set_pixel_format(*b"MJPG").unwrap();
    assert_eq!(c.listed_sizes().map(|s| s.len()), Some(2));
    assert_eq!(c.listed_rates(), Some(&vec![rate(1, 30)]));
    c.set_capabilities(CapabilityDescriptor { formats: vec![] });
    assert_eq!(c.listed_sizes(), None);
    assert_eq!(c.listed_rates(), None);
}
