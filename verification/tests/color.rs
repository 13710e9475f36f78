use systemstats::{rgb_channels, Status};

/// The status of a reading against its thresholds, as the applet decides it.
fn from_value(value: f32, low_max: f32, high_min: f32) -> Status {
    Status::classify(value < low_max, value >= high_min)
}

#[test]
fn test_status_from_value_cpu() {
    // CPU thresholds: low_max=40, high_min=75
    assert_eq!(from_value(30.0, 40.0, 75.0), Status::Low);
    assert_eq!(from_value(40.0, 40.0, 75.0), Status::Medium);
    assert_eq!(from_value(60.0, 40.0, 75.0), Status::Medium);
    assert_eq!(from_value(75.0, 40.0, 75.0), Status::High);
    assert_eq!(from_value(90.0, 40.0, 75.0), Status::High);
}

#[test]
fn test_status_from_value_temperature() {
    // Temperature thresholds: low_max=60, high_min=80
    assert_eq!(from_value(50.0, 60.0, 80.0), Status::Low);
    assert_eq!(from_value(70.0, 60.0, 80.0), Status::Medium);
    assert_eq!(from_value(85.0, 60.0, 80.0), Status::High);
}

#[test]
fn classify_every_combination() {
    assert_eq!(Status::classify(true, false), Status::Low);
    assert_eq!(Status::classify(true, true), Status::Low);
    assert_eq!(Status::classify(false, true), Status::High);
    assert_eq!(Status::classify(false, false), Status::Medium);
}

#[test]
fn memory_thresholds_from_readme() {
    assert_eq!(from_value(49.9, 50.0, 80.0), Status::Low);
    assert_eq!(from_value(50.0, 50.0, 80.0), Status::Medium);
    assert_eq!(from_value(79.9, 50.0, 80.0), Status::Medium);
    assert_eq!(from_value(80.0, 50.0, 80.0), Status::High);
}

#[test]
fn crossed_thresholds_favour_low() {
    // low_max above high_min: below low_max is Low, otherwise High.
    assert_eq!(from_value(50.0, 60.0, 40.0), Status::Low);
    assert_eq!(from_value(60.0, 60.0, 40.0), Status::High);
}

#[test]
fn status_never_decreases_as_value_grows() {
    fn severity(s: Status) -> u8 {
        match s {
            Status::Low => 0,
            Status::Medium => 1,
            Status::High => 2,
        }
    }
    let mut last = 0u8;
    for v in 0..=120 {
        let s = severity(from_value(v as f32, 40.0, 75.0));
        assert!(s >= last);
        last = s;
    }
    assert_eq!(last, 2);
}

#[test]
fn status_colors() {
    assert_eq!(Status::Low.rgb_hex(), 0x4CAF50);
    assert_eq!(Status::Medium.rgb_hex(), 0xFFC107);
    assert_eq!(Status::High.rgb_hex(), 0xF44336);
    assert_eq!(Status::network_download_hex(), 0x4CAF50);
    assert_eq!(Status::network_upload_hex(), 0xFFC107);
}

#[test]
fn channels_of_colors() {
    assert_eq!(rgb_channels(0x4CAF50), (0x4C, 0xAF, 0x50));
    assert_eq!(rgb_channels(0x00B4D8), (0x00, 0xB4, 0xD8));
    assert_eq!(rgb_channels(0xFF123456), (0x12, 0x34, 0x56));
    assert_eq!(rgb_channels(0), (0, 0, 0));
    let (r, g, b) = rgb_channels(0xF44336);
    assert_eq!((r as u32) << 16 | (g as u32) << 8 | b as u32, 0xF44336);
}

#[test]
fn only_warning_states_are_coloured() {
    assert_eq!(Status::Low.warning_rgb(), None);
    assert_eq!(Status::Medium.warning_rgb(), Some(0xFFC107));
    assert_eq!(Status::High.warning_rgb(), Some(0xF44336));
}
