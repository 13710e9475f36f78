use systemstats::{
    panel_row, Labels, MemoryReading, Message, MonitorToggles, NetworkReading, Piece, Readings,
    Status, StatusReading, Tint,
};

fn reading(text: &str, status: Status) -> StatusReading {
    StatusReading { text: text.to_string(), status }
}

fn sample() -> Readings {
    Readings {
        cpu: reading("12%", Status::Low),
        cpu_temp: Some(reading("65\u{b0}C", Status::Medium)),
        gpu_temp: Some(reading("85\u{b0}C", Status::High)),
        memory: MemoryReading {
            used: "3.2".to_string(),
            total: "15.5 GB".to_string(),
            status: Status::High,
        },
        network: NetworkReading { download: "1.2 MB/s".to_string(), upload: "30 KB/s".to_string() },
    }
}

fn view(row: &[Piece]) -> Vec<(String, Tint)> {
    row.iter().map(|p| (p.text.clone(), p.tint)).collect()
}

fn p(text: &str, tint: Tint) -> (String, Tint) {
    (text.to_string(), tint)
}

#[test]
fn full_row_with_defaults() {
    let row = panel_row(&MonitorToggles::default(), &Labels::default(), &sample());
    let sep = p(" | ", Tint::Theme);
    let expected = vec![
        p("CPU: ", Tint::Rgb(0x00B4D8)),
        p("12%", Tint::Warning(Status::Low)),
        sep.clone(),
        p("TEMP: ", Tint::Rgb(0xFFD700)),
        p("65\u{b0}C", Tint::Warning(Status::Medium)),
        sep.clone(),
        p("GPU: ", Tint::Rgb(0x00D4AA)),
        p("85\u{b0}C", Tint::Warning(Status::High)),
        sep.clone(),
        p("RAM: ", Tint::Rgb(0x9B5DE5)),
        p("3.2", Tint::Warning(Status::High)),
        p("/", Tint::Theme),
        p("15.5 GB", Tint::Theme),
        sep,
        p("\u{2193}", Tint::Rgb(0x00B4D8)),
        p("1.2 MB/s", Tint::Theme),
        p(" \u{2191}", Tint::Rgb(0xFB8500)),
        p("30 KB/s", Tint::Theme),
    ];
    assert_eq!(view(&row), expected);
}

#[test]
fn all_monitors_off_gives_one_empty_text() {
    let off = MonitorToggles {
        cpu_usage: false,
        cpu_temperature: false,
        gpu_temperature: false,
        memory: false,
        network: false,
    };
    let row = panel_row(&off, &Labels::default(), &sample());
    assert_eq!(view(&row), vec![p("", Tint::Theme)]);
}

#[test]
fn missing_temperatures_are_skipped() {
    let mut r = sample();
    r.cpu_temp = None;
    r.gpu_temp = None;
    let t = MonitorToggles {
        cpu_usage: false,
        cpu_temperature: true,
        gpu_temperature: true,
        memory: false,
        network: true,
    };
    let row = panel_row(&t, &Labels::default(), &r);
    // Only the network monitor remains, with no separator in front of it.
    assert_eq!(view(&row).len(), 4);
    assert_eq!(view(&row)[0], p("\u{2193}", Tint::Rgb(0x00B4D8)));
}

#[test]
fn separators_only_between_monitors() {
    let t = MonitorToggles {
        cpu_usage: true,
        cpu_temperature: false,
        gpu_temperature: false,
        memory: true,
        network: false,
    };
    let row = view(&panel_row(&t, &Labels::default(), &sample()));
    assert_eq!(row.len(), 2 + 1 + 4);
    assert_eq!(row[0], p("CPU: ", Tint::Rgb(0x00B4D8)));
    assert_eq!(row[2], p(" | ", Tint::Theme));
    assert_eq!(row[3], p("RAM: ", Tint::Rgb(0x9B5DE5)));
    assert_ne!(row[row.len() - 1], p(" | ", Tint::Theme));
}

#[test]
fn custom_label_colors_are_read() {
    let mut l = Labels::default();
    l.cpu.name = "C ".to_string();
    l.cpu.color = " #ff0000 ".to_string();
    l.network_upload.color = "nonsense".to_string();
    let row = view(&panel_row(&MonitorToggles::default(), &l, &sample()));
    assert_eq!(row[0], p("C ", Tint::Rgb(0xFF0000)));
    assert_eq!(row[row.len() - 2], p(" \u{2191}", Tint::Rgb(0x00B4D8)));
}

#[test]
fn row_is_never_empty() {
    for mask in 0u8..32 {
        let t = MonitorToggles {
            cpu_usage: mask & 1 != 0,
            cpu_temperature: mask & 2 != 0,
            gpu_temperature: mask & 4 != 0,
            memory: mask & 8 != 0,
            network: mask & 16 != 0,
        };
        let row = view(&panel_row(&t, &Labels::default(), &sample()));
        assert!(!row.is_empty());
        if mask != 0 {
            assert!(matches!(row[0].1, Tint::Rgb(_)));
        }
    }
}

#[test]
fn memory_reading_is_coloured_by_status() {
    let t = MonitorToggles {
        cpu_usage: false,
        cpu_temperature: false,
        gpu_temperature: false,
        memory: true,
        network: false,
    };
    for status in [Status::Low, Status::Medium, Status::High] {
        let mut r = sample();
        r.memory.status = status;
        let row = view(&panel_row(&t, &Labels::default(), &r));
        assert_eq!(
            row,
            vec![
                p("RAM: ", Tint::Rgb(0x9B5DE5)),
                p("3.2", Tint::Warning(status)),
                p("/", Tint::Theme),
                p("15.5 GB", Tint::Theme),
            ]
        );
    }
}

#[test]
fn tick_message() {
    assert_eq!(Message::Tick, Message::Tick);
}
