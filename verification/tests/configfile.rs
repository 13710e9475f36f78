use systemstats::{default_config_text, Labels, MonitorToggles, ThresholdTexts};

fn thresholds(v: [f32; 6]) -> ThresholdTexts {
    ThresholdTexts {
        cpu_low_max: v[0].to_string(),
        cpu_high_min: v[1].to_string(),
        memory_low_max: v[2].to_string(),
        memory_high_min: v[3].to_string(),
        temperature_low_max: v[4].to_string(),
        temperature_high_min: v[5].to_string(),
    }
}

/// The file text for the given settings, written with `format!`.
fn expected(refresh: u64, m: &MonitorToggles, t: [f32; 6], l: &Labels) -> String {
    format!(
        r#"# SystemStats Configuration

# Refresh interval in milliseconds (default: 1000 = 1 second)
refresh_interval_ms = {}

[monitors]
# Toggle individual monitors on/off

cpu_usage = {}

cpu_temperature = {}

gpu_temperature = {}

memory = {}

network = {}

[thresholds.cpu]
# CPU usage thresholds (percentage)
# Values < low_max = Low (blue)
# Values between low_max and high_min = Medium (orange)
# Values >= high_min = High (red)
low_max = {}
high_min = {}

[thresholds.memory]
# Memory usage thresholds (percentage)
low_max = {}
high_min = {}

[thresholds.temperature]
# Temperature thresholds (Celsius)
low_max = {}
high_min = {}

[labels.cpu]
# CPU usage label name and color (hex without #)
name = "{}"
color = "{}"

[labels.cpu_temp]
# CPU temperature label name and color
name = "{}"
color = "{}"

[labels.gpu_temp]
# GPU temperature label name and color
name = "{}"
color = "{}"

[labels.ram]
# Memory label name and color
name = "{}"
color = "{}"

[labels.network_download]
# Network download arrow color (name is not used)
color = "{}"

[labels.network_upload]
# Network upload arrow color (name is not used)
color = "{}"
"#,
        refresh,
        m.cpu_usage,
        m.cpu_temperature,
        m.gpu_temperature,
        m.memory,
        m.network,
        t[0],
        t[1],
        t[2],
        t[3],
        t[4],
        t[5],
        l.cpu.name,
        l.cpu.color,
        l.cpu_temp.name,
        l.cpu_temp.color,
        l.gpu_temp.name,
        l.gpu_temp.color,
        l.ram.name,
        l.ram.color,
        l.network_download.color,
        l.network_upload.color
    )
}

const DEFAULT_THRESHOLDS: [f32; 6] = [40.0, 75.0, 50.0, 80.0, 60.0, 80.0];

#[test]
fn default_file_matches_template() {
    let m = MonitorToggles::default();
    let l = Labels::default();
    let text = default_config_text(1000, &m, &thresholds(DEFAULT_THRESHOLDS), &l);
    assert_eq!(text, expected(1000, &m, DEFAULT_THRESHOLDS, &l));
    assert!(text.contains("refresh_interval_ms = 1000\n"));
    assert!(text.contains("low_max = 40\nhigh_min = 75\n"));
    assert!(text.contains("name = \"CPU: \"\ncolor = \"00B4D8\""));
    assert!(text.ends_with("color = \"FB8500\"\n"));
}

#[test]
fn custom_settings_match_template() {
    let m = MonitorToggles {
        cpu_usage: false,
        cpu_temperature: true,
        gpu_temperature: false,
        memory: true,
        network: false,
    };
    let mut l = Labels::default();
    l.ram.name = "Mem ".to_string();
    l.ram.color = "#123456".to_string();
    let t = [12.5, 90.25, 0.0, 100.0, 45.5, 95.0];
    for refresh in [0u64, 7, 10, 99, 100, 250, 1000, 123456789, u64::MAX] {
        let text = default_config_text(refresh, &m, &thresholds(t), &l);
        assert_eq!(text, expected(refresh, &m, t, &l));
    }
}

#[test]
fn default_file_reads_back() {
    let text = default_config_text(
        1000,
        &MonitorToggles::default(),
        &thresholds(DEFAULT_THRESHOLDS),
        &Labels::default(),
    );
    let table: toml::Table = toml::from_str(&text).expect("the default file is valid TOML");
    assert_eq!(table["refresh_interval_ms"].as_integer(), Some(1000));
    for key in ["cpu_usage", "cpu_temperature", "gpu_temperature", "memory", "network"] {
        assert_eq!(table["monitors"][key].as_bool(), Some(true));
    }
    let cpu = &table["thresholds"]["cpu"];
    assert_eq!(cpu["low_max"].as_integer(), Some(40));
    assert_eq!(cpu["high_min"].as_integer(), Some(75));
    assert_eq!(table["thresholds"]["temperature"]["low_max"].as_integer(), Some(60));
    assert_eq!(table["labels"]["cpu_temp"]["name"].as_str(), Some("TEMP: "));
    assert_eq!(table["labels"]["ram"]["color"].as_str(), Some("9B5DE5"));
    assert_eq!(table["labels"]["network_upload"]["color"].as_str(), Some("FB8500"));
    assert!(table["labels"]["network_upload"].get("name").is_none());
}
