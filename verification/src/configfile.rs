//! The text of the default configuration file.
use vstd::prelude::*;
use crate::config::{Labels, MonitorToggles};

verus! {

/// The six thresholds, already written as text (`"40"`, `"75.5"`, ...).
#[derive(Debug, Clone)]
pub struct ThresholdTexts {
    pub cpu_low_max: String,
    pub cpu_high_min: String,
    pub memory_low_max: String,
    pub memory_high_min: String,
    pub temperature_low_max: String,
    pub temperature_high_min: String,
}

/// The decimal digit `d` (for `d < 10`) as text.
pub open spec fn digit_text(d: nat) -> Seq<char> {
    if d == 0 {
        "0"@
    } else if d == 1 {
        "1"@
    } else if d == 2 {
        "2"@
    } else if d == 3 {
        "3"@
    } else if d == 4 {
        "4"@
    } else if d == 5 {
        "5"@
    } else if d == 6 {
        "6"@
    } else if d == 7 {
        "7"@
    } else if d == 8 {
        "8"@
    } else {
        "9"@
    }
}

/// The decimal digits of `n`, most significant first, without leading zeros
/// (`"0"` for zero).
pub open spec fn decimal(n: nat) -> Seq<char>
    decreases n,
{
    if n < 10 {
        digit_text(n)
    } else {
        decimal(n / 10) + digit_text(n % 10)
    }
}

/// `"true"` or `"false"`.
pub open spec fn bool_text(b: bool) -> Seq<char> {
    if b {
        "true"@
    } else {
        "false"@
    }
}

/// The default configuration file: a commented TOML document that sets the
/// refresh interval, each monitor toggle, the three pairs of thresholds and
/// every label's name and colour (only the colour for the network arrows).
pub open spec fn default_file_text(
    refresh_ms: u64,
    t: MonitorToggles,
    th: ThresholdTexts,
    l: Labels,
) -> Seq<char> {
    "# SystemStats Configuration\n\n# Refresh interval in milliseconds (default: 1000 = 1 second)\nrefresh_interval_ms = "@
        + decimal(refresh_ms as nat)
        + "\n\n[monitors]\n# Toggle individual monitors on/off\n\ncpu_usage = "@
        + bool_text(t.cpu_usage)
        + "\n\ncpu_temperature = "@
        + bool_text(t.cpu_temperature)
        + "\n\ngpu_temperature = "@
        + bool_text(t.gpu_temperature)
        + "\n\nmemory = "@
        + bool_text(t.memory)
        + "\n\nnetwork = "@
        + bool_text(t.network)
        + "\n\n[thresholds.cpu]\n# CPU usage thresholds (percentage)\n# Values < low_max = Low (blue)\n# Values between low_max and high_min = Medium (orange)\n# Values >= high_min = High (red)\nlow_max = "@
        + th.cpu_low_max@
        + "\nhigh_min = "@
        + th.cpu_high_min@
        + "\n\n[thresholds.memory]\n# Memory usage thresholds (percentage)\nlow_max = "@
        + th.memory_low_max@
        + "\nhigh_min = "@
        + th.memory_high_min@
        + "\n\n[thresholds.temperature]\n# Temperature thresholds (Celsius)\nlow_max = "@
        + th.temperature_low_max@
        + "\nhigh_min = "@
        + th.temperature_high_min@
        + "\n\n[labels.cpu]\n# CPU usage label name and color (hex without #)\nname = \""@
        + l.cpu.name@
        + "\"\ncolor = \""@
        + l.cpu.color@
        + "\"\n\n[labels.cpu_temp]\n# CPU temperature label name and color\nname = \""@
        + l.cpu_temp.name@
        + "\"\ncolor = \""@
        + l.cpu_temp.color@
        + "\"\n\n[labels.gpu_temp]\n# GPU temperature label name and color\nname = \""@
        + l.gpu_temp.name@
        + "\"\ncolor = \""@
        + l.gpu_temp.color@
        + "\"\n\n[labels.ram]\n# Memory label name and color\nname = \""@
        + l.ram.name@
        + "\"\ncolor = \""@
        + l.ram.color@
        + "\"\n\n[labels.network_download]\n# Network download arrow color (name is not used)\ncolor = \""@
        + l.network_download.color@
        + "\"\n\n[labels.network_upload]\n# Network upload arrow color (name is not used)\ncolor = \""@
        + l.network_upload.color@
        + "\"\n"@
}

fn append_digit(s: &mut String, d: u64)
    requires
        d < 10,
    ensures
        final(s)@ == old(s)@ + digit_text(d as nat),
{
    if d == 0 {
        s.append("0");
    } else if d == 1 {
        s.append("1");
    } else if d == 2 {
        s.append("2");
    } else if d == 3 {
        s.append("3");
    } else if d == 4 {
        s.append("4");
    } else if d == 5 {
        s.append("5");
    } else if d == 6 {
        s.append("6");
    } else if d == 7 {
        s.append("7");
    } else if d == 8 {
        s.append("8");
    } else {
        s.append("9");
    }
}

fn append_decimal(s: &mut String, n: u64)
    ensures
        final(s)@ == old(s)@ + decimal(n as nat),
    decreases n,
{
    if n >= 10 {
        append_decimal(s, n / 10);
        append_digit(s, n % 10);
        assert(old(s)@ + decimal((n / 10) as nat) + digit_text((n % 10) as nat) =~= old(s)@
            + decimal(n as nat));
    } else {
        append_digit(s, n);
    }
}

fn append_bool(s: &mut String, b: bool)
    ensures
        final(s)@ == old(s)@ + bool_text(b),
{
    if b {
        s.append("true");
    } else {
        s.append("false");
    }
}

/// The text of the default configuration file for the given settings; the
/// thresholds come already written as text.
pub fn default_config_text(
    refresh_interval_ms: u64,
    monitors: &MonitorToggles,
    thresholds: &ThresholdTexts,
    labels: &Labels,
) -> (text: String)
    ensures
        text@ == default_file_text(refresh_interval_ms, *monitors, *thresholds, *labels),
{
    let mut t = String::from_str(
        "# SystemStats Configuration\n\n# Refresh interval in milliseconds (default: 1000 = 1 second)\nrefresh_interval_ms = ",
    );
    append_decimal(&mut t, refresh_interval_ms);
    t.append("\n\n[monitors]\n# Toggle individual monitors on/off\n\ncpu_usage = ");
    append_bool(&mut t, monitors.cpu_usage);
    t.append("\n\ncpu_temperature = ");
    append_bool(&mut t, monitors.cpu_temperature);
    t.append("\n\ngpu_temperature = ");
    append_bool(&mut t, monitors.gpu_temperature);
    t.append("\n\nmemory = ");
    append_bool(&mut t, monitors.memory);
    t.append("\n\nnetwork = ");
    append_bool(&mut t, monitors.network);
    t.append(
        "\n\n[thresholds.cpu]\n# CPU usage thresholds (percentage)\n# Values < low_max = Low (blue)\n# Values between low_max and high_min = Medium (orange)\n# Values >= high_min = High (red)\nlow_max = ",
    );
    t.append(thresholds.cpu_low_max.as_str());
    t.append("\nhigh_min = ");
    t.append(thresholds.cpu_high_min.as_str());
    t.append("\n\n[thresholds.memory]\n# Memory usage thresholds (percentage)\nlow_max = ");
    t.append(thresholds.memory_low_max.as_str());
    t.append("\nhigh_min = ");
    t.append(thresholds.memory_high_min.as_str());
    t.append("\n\n[thresholds.temperature]\n# Temperature thresholds (Celsius)\nlow_max = ");
    t.append(thresholds.temperature_low_max.as_str());
    t.append("\nhigh_min = ");
    t.append(thresholds.temperature_high_min.as_str());
    t.append(
        "\n\n[labels.cpu]\n# CPU usage label name and color (hex without #)\nname = \"",
    );
    t.append(labels.cpu.name.as_str());
    t.append("\"\ncolor = \"");
    t.append(labels.cpu.color.as_str());
    t.append("\"\n\n[labels.cpu_temp]\n# CPU temperature label name and color\nname = \"");
    t.append(labels.cpu_temp.name.as_str());
    t.append("\"\ncolor = \"");
    t.append(labels.cpu_temp.color.as_str());
    t.append("\"\n\n[labels.gpu_temp]\n# GPU temperature label name and color\nname = \"");
    t.append(labels.gpu_temp.name.as_str());
    t.append("\"\ncolor = \"");
    t.append(labels.gpu_temp.color.as_str());
    t.append("\"\n\n[labels.ram]\n# Memory label name and color\nname = \"");
    t.append(labels.ram.name.as_str());
    t.append("\"\ncolor = \"");
    t.append(labels.ram.color.as_str());
    t.append(
        "\"\n\n[labels.network_download]\n# Network download arrow color (name is not used)\ncolor = \"",
    );
    t.append(labels.network_download.color.as_str());
    t.append(
        "\"\n\n[labels.network_upload]\n# Network upload arrow color (name is not used)\ncolor = \"",
    );
    t.append(labels.network_upload.color.as_str());
    t.append("\"\n");
    t
}

} // verus!
