//! Label and monitor settings, and their defaults.
use vstd::prelude::*;
use crate::hexcolor::{color_value, parse_hex_color};

verus! {

/// Label configuration: the text shown before a reading and its colour,
/// written as hexadecimal text (`"00B4D8"` or `"#00B4D8"`).
#[derive(Debug, Clone)]
pub struct LabelConfig {
    /// Display name for the label (e.g. `"CPU: "`).
    pub name: String,
    /// Hex colour code (e.g. `"00B4D8"` or `"#00B4D8"`).
    pub color: String,
}

impl LabelConfig {
    /// The label's colour as a `0xRRGGBB` value.
    pub fn color_hex(&self) -> (r: u32)
        ensures
            r == color_value(self.color@),
    {
        parse_hex_color(self.color.as_str())
    }
}

impl Default for LabelConfig {
    /// A label with an empty name and an empty colour text.
    fn default() -> (r: Self)
        ensures
            r.name@ == Seq::<char>::empty(),
            r.color@ == Seq::<char>::empty(),
    {
        LabelConfig { name: String::new(), color: String::new() }
    }
}

/// Builds a label from its name and colour text.
fn label(name: &str, color: &str) -> (r: LabelConfig)
    ensures
        r.name@ == name@,
        r.color@ == color@,
{
    LabelConfig { name: String::from_str(name), color: String::from_str(color) }
}

/// Label configurations for all monitors.
#[derive(Debug, Clone)]
pub struct Labels {
    pub cpu: LabelConfig,
    pub cpu_temp: LabelConfig,
    pub gpu_temp: LabelConfig,
    pub ram: LabelConfig,
    pub network_download: LabelConfig,
    pub network_upload: LabelConfig,
}

impl Default for Labels {
    /// The default names and colours: CPU blue, temperature yellow, GPU teal,
    /// RAM purple, download arrow blue and upload arrow orange.
    fn default() -> (r: Self)
        ensures
            r.cpu.name@ == "CPU: "@,
            r.cpu.color@ == "00B4D8"@,
            r.cpu_temp.name@ == "TEMP: "@,
            r.cpu_temp.color@ == "FFD700"@,
            r.gpu_temp.name@ == "GPU: "@,
            r.gpu_temp.color@ == "00D4AA"@,
            r.ram.name@ == "RAM: "@,
            r.ram.color@ == "9B5DE5"@,
            r.network_download.name@ == ""@,
            r.network_download.color@ == "00B4D8"@,
            r.network_upload.name@ == ""@,
            r.network_upload.color@ == "FB8500"@,
    {
        Labels {
            cpu: label("CPU: ", "00B4D8"),
            cpu_temp: label("TEMP: ", "FFD700"),
            gpu_temp: label("GPU: ", "00D4AA"),
            ram: label("RAM: ", "9B5DE5"),
            network_download: label("", "00B4D8"),
            network_upload: label("", "FB8500"),
        }
    }
}

/// Which monitors are shown.
#[derive(Debug, Clone, Copy, PartialEq, Eq, Structural)]
pub struct MonitorToggles {
    pub cpu_usage: bool,
    pub cpu_temperature: bool,
    pub gpu_temperature: bool,
    pub memory: bool,
    pub network: bool,
}

impl Default for MonitorToggles {
    /// Every monitor is shown.
    fn default() -> (r: Self)
        ensures
            r.cpu_usage && r.cpu_temperature && r.gpu_temperature && r.memory && r.network,
    {
        MonitorToggles {
            cpu_usage: default_true(),
            cpu_temperature: default_true(),
            gpu_temperature: default_true(),
            memory: default_true(),
            network: default_true(),
        }
    }
}

/// The refresh interval, in milliseconds, used when none is configured.
pub fn default_refresh_interval() -> (r: u64)
    ensures
        r == 1000,
{
    1000
}

/// The value a monitor toggle takes when none is configured.
pub fn default_true() -> (r: bool)
    ensures
        r,
{
    true
}

} // verus!
