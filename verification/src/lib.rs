//! Status classification, label configuration, hex colour parsing and
//! panel layout for a system statistics applet.

pub mod color;
pub mod config;
pub mod configfile;
pub mod hexcolor;
pub mod loading;
pub mod panel;

pub use color::{rgb_channels, Status};
pub use config::{default_refresh_interval, default_true, LabelConfig, Labels, MonitorToggles};
pub use configfile::{default_config_text, ThresholdTexts};
pub use loading::{next_load_action, LoadAction, LoadEvent, LoadNote};
pub use hexcolor::{parse_hex_color, FALLBACK_COLOR};
pub use panel::{
    panel_row, MemoryReading, Message, NetworkReading, Piece, Readings, StatusReading, Tint,
};
