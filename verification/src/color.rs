//! Status levels and the fixed colours that go with them.
use vstd::prelude::*;

verus! {

/// Status levels for colour-coding a reading.
#[derive(Debug, Clone, Copy, PartialEq, Eq, Structural)]
pub enum Status {
    /// Low usage / normal state.
    Low,
    /// Medium usage / warning state.
    Medium,
    /// High usage / critical state.
    High,
}

/// The status of a reading, from `below_low` (`value < low_max`) and
/// `reaches_high` (`value >= high_min`): Low below `low_max`, otherwise High
/// from `high_min` on, and Medium in between.
pub open spec fn status_of(below_low: bool, reaches_high: bool) -> Status {
    if below_low {
        Status::Low
    } else if reaches_high {
        Status::High
    } else {
        Status::Medium
    }
}

/// How severe a status is: Low 0, Medium 1, High 2.
pub open spec fn severity(s: Status) -> int {
    match s {
        Status::Low => 0,
        Status::Medium => 1,
        Status::High => 2,
    }
}

/// A larger reading, against the same thresholds, never has a less severe
/// status.
pub proof fn lemma_status_monotone(v1: int, v2: int, low_max: int, high_min: int)
    requires
        v1 <= v2,
    ensures
        severity(status_of(v1 < low_max, v1 >= high_min)) <= severity(
            status_of(v2 < low_max, v2 >= high_min),
        ),
{
}

/// With `low_max <= high_min`, a reading is Medium exactly when it lies in
/// `[low_max, high_min)`, Low below and High above.
pub proof fn lemma_status_bands(v: int, low_max: int, high_min: int)
    requires
        low_max <= high_min,
    ensures
        status_of(v < low_max, v >= high_min) == Status::Low <==> v < low_max,
        status_of(v < low_max, v >= high_min) == Status::Medium <==> low_max <= v < high_min,
        status_of(v < low_max, v >= high_min) == Status::High <==> high_min <= v,
{
}

/// For any thresholds, even crossed ones (`low_max > high_min`): a reading
/// below `low_max` is Low; otherwise it is High once it reaches `high_min`,
/// and Medium below that.
pub proof fn lemma_status_any_thresholds(v: int, low_max: int, high_min: int)
    ensures
        v < low_max ==> status_of(v < low_max, v >= high_min) == Status::Low,
        v >= low_max && v >= high_min ==> status_of(v < low_max, v >= high_min) == Status::High,
        v >= low_max && v < high_min ==> status_of(v < low_max, v >= high_min)
            == Status::Medium,
{
}

impl Status {
    /// Decides the status of a reading from its two threshold comparisons:
    /// `below_low` is `value < low_max` and `reaches_high` is
    /// `value >= high_min`. A reading below `low_max` is Low whatever the
    /// other comparison says; otherwise it is High when it reaches
    /// `high_min`, and Medium in between.
    pub fn classify(below_low: bool, reaches_high: bool) -> (s: Status)
        ensures
            s == status_of(below_low, reaches_high),
    {
        if below_low {
            Status::Low
        } else if reaches_high {
            Status::High
        } else {
            Status::Medium
        }
    }
}

/// The fixed `0xRRGGBB` colour of each status, chosen to be readable on
/// light and dark themes: green, amber and red.
pub open spec fn status_rgb(s: Status) -> u32 {
    match s {
        Status::Low => 0x4CAF50,
        Status::Medium => 0xFFC107,
        Status::High => 0xF44336,
    }
}

impl Status {
    /// The `0xRRGGBB` colour shown for this status: green for Low, amber for
    /// Medium and red for High.
    pub fn rgb_hex(self) -> (r: u32)
        ensures
            r == status_rgb(self),
    {
        match self {
            Status::Low => 0x4CAF50,
            Status::Medium => 0xFFC107,
            Status::High => 0xF44336,
        }
    }

    /// The colour a reading with this status is shown in: none (the theme's
    /// text colour) for Low, and the status colour for Medium and High, so
    /// that only readings in a warning state stand out.
    pub fn warning_rgb(self) -> (r: Option<u32>)
        ensures
            r == (if self == Status::Low {
                None
            } else {
                Some(status_rgb(self))
            }),
    {
        match self {
            Status::Low => None,
            _ => Some(self.rgb_hex()),
        }
    }

    /// The `0xRRGGBB` colour of the network download arrow (green).
    pub fn network_download_hex() -> (r: u32)
        ensures
            r == 0x4CAF50,
    {
        0x4CAF50
    }

    /// The `0xRRGGBB` colour of the network upload arrow (amber).
    pub fn network_upload_hex() -> (r: u32)
        ensures
            r == 0xFFC107,
    {
        0xFFC107
    }
}

/// The red, green and blue bytes of a colour written as `0xRRGGBB`; bits
/// above the lowest 24 are ignored.
pub fn rgb_channels(hex: u32) -> (rgb: (u8, u8, u8))
    ensures
        rgb.0 == (hex / 0x10000) % 0x100,
        rgb.1 == (hex / 0x100) % 0x100,
        rgb.2 == hex % 0x100,
        rgb.0 * 0x10000 + rgb.1 * 0x100 + rgb.2 == hex % 0x1000000,
{
    let r = (hex >> 16) & 0xFF;
    let g = (hex >> 8) & 0xFF;
    let b = hex & 0xFF;
    assert(r == (hex / 0x10000) % 0x100 && r < 0x100) by (bit_vector)
        requires
            r == (hex >> 16) & 0xFF,
    ;
    assert(g == (hex / 0x100) % 0x100 && g < 0x100) by (bit_vector)
        requires
            g == (hex >> 8) & 0xFF,
    ;
    assert(b == hex % 0x100 && b < 0x100) by (bit_vector)
        requires
            b == hex & 0xFF,
    ;
    assert(((hex >> 16) & 0xFF) * 0x10000 + ((hex >> 8) & 0xFF) * 0x100 + (hex & 0xFF) == hex
        % 0x1000000) by (bit_vector);
    (r as u8, g as u8, b as u8)
}

} // verus!
