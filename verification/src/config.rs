//! The layout model: a declarative, load-once description of the panel's geometry.
//!
//! Every value here is plain data. The only behaviour is measuring (how many cells a
//! button or the image occupies) and validation (does the whole panel fit on a terminal).

use vstd::prelude::*;

verus! {

/// Number of columns, and of rows, that a terminal coordinate can address.
/// Terminal coordinates are 16-bit, so column and row indices run from 0 to 65535.
pub const ADDRESSABLE_CELLS: u32 = 65536;

/// Refresh interval used when the configured one is zero.
pub const DEFAULT_REFRESH_MS: u16 = 100;

/// The complete layout model.
#[derive(Clone, Copy, Debug, PartialEq, Eq)]
pub struct Config {
    /// Interval between two refresh ticks, in milliseconds. Zero selects the default.
    pub refresh_rate_ms: u16,
    pub image: Image,
    pub metadata: Metadata,
    pub controls_bar: ControlsBar,
}

/// The album-art block: its size in cells and the margins around it.
#[derive(Clone, Copy, Debug, PartialEq, Eq)]
pub struct Image {
    /// A hint for the external renderer; it has no influence on geometry.
    pub force_symbols: bool,
    pub margins: Box,
    /// Width and height, in cells.
    pub size: (u16, u16),
}

/// Spacing hints for the metadata block. The two text lines sit on fixed rows, so
/// these values are carried for the front end and do not move any region.
#[derive(Clone, Copy, Debug, PartialEq, Eq)]
pub struct Metadata {
    /// Top and bottom.
    pub vertical_margins: (u16, u16),
    pub interline_gap: u16,
}

/// The transport bar: three buttons between two cap glyphs.
#[derive(Clone, Copy, Debug, PartialEq, Eq)]
pub struct ControlsBar {
    pub button_prev: Button,
    pub button_playpause: ButtonSwitchable,
    pub button_next: Button,
    /// Cosmetic only.
    pub is_background_present: bool,
    /// Cosmetic only: the cap cells are part of the bar's geometry either way.
    pub are_caps_present: bool,
    pub cap_left: char,
    pub cap_right: char,
}

/// A button with one icon.
#[derive(Clone, Copy, Debug, PartialEq, Eq)]
pub struct Button {
    pub icon: char,
    /// Left and right padding: clickable cells around the icon.
    pub padding: (u16, u16),
    /// Left and right margins: cells around the button that are not clickable.
    pub margins: (u16, u16),
}

/// A button whose icon depends on the playback state.
#[derive(Clone, Copy, Debug, PartialEq, Eq)]
pub struct ButtonSwitchable {
    /// Shown while playing.
    pub icon_state1: char,
    /// Shown while paused or stopped.
    pub icon_state2: char,
    /// Left and right padding: clickable cells around the icon.
    pub padding: (u16, u16),
    /// Left and right margins: cells around the button that are not clickable.
    pub margins: (u16, u16),
}

/// Margins around a rectangular block, in cells.
#[derive(Clone, Copy, Debug, PartialEq, Eq)]
pub struct Box {
    pub top: u16,
    pub bottom: u16,
    pub left: u16,
    pub right: u16,
}

/// Why a layout model was rejected.
#[derive(Clone, Copy, Debug, PartialEq, Eq)]
pub enum ConfigError {
    /// The image's width or height is zero.
    EmptyImage,
    /// The image and the transport bar together need more columns than can be addressed.
    TooWide,
    /// The image's top margin and height together need more rows than can be addressed.
    TooTall,
}

/// Cells that a button with the given padding offers to the pointer:
/// the padding on both sides and the icon's own cell.
pub open spec fn clickable_cells(padding: (u16, u16)) -> int {
    padding.0 + 1 + padding.1
}

/// Cells that a button occupies in the bar: its clickable cells and both margins.
pub open spec fn occupied_cells(padding: (u16, u16), margins: (u16, u16)) -> int {
    margins.0 + clickable_cells(padding) + margins.1
}

impl Button {
    pub open spec fn spec_clickable_width(self) -> int {
        clickable_cells(self.padding)
    }

    pub open spec fn spec_footprint(self) -> int {
        occupied_cells(self.padding, self.margins)
    }

    /// Number of clickable cells: never zero, because the icon's cell always counts.
    pub fn clickable_width(&self) -> (w: u32)
        ensures
            w == self.spec_clickable_width(),
            w >= 1,
            self.padding.0 == 0 && self.padding.1 == 0 ==> w == 1,
    {
        self.padding.0 as u32 + 1 + self.padding.1 as u32
    }

    /// Number of cells the button occupies in the bar, margins included.
    pub fn footprint(&self) -> (w: u32)
        ensures
            w == self.spec_footprint(),
            w >= self.spec_clickable_width(),
    {
        self.margins.0 as u32 + self.clickable_width() + self.margins.1 as u32
    }
}

impl ButtonSwitchable {
    pub open spec fn spec_clickable_width(self) -> int {
        clickable_cells(self.padding)
    }

    pub open spec fn spec_footprint(self) -> int {
        occupied_cells(self.padding, self.margins)
    }

    /// Number of clickable cells: never zero, because the icon's cell always counts.
    pub fn clickable_width(&self) -> (w: u32)
        ensures
            w == self.spec_clickable_width(),
            w >= 1,
            self.padding.0 == 0 && self.padding.1 == 0 ==> w == 1,
    {
        self.padding.0 as u32 + 1 + self.padding.1 as u32
    }

    /// Number of cells the button occupies in the bar, margins included.
    pub fn footprint(&self) -> (w: u32)
        ensures
            w == self.spec_footprint(),
            w >= self.spec_clickable_width(),
    {
        self.margins.0 as u32 + self.clickable_width() + self.margins.1 as u32
    }
}

impl Image {
    pub open spec fn spec_footprint_width(self) -> int {
        self.margins.left + self.margins.right + self.size.0
    }

    /// Columns taken by the image and its two horizontal margins. Everything else
    /// on the panel starts at this column.
    pub fn footprint_width(&self) -> (w: u32)
        ensures
            w == self.spec_footprint_width(),
    {
        self.margins.left as u32 + self.margins.right as u32 + self.size.0 as u32
    }
}

impl ControlsBar {
    pub open spec fn spec_width(self) -> int {
        1 + self.button_prev.spec_footprint() + self.button_playpause.spec_footprint()
            + self.button_next.spec_footprint() + 1
    }

    /// Columns taken by the whole bar: the two caps and the three buttons with
    /// their margins.
    pub fn width(&self) -> (w: u32)
        ensures
            w == self.spec_width(),
    {
        1 + self.button_prev.footprint() + self.button_playpause.footprint()
            + self.button_next.footprint() + 1
    }
}

impl Config {
    /// A layout is valid when the image is not empty and every cell of the panel
    /// can be addressed by a terminal coordinate.
    pub open spec fn valid(self) -> bool {
        &&& self.image.size.0 > 0
        &&& self.image.size.1 > 0
        &&& self.image.spec_footprint_width() + self.controls_bar.spec_width() <= ADDRESSABLE_CELLS
        &&& self.image.margins.top + self.image.size.1 <= ADDRESSABLE_CELLS
    }

    /// Validates the layout, naming the first rule it breaks.
    pub fn validate(&self) -> (r: Result<(), ConfigError>)
        ensures
            r is Ok <==> self.valid(),
            r == Err::<(), ConfigError>(ConfigError::EmptyImage) <==> (self.image.size.0 == 0
                || self.image.size.1 == 0),
            r == Err::<(), ConfigError>(ConfigError::TooWide) <==> (self.image.size.0 > 0
                && self.image.size.1 > 0 && self.image.spec_footprint_width()
                + self.controls_bar.spec_width() > ADDRESSABLE_CELLS),
            r == Err::<(), ConfigError>(ConfigError::TooTall) <==> (self.image.size.0 > 0
                && self.image.size.1 > 0 && self.image.spec_footprint_width()
                + self.controls_bar.spec_width() <= ADDRESSABLE_CELLS && self.image.margins.top
                + self.image.size.1 > ADDRESSABLE_CELLS),
    {
        if self.image.size.0 == 0 || self.image.size.1 == 0 {
            Err(ConfigError::EmptyImage)
        } else if self.image.footprint_width() + self.controls_bar.width() > ADDRESSABLE_CELLS {
            Err(ConfigError::TooWide)
        } else if self.image.margins.top as u32 + self.image.size.1 as u32 > ADDRESSABLE_CELLS {
            Err(ConfigError::TooTall)
        } else {
            Ok(())
        }
    }

    pub open spec fn spec_refresh_interval_ms(self) -> u16 {
        if self.refresh_rate_ms == 0 {
            DEFAULT_REFRESH_MS
        } else {
            self.refresh_rate_ms
        }
    }

    /// Milliseconds between two refresh ticks: the configured interval, or the
    /// default where the configuration says zero.
    pub fn refresh_interval_ms(&self) -> (ms: u16)
        ensures
            ms == self.spec_refresh_interval_ms(),
            ms > 0,
    {
        if self.refresh_rate_ms == 0 {
            DEFAULT_REFRESH_MS
        } else {
            self.refresh_rate_ms
        }
    }
}

} // verus!
