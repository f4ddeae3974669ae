//! The geometry resolver: from the layout model to absolute screen regions.
//!
//! Drawing and hit-testing both read the regions computed here, so a button is
//! clickable exactly where it was drawn.

use vstd::prelude::*;
use crate::config::{Config, ADDRESSABLE_CELLS};

verus! {

/// Row of the line that shows artists and title.
pub const TITLE_ROW: u32 = 3;

/// Row of the line that shows the album.
pub const ALBUM_ROW: u32 = 4;

/// Row of the transport bar.
pub const BAR_ROW: u32 = 6;

/// A horizontal run of cells on one row. For the image block the region names the
/// first row; the block continues downwards for the image's height.
#[derive(Clone, Copy, Debug, PartialEq, Eq)]
pub struct Region {
    pub row_start: u32,
    pub col_start: u32,
    pub col_end_exclusive: u32,
}

/// The regions of one layout.
#[derive(Clone, Copy, Debug, PartialEq, Eq)]
pub struct Geometry {
    /// The image block, without its margins.
    pub image: Region,
    /// The line with artists and title, up to the last addressable column.
    pub title: Region,
    /// The line with the album, up to the last addressable column.
    pub album: Region,
    /// The whole transport bar, from the left cap to the right cap.
    pub bar: Region,
    /// Clickable cells of the "previous" button.
    pub prev: Region,
    /// Clickable cells of the "play/pause" button.
    pub playpause: Region,
    /// Clickable cells of the "next" button.
    pub next: Region,
}

impl Region {
    /// Number of cells in the region.
    pub open spec fn width(self) -> int {
        self.col_end_exclusive - self.col_start
    }

    /// Whether the cell at `column`, `row` belongs to the region.
    pub open spec fn contains(self, column: int, row: int) -> bool {
        row == self.row_start && self.col_start <= column < self.col_end_exclusive
    }

    /// Whether two regions share a cell.
    pub open spec fn overlaps(self, other: Region) -> bool {
        exists|column: int, row: int|
            self.contains(column, row) && #[trigger] other.contains(column, row)
    }

    /// Whether a pointer at `column`, `row` is inside the region.
    pub fn hit(&self, column: u16, row: u16) -> (inside: bool)
        ensures
            inside == self.contains(column as int, row as int),
    {
        row as u32 == self.row_start && self.col_start <= column as u32 && (column as u32)
            < self.col_end_exclusive
    }
}

/// Column at which the metadata lines and the transport bar begin: directly to the
/// right of the image and its two horizontal margins.
pub open spec fn origin_column(config: Config) -> int {
    config.image.spec_footprint_width()
}

/// First clickable column of the "previous" button: after the left cap and the
/// button's leading margin.
pub open spec fn prev_start(config: Config) -> int {
    origin_column(config) + 1 + config.controls_bar.button_prev.margins.0
}

/// Column after the last clickable column of the "previous" button.
pub open spec fn prev_end(config: Config) -> int {
    prev_start(config) + config.controls_bar.button_prev.spec_clickable_width()
}

/// First clickable column of the "play/pause" button: after the previous button's
/// trailing margin and its own leading margin.
pub open spec fn playpause_start(config: Config) -> int {
    prev_end(config) + config.controls_bar.button_prev.margins.1
        + config.controls_bar.button_playpause.margins.0
}

/// Column after the last clickable column of the "play/pause" button.
pub open spec fn playpause_end(config: Config) -> int {
    playpause_start(config) + config.controls_bar.button_playpause.spec_clickable_width()
}

/// First clickable column of the "next" button.
pub open spec fn next_start(config: Config) -> int {
    playpause_end(config) + config.controls_bar.button_playpause.margins.1
        + config.controls_bar.button_next.margins.0
}

/// Column after the last clickable column of the "next" button.
pub open spec fn next_end(config: Config) -> int {
    next_start(config) + config.controls_bar.button_next.spec_clickable_width()
}

/// Column after the right cap of the transport bar.
pub open spec fn bar_end(config: Config) -> int {
    origin_column(config) + config.controls_bar.spec_width()
}

/// Column after the last column that a text line starting at `start` can use.
pub open spec fn line_end(start: int) -> int {
    if start > ADDRESSABLE_CELLS {
        start
    } else {
        ADDRESSABLE_CELLS as int
    }
}

/// The geometry of a layout, as a function of the layout alone.
pub open spec fn geometry_of(config: Config) -> Geometry {
    Geometry {
        image: Region {
            row_start: config.image.margins.top as u32,
            col_start: config.image.margins.left as u32,
            col_end_exclusive: (config.image.margins.left + config.image.size.0) as u32,
        },
        title: Region {
            row_start: TITLE_ROW,
            col_start: origin_column(config) as u32,
            col_end_exclusive: line_end(origin_column(config)) as u32,
        },
        album: Region {
            row_start: ALBUM_ROW,
            col_start: origin_column(config) as u32,
            col_end_exclusive: line_end(origin_column(config)) as u32,
        },
        bar: Region {
            row_start: BAR_ROW,
            col_start: origin_column(config) as u32,
            col_end_exclusive: bar_end(config) as u32,
        },
        prev: Region {
            row_start: BAR_ROW,
            col_start: prev_start(config) as u32,
            col_end_exclusive: prev_end(config) as u32,
        },
        playpause: Region {
            row_start: BAR_ROW,
            col_start: playpause_start(config) as u32,
            col_end_exclusive: playpause_end(config) as u32,
        },
        next: Region {
            row_start: BAR_ROW,
            col_start: next_start(config) as u32,
            col_end_exclusive: next_end(config) as u32,
        },
    }
}

/// Resolves a layout into its regions.
pub fn resolve_geometry(config: &Config) -> (geometry: Geometry)
    ensures
        geometry == geometry_of(*config),
{
    let bar = &config.controls_bar;
    let origin: u32 = config.image.footprint_width();
    let text_end: u32 = if origin > ADDRESSABLE_CELLS {
        origin
    } else {
        ADDRESSABLE_CELLS
    };
    let prev_first: u32 = origin + 1 + bar.button_prev.margins.0 as u32;
    let prev_stop: u32 = prev_first + bar.button_prev.clickable_width();
    let playpause_first: u32 = prev_stop + bar.button_prev.margins.1 as u32
        + bar.button_playpause.margins.0 as u32;
    let playpause_stop: u32 = playpause_first + bar.button_playpause.clickable_width();
    let next_first: u32 = playpause_stop + bar.button_playpause.margins.1 as u32
        + bar.button_next.margins.0 as u32;
    let next_stop: u32 = next_first + bar.button_next.clickable_width();
    Geometry {
        image: Region {
            row_start: config.image.margins.top as u32,
            col_start: config.image.margins.left as u32,
            col_end_exclusive: config.image.margins.left as u32 + config.image.size.0 as u32,
        },
        title: Region { row_start: TITLE_ROW, col_start: origin, col_end_exclusive: text_end },
        album: Region { row_start: ALBUM_ROW, col_start: origin, col_end_exclusive: text_end },
        bar: Region {
            row_start: BAR_ROW,
            col_start: origin,
            col_end_exclusive: origin + bar.width(),
        },
        prev: Region { row_start: BAR_ROW, col_start: prev_first, col_end_exclusive: prev_stop },
        playpause: Region {
            row_start: BAR_ROW,
            col_start: playpause_first,
            col_end_exclusive: playpause_stop,
        },
        next: Region { row_start: BAR_ROW, col_start: next_first, col_end_exclusive: next_stop },
    }
}

/// The regions of a layout hold the columns that the layout's column arithmetic
/// gives: no coordinate is cut when it is stored in a region.
pub proof fn lemma_regions_hold_layout_columns(config: Config)
    ensures
        geometry_of(config).image.row_start == config.image.margins.top,
        geometry_of(config).image.col_start == config.image.margins.left,
        geometry_of(config).image.width() == config.image.size.0,
        geometry_of(config).title.col_start == origin_column(config),
        geometry_of(config).title.col_end_exclusive == line_end(origin_column(config)),
        geometry_of(config).album.col_start == origin_column(config),
        geometry_of(config).album.col_end_exclusive == line_end(origin_column(config)),
        geometry_of(config).bar.col_start == origin_column(config),
        geometry_of(config).bar.col_end_exclusive == bar_end(config),
        geometry_of(config).prev.col_start == prev_start(config),
        geometry_of(config).prev.col_end_exclusive == prev_end(config),
        geometry_of(config).playpause.col_start == playpause_start(config),
        geometry_of(config).playpause.col_end_exclusive == playpause_end(config),
        geometry_of(config).next.col_start == next_start(config),
        geometry_of(config).next.col_end_exclusive == next_end(config),
        bar_end(config) == next_end(config) + config.controls_bar.button_next.margins.1 + 1,
        config.valid() ==> bar_end(config) <= ADDRESSABLE_CELLS,
{
}

/// The three buttons lie on the bar's row from left to right, "previous" before
/// "play/pause" before "next", each separated from the next by the sum of the two
/// adjoining margins, and no two of them share a cell.
pub proof fn lemma_buttons_ordered_and_disjoint(config: Config)
    ensures
        geometry_of(config).prev.col_start < geometry_of(config).playpause.col_start,
        geometry_of(config).playpause.col_start < geometry_of(config).next.col_start,
        geometry_of(config).prev.col_end_exclusive <= geometry_of(config).playpause.col_start,
        geometry_of(config).playpause.col_end_exclusive <= geometry_of(config).next.col_start,
        geometry_of(config).playpause.col_start - geometry_of(config).prev.col_end_exclusive
            == config.controls_bar.button_prev.margins.1
            + config.controls_bar.button_playpause.margins.0,
        geometry_of(config).next.col_start - geometry_of(config).playpause.col_end_exclusive
            == config.controls_bar.button_playpause.margins.1
            + config.controls_bar.button_next.margins.0,
        !geometry_of(config).prev.overlaps(geometry_of(config).playpause),
        !geometry_of(config).prev.overlaps(geometry_of(config).next),
        !geometry_of(config).playpause.overlaps(geometry_of(config).next),
        !geometry_of(config).playpause.overlaps(geometry_of(config).prev),
        !geometry_of(config).next.overlaps(geometry_of(config).prev),
        !geometry_of(config).next.overlaps(geometry_of(config).playpause),
{
    lemma_regions_hold_layout_columns(config);
}

/// Every button can be clicked: its region is as wide as its padding plus the icon's
/// cell, which is at least one cell, and exactly one where both paddings are zero.
pub proof fn lemma_buttons_are_clickable(config: Config)
    ensures
        geometry_of(config).prev.width()
            == config.controls_bar.button_prev.spec_clickable_width(),
        geometry_of(config).playpause.width()
            == config.controls_bar.button_playpause.spec_clickable_width(),
        geometry_of(config).next.width()
            == config.controls_bar.button_next.spec_clickable_width(),
        geometry_of(config).prev.width() >= 1,
        geometry_of(config).playpause.width() >= 1,
        geometry_of(config).next.width() >= 1,
        config.controls_bar.button_prev.padding == (0u16, 0u16)
            ==> geometry_of(config).prev.width() == 1,
        config.controls_bar.button_playpause.padding == (0u16, 0u16)
            ==> geometry_of(config).playpause.width() == 1,
        config.controls_bar.button_next.padding == (0u16, 0u16)
            ==> geometry_of(config).next.width() == 1,
{
    lemma_regions_hold_layout_columns(config);
}

/// Resolving is a function of the layout: whatever two resolutions of one layout
/// return, they return the same regions.
pub proof fn lemma_resolution_is_repeatable(config: Config, first: Geometry, second: Geometry)
    requires
        first == geometry_of(config),
        second == geometry_of(config),
    ensures
        first == second,
{
}

/// No region is inverted, the image block ends before the column where the text
/// lines and the bar begin, and every button lies inside the bar, strictly between
/// its two caps.
pub proof fn lemma_regions_well_formed(config: Config)
    ensures
        geometry_of(config).image.width() >= 0,
        geometry_of(config).title.width() >= 0,
        geometry_of(config).album.width() >= 0,
        geometry_of(config).bar.width() == config.controls_bar.spec_width(),
        geometry_of(config).image.col_end_exclusive <= geometry_of(config).title.col_start,
        geometry_of(config).bar.col_start < geometry_of(config).prev.col_start,
        geometry_of(config).next.col_end_exclusive < geometry_of(config).bar.col_end_exclusive,
{
    lemma_regions_hold_layout_columns(config);
}

} // verus!
