use vstd::prelude::*;
use crate::area::Area;

verus! {

/// Below this terminal width the body subtree renders condensed.
pub const SMALL_AREA_WIDTH: u16 = 60;

/// The body is never laid out shorter than this many rows by the chrome;
/// terminals not much taller than this lose the chrome rows entirely.
pub const SMALL_AREA_HEIGHT: u16 = 16;

/// The fixed height of a chrome row (title bar or status bar) when shown.
pub const CHROME_HEIGHT: u16 = 3;

/// The three non-overlapping vertical regions of one frame, in paint order.
#[derive(Clone, Copy, PartialEq, Eq, Structural, Debug)]
pub struct LayoutRegions {
    pub header: Area,
    pub body: Area,
    pub footer: Area,
}

/// The rows a chrome region takes: zero when its flag is off or the terminal
/// is too short for chrome, the fixed chrome height otherwise.
pub open spec fn spec_chrome_height(enabled: bool, height: u16) -> u16 {
    if enabled && height > SMALL_AREA_HEIGHT + 5 {
        CHROME_HEIGHT
    } else {
        0u16
    }
}

/// The vertical split of `area`: header on top, footer at the bottom, the
/// body taking every remaining row in between.
pub open spec fn spec_regions(area: Area, show_header: bool, show_footer: bool) -> LayoutRegions {
    let hh = spec_chrome_height(show_header, area.height);
    let fh = spec_chrome_height(show_footer, area.height);
    let bh = (area.height - hh - fh) as u16;
    LayoutRegions {
        header: Area { x: area.x, y: area.y, width: area.width, height: hh },
        body: Area { x: area.x, y: (area.y + hh) as u16, width: area.width, height: bh },
        footer: Area { x: area.x, y: (area.y + hh + bh) as u16, width: area.width, height: fh },
    }
}

pub fn chrome_height(enabled: bool, height: u16) -> (r: u16)
    ensures
        r == spec_chrome_height(enabled, height),
{
    if enabled && height > SMALL_AREA_HEIGHT + 5 {
        CHROME_HEIGHT
    } else {
        0
    }
}

/// Cut `area` into header, body and footer rows. The chrome rows exist only
/// when their flag is on and the terminal is tall enough; the body always
/// receives every row the chrome does not take, and the regions tile `area`.
pub fn compute_regions(area: Area, show_header: bool, show_footer: bool) -> (r: LayoutRegions)
    requires
        area.wf(),
    ensures
        r == spec_regions(area, show_header, show_footer),
        r.header.height + r.body.height + r.footer.height == area.height,
        area.height >= SMALL_AREA_HEIGHT ==> r.body.height >= SMALL_AREA_HEIGHT,
{
    let hh = chrome_height(show_header, area.height);
    let fh = chrome_height(show_footer, area.height);
    assert(hh + fh <= area.height);
    let bh = area.height - hh - fh;
    LayoutRegions {
        header: Area { x: area.x, y: area.y, width: area.width, height: hh },
        body: Area { x: area.x, y: area.y + hh, width: area.width, height: bh },
        footer: Area { x: area.x, y: area.y + hh + bh, width: area.width, height: fh },
    }
}

/// On a terminal no taller than the collapse threshold, both chrome rows
/// vanish whatever the flags say, and the body takes the whole area.
pub proof fn lemma_short_terminal_collapses_chrome(area: Area, show_header: bool, show_footer: bool)
    requires
        area.height <= SMALL_AREA_HEIGHT + 5,
    ensures
        spec_regions(area, show_header, show_footer).header.height == 0,
        spec_regions(area, show_header, show_footer).footer.height == 0,
        spec_regions(area, show_header, show_footer).body == (Area {
            x: area.x,
            y: area.y,
            width: area.width,
            height: area.height,
        }),
{
}

/// On a terminal taller than the collapse threshold with both chrome flags
/// on, header and footer take the fixed chrome height each and the body
/// keeps the rest.
pub proof fn lemma_tall_terminal_shows_chrome(area: Area)
    requires
        area.height > SMALL_AREA_HEIGHT + 5,
    ensures
        spec_regions(area, true, true).header.height == CHROME_HEIGHT,
        spec_regions(area, true, true).footer.height == CHROME_HEIGHT,
        spec_regions(area, true, true).body.height == area.height - 2 * CHROME_HEIGHT,
{
}

/// The three regions tile the area vertically: same columns, contiguous rows.
pub proof fn lemma_regions_tile_area(area: Area, show_header: bool, show_footer: bool)
    requires
        area.wf(),
    ensures
        spec_regions(area, show_header, show_footer).header.y == area.y,
        spec_regions(area, show_header, show_footer).body.y == area.y
            + spec_regions(area, show_header, show_footer).header.height,
        spec_regions(area, show_header, show_footer).footer.y == area.y
            + spec_regions(area, show_header, show_footer).header.height
            + spec_regions(area, show_header, show_footer).body.height,
        spec_regions(area, show_header, show_footer).header.height
            + spec_regions(area, show_header, show_footer).body.height
            + spec_regions(area, show_header, show_footer).footer.height == area.height,
{
}

} // verus!
