use tgt::area::Area;
use tgt::layout::{compute_regions, LayoutRegions, CHROME_HEIGHT, SMALL_AREA_HEIGHT};

fn area(x: u16, y: u16, width: u16, height: u16) -> Area {
    Area::new(x, y, width, height)
}

#[test]
fn full_size_regions() {
    let r: LayoutRegions = compute_regions(area(0, 0, 100, 30), true, true);
    assert_eq!(r.header, area(0, 0, 100, 3));
    assert_eq!(r.body, area(0, 3, 100, 24));
    assert_eq!(r.footer, area(0, 27, 100, 3));
}

#[test]
fn small_terminal_collapses_chrome() {
    let r = compute_regions(area(0, 0, 40, 10), true, true);
    assert_eq!(r.header.height, 0);
    assert_eq!(r.footer.height, 0);
    assert_eq!(r.body, area(0, 0, 40, 10));
}

#[test]
fn collapse_threshold_is_sharp() {
    // At exactly the collapse threshold the chrome stays hidden...
    let at = compute_regions(area(0, 0, 80, SMALL_AREA_HEIGHT + 5), true, true);
    assert_eq!(at.header.height, 0);
    assert_eq!(at.footer.height, 0);
    assert_eq!(at.body.height, SMALL_AREA_HEIGHT + 5);
    // ...one row above it, both chrome rows appear.
    let above = compute_regions(area(0, 0, 80, SMALL_AREA_HEIGHT + 6), true, true);
    assert_eq!(above.header.height, CHROME_HEIGHT);
    assert_eq!(above.footer.height, CHROME_HEIGHT);
    assert_eq!(above.body.height, SMALL_AREA_HEIGHT);
}

#[test]
fn chrome_flags_are_respected() {
    let no_header = compute_regions(area(0, 0, 100, 30), false, true);
    assert_eq!(no_header.header.height, 0);
    assert_eq!(no_header.body, area(0, 0, 100, 27));
    assert_eq!(no_header.footer, area(0, 27, 100, 3));

    let no_footer = compute_regions(area(0, 0, 100, 30), true, false);
    assert_eq!(no_footer.header, area(0, 0, 100, 3));
    assert_eq!(no_footer.body, area(0, 3, 100, 27));
    assert_eq!(no_footer.footer.height, 0);

    let bare = compute_regions(area(0, 0, 100, 30), false, false);
    assert_eq!(bare.header.height, 0);
    assert_eq!(bare.footer.height, 0);
    assert_eq!(bare.body, area(0, 0, 100, 30));
}

#[test]
fn regions_tile_the_area_at_an_offset() {
    let r = compute_regions(area(5, 7, 90, 40), true, true);
    assert_eq!(r.header, area(5, 7, 90, 3));
    assert_eq!(r.body, area(5, 10, 90, 34));
    assert_eq!(r.footer, area(5, 44, 90, 3));
    assert_eq!(r.header.height + r.body.height + r.footer.height, 40);
}

#[test]
fn zero_height_area_degrades() {
    let r = compute_regions(area(0, 0, 100, 0), true, true);
    assert_eq!(r.header.height, 0);
    assert_eq!(r.body.height, 0);
    assert_eq!(r.footer.height, 0);
}
