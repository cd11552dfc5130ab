use hyprselect::geometry::{region_hit_exec, ClientRegion};
use hyprselect::hit_test::find_hovered_region;
use hyprselect::mask::{build_mask, empty_pixels, render_pixels};

fn region(at: (i64, i64), size: (i16, i16), monitor: Option<i64>, id: &str) -> ClientRegion {
    ClientRegion { at, size, monitor, client_id: String::from(id) }
}

#[test]
fn hover_bounds_are_strictly_exclusive() {
    let r = region((10, 20), (100, 50), Some(1), "0x1");
    // left and top edges do not count
    assert!(!region_hit_exec(&r, 10, 30, 1));
    assert!(!region_hit_exec(&r, 50, 20, 1));
    // one pixel inside counts
    assert!(region_hit_exec(&r, 11, 21, 1));
    // right and bottom edges do not count
    assert!(!region_hit_exec(&r, 110, 30, 1));
    assert!(!region_hit_exec(&r, 50, 70, 1));
    // one pixel before the far edges counts
    assert!(region_hit_exec(&r, 109, 69, 1));
}

#[test]
fn hover_requires_matching_monitor() {
    let r = region((0, 0), (100, 100), Some(1), "0x1");
    assert!(region_hit_exec(&r, 50, 50, 1));
    assert!(!region_hit_exec(&r, 50, 50, 2));
    let unresolved = region((0, 0), (100, 100), None, "0x2");
    assert!(!region_hit_exec(&unresolved, 50, 50, 1));
}

#[test]
fn first_overlapping_region_wins() {
    let regions = vec![
        region((0, 0), (100, 100), Some(1), "0xfirst"),
        region((0, 0), (100, 100), Some(1), "0xsecond"),
    ];
    assert_eq!(find_hovered_region(&regions, 50, 50, 1), Some(0));
}

#[test]
fn no_hit_outside_all_regions() {
    let regions = vec![region((0, 0), (10, 10), Some(1), "0x1")];
    assert_eq!(find_hovered_region(&regions, 500, 500, 1), None);
    assert_eq!(find_hovered_region(&Vec::new(), 5, 5, 1), None);
}

#[test]
fn mask_marks_exactly_the_covered_pixels() {
    // a 4x4 monitor with one region: strict bounds leave the region's own
    // left and top edge rows off
    let regions = vec![region((0, 0), (3, 3), Some(1), "0x1")];
    let mask = build_mask(&regions, 1, 4, 4);
    assert_eq!(mask.len(), 16);
    for y in 0..4i64 {
        for x in 0..4i64 {
            let expected = x > 0 && x < 3 && y > 0 && y < 3;
            assert_eq!(mask[(y * 4 + x) as usize], expected, "pixel ({x},{y})");
        }
    }
}

#[test]
fn render_uses_highlight_and_transparent_colors() {
    let mask = vec![true, false];
    let pixels = render_pixels(&mask);
    assert_eq!(pixels, vec![0x40, 0x40, 0x40, 0x2f, 0x00, 0x00, 0x00, 0x00]);
}

#[test]
fn render_is_deterministic_for_equal_masks() {
    let regions = vec![region((1, 1), (6, 5), Some(2), "0x1")];
    let mask = build_mask(&regions, 2, 8, 8);
    let first = render_pixels(&mask);
    let second = render_pixels(&mask);
    assert_eq!(first, second);
}

#[test]
fn monitor_size_limit_boundary() {
    // the largest square monitor whose byte count still fits the factory's
    // signed 32-bit length, and the first one that does not
    assert!(hyprselect::geometry::monitor_size_ok_exec(23170, 23170));
    assert!(!hyprselect::geometry::monitor_size_ok_exec(23171, 23171));
    assert!(!hyprselect::geometry::monitor_size_ok_exec(65535, 65535));
    assert!(hyprselect::geometry::monitor_size_ok_exec(1920, 1080));
}

#[test]
fn empty_pixels_are_all_transparent() {
    let pixels = empty_pixels(3);
    assert_eq!(pixels, vec![0u8; 12]);
}
