use artificial_life::grid::{half_extent, line_at, line_count, GridLine};

#[test]
fn half_extent_halves_the_slice_count() {
    assert_eq!(half_extent(20000), 10000);
    assert_eq!(half_extent(4), 2);
    assert_eq!(half_extent(5), 2);
    assert_eq!(half_extent(1), 0);
    assert_eq!(half_extent(0), 0);
    assert_eq!(half_extent(0x7fff_ffff), 0x3fff_ffff);
}

#[test]
fn half_extent_wraps_above_the_signed_range() {
    assert_eq!(half_extent(u32::MAX), 0);
    assert_eq!(half_extent(u32::MAX - 1), -1);
    assert_eq!(half_extent(u32::MAX - 2), -1);
    assert_eq!(half_extent(0x8000_0000), -0x4000_0000);
    assert_eq!(half_extent(0x8000_0001), -0x3fff_ffff);
}

#[test]
fn half_extent_agrees_with_signed_division() {
    for slices in [0u32, 1, 2, 3, 99, 20000, 0x7fff_fffe, 0x7fff_ffff, 0x8000_0000, 0x8000_0001, 0xffff_fffe, u32::MAX] {
        assert_eq!(half_extent(slices), (slices as i32) / 2);
    }
}

#[test]
fn line_count_is_odd_or_zero() {
    assert_eq!(line_count(20000), 20001);
    assert_eq!(line_count(4), 5);
    assert_eq!(line_count(5), 5);
    assert_eq!(line_count(1), 1);
    assert_eq!(line_count(0), 1);
    assert_eq!(line_count(u32::MAX), 1);
    assert_eq!(line_count(0x7fff_ffff), 0x7fff_ffff);
}

#[test]
fn a_negative_half_extent_draws_nothing() {
    assert_eq!(line_count(0x8000_0000), 0);
    assert_eq!(line_count(u32::MAX - 1), 0);
    assert_eq!(line_at(0x8000_0000, 0), None);
    assert_eq!(line_at(u32::MAX - 1, 0), None);
}

#[test]
fn lines_of_a_small_grid() {
    assert_eq!(line_at(4, 0), Some(GridLine { index: -2, axis: false }));
    assert_eq!(line_at(4, 1), Some(GridLine { index: -1, axis: false }));
    assert_eq!(line_at(4, 2), Some(GridLine { index: 0, axis: true }));
    assert_eq!(line_at(4, 3), Some(GridLine { index: 1, axis: false }));
    assert_eq!(line_at(4, 4), Some(GridLine { index: 2, axis: false }));
    assert_eq!(line_at(4, 5), None);
    assert_eq!(line_at(4, u32::MAX), None);
}

#[test]
fn a_grid_without_slices_is_just_the_axes() {
    assert_eq!(line_at(0, 0), Some(GridLine { index: 0, axis: true }));
    assert_eq!(line_at(0, 1), None);
    assert_eq!(line_at(u32::MAX, 0), Some(GridLine { index: 0, axis: true }));
    assert_eq!(line_at(u32::MAX, 1), None);
}

#[test]
fn lines_match_the_signed_range() {
    for slices in [0u32, 1, 2, 7, 64, 20000, u32::MAX, u32::MAX - 1, 0x8000_0000] {
        let half = (slices as i32) / 2;
        let mut expected = Vec::new();
        for i in -half..half + 1 {
            expected.push(GridLine { index: i, axis: i == 0 });
        }
        let mut lines = Vec::new();
        for k in 0..line_count(slices) {
            lines.push(line_at(slices, k).unwrap());
        }
        assert_eq!(lines, expected);
        assert_eq!(line_at(slices, line_count(slices)), None);
    }
}

#[test]
fn exactly_one_line_is_the_axis() {
    for slices in [0u32, 1, 10, 11, 20000] {
        let axes = (0..line_count(slices))
            .filter(|k| line_at(slices, *k).unwrap().axis)
            .count();
        assert_eq!(axes, 1);
        let middle = line_at(slices, half_extent(slices) as u32).unwrap();
        assert_eq!(middle, GridLine { index: 0, axis: true });
    }
}

#[test]
fn the_largest_grid_ends_at_its_half_extent() {
    let slices = 0x7fff_ffff;
    assert_eq!(line_at(slices, 0), Some(GridLine { index: -0x3fff_ffff, axis: false }));
    assert_eq!(line_at(slices, 0x7fff_fffe), Some(GridLine { index: 0x3fff_ffff, axis: false }));
    assert_eq!(line_at(slices, 0x7fff_ffff), None);
}
