use chip_maximator::math::{Point, Rect, ONE};
use chip_maximator::painter::texture_data_fits;
use chip_maximator::state::BoardState;
use chip_maximator::text::{serif_font_lookup, CharWidth, FontLookup};
use chip_maximator::uniforms::UniformTable;

#[test]
fn texture_data_length_rule() {
    assert!(texture_data_fits(2, 3, true, 24));
    assert!(texture_data_fits(2, 3, false, 18));
    assert!(!texture_data_fits(2, 3, true, 18));
    assert!(!texture_data_fits(1, 1, true, 3));
    assert!(texture_data_fits(0, 5, true, 0));
    assert!(!texture_data_fits(65536, 65536, true, 0));
}

#[test]
fn unknown_uniforms_are_not_found() {
    let mut t = UniformTable::new();
    t.insert_found("u_flags", 3);
    t.insert_found("u_missing", -1);
    t.insert_found("u_factor", 0);
    assert_eq!(t.location("u_flags"), Some(3));
    assert_eq!(t.location("u_factor"), Some(0));
    assert_eq!(t.location("u_missing"), None);
    assert_eq!(t.location("u_other"), None);
}

#[test]
fn serif_lookup_table() {
    match serif_font_lookup() {
        FontLookup::Custom(table, widths) => {
            assert_eq!(table[b'A' as usize], 1);
            assert_eq!(table[b'Z' as usize], 26);
            assert_eq!(table[b'a' as usize], 27);
            assert_eq!(table[b'0' as usize], 53);
            assert_eq!(table[b'9' as usize], 62);
            assert_eq!(table[b'.' as usize], 63);
            assert_eq!(table[b'?' as usize], 67);
            assert_eq!(table[b'#' as usize], 0);
            assert_eq!(widths[b'i' as usize], CharWidth::Half);
            assert_eq!(widths[b' ' as usize], CharWidth::Half);
            assert_eq!(widths[b'I' as usize], CharWidth::ThreeQuarters);
            assert_eq!(widths[b'1' as usize], CharWidth::ThreeQuarters);
            assert_eq!(widths[b'W' as usize], CharWidth::Normal);
        }
        FontLookup::Ascii => panic!("expected a custom table"),
    }
}

#[test]
fn rect_contains_edges() {
    let r = Rect::new_xywh(0, 0, 10 * ONE, 5 * ONE);
    assert!(r.contains(&Point::from_px(0, 0)));
    assert!(r.contains(&Point::from_px(10, 5)));
    assert!(!r.contains(&Point::from_px(11, 5)));
    assert!(!r.contains(&Point::new(-1, 0)));
}

#[test]
fn board_power_switch_reports_change() {
    let mut b = BoardState::default();
    assert!(b.switch_power(true));
    assert!(b.power);
    assert!(!b.switch_power(true));
    assert!(b.toggle_power());
    assert!(!b.power);
}
