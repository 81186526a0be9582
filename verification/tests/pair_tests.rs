use easycurses::Color;
use easycurses::ColorPair;

const ALL_COLORS: [Color; 8] = [
    Color::Black,
    Color::Red,
    Color::Green,
    Color::Yellow,
    Color::Blue,
    Color::Magenta,
    Color::Cyan,
    Color::White,
];

#[test]
fn test_pair_ids_unique_and_in_range() {
    let mut seen = [false; 65];
    for &fg in ALL_COLORS.iter() {
        for &bg in ALL_COLORS.iter() {
            let id = ColorPair::from(fg, bg).pair_id();
            assert!(id >= 1, "id {} below the assignable range", id);
            assert!(id <= 64, "id {} above the assignable range", id);
            assert!(id != 0, "the reserved default pair 0 was produced");
            assert!(!seen[id as usize], "id {} produced twice", id);
            seen[id as usize] = true;
        }
    }
    assert!(!seen[0]);
    for id in 1..=64usize {
        assert!(seen[id], "id {} never produced", id);
    }
}

#[test]
fn test_encode_corner_values() {
    assert_eq!(ColorPair::from(Color::Black, Color::Black).pair_id(), 1);
    assert_eq!(ColorPair::from(Color::Black, Color::White).pair_id(), 8);
    assert_eq!(ColorPair::from(Color::White, Color::Black).pair_id(), 57);
    assert_eq!(ColorPair::from(Color::White, Color::White).pair_id(), 64);
}

#[test]
fn test_fgbg_pairid_formula() {
    for fg in 0..8i16 {
        for bg in 0..8i16 {
            assert_eq!(ColorPair::fgbg_pairid(fg, bg), 1 + 8 * fg + bg);
        }
    }
}
