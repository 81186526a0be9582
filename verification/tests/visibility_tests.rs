use easycurses::CursorVisibility;
use easycurses::i32_to_visibility;
use easycurses::visibility_to_i32;

#[test]
fn test_visibility_codes() {
    assert_eq!(visibility_to_i32(CursorVisibility::Invisible), 0);
    assert_eq!(visibility_to_i32(CursorVisibility::Visible), 1);
    assert_eq!(visibility_to_i32(CursorVisibility::HighlyVisible), 2);
}

#[test]
fn test_visibility_code_round_trip() {
    let modes = [
        CursorVisibility::Invisible,
        CursorVisibility::Visible,
        CursorVisibility::HighlyVisible,
    ];
    for &mode in modes.iter() {
        assert_eq!(i32_to_visibility(visibility_to_i32(mode)), Some(mode));
    }
}

#[test]
fn test_i32_to_visibility_rejects_out_of_range() {
    assert_eq!(i32_to_visibility(-1), None);
    assert_eq!(i32_to_visibility(3), None);
    assert_eq!(i32_to_visibility(i32::MAX), None);
}
