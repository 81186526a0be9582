use easycurses::Color;
use easycurses::Color::Black;
use easycurses::Color::Blue;
use easycurses::Color::Cyan;
use easycurses::Color::Green;
use easycurses::Color::Magenta;
use easycurses::Color::Red;
use easycurses::Color::White;
use easycurses::Color::Yellow;
use easycurses::color_to_i16;
use easycurses::i16_to_color;

#[test]
fn test_color_i32_conversion_identity() {
    let colors = [Black, Red, Green, Yellow, Blue, Magenta, Cyan, White];
    for &color in colors.iter() {
        if i16_to_color(color_to_i16(color)).unwrap() != color {
            panic!("round trip failed for {:?}", color);
        }
    }
}

#[test]
fn test_color_i32_matches_color_constants() {
    assert!(color_to_i16(Black) == pancurses::COLOR_BLACK);
    assert!(color_to_i16(Red) == pancurses::COLOR_RED);
    assert!(color_to_i16(Green) == pancurses::COLOR_GREEN);
    assert!(color_to_i16(Yellow) == pancurses::COLOR_YELLOW);
    assert!(color_to_i16(Blue) == pancurses::COLOR_BLUE);
    assert!(color_to_i16(Magenta) == pancurses::COLOR_MAGENTA);
    assert!(color_to_i16(Cyan) == pancurses::COLOR_CYAN);
    assert!(color_to_i16(White) == pancurses::COLOR_WHITE);
}

#[test]
fn test_i16_to_color_rejects_out_of_range() {
    assert!(i16_to_color(-1).is_none());
    assert!(i16_to_color(8).is_none());
    assert!(i16_to_color(i16::MAX).is_none());
    assert!(i16_to_color(i16::MIN).is_none());
}

#[test]
fn test_color_is_copy_and_comparable() {
    let a = Color::Cyan;
    let b = a;
    assert_eq!(a, b);
    assert_ne!(Color::Cyan, Color::Magenta);
}
