use manim_rs::Color;

#[test]
fn test_to_hex() {
    let red = Color::rgb(255, 0, 0);
    assert_eq!(red.to_hex(), "#FF0000");

    let purple = Color::rgb(128, 0, 128);
    assert_eq!(purple.to_hex(), "#800080");
}

#[test]
fn test_from_hex_with_hash() {
    let red = Color::from_hex("#FF0000").unwrap();
    assert_eq!(red, Color::rgb(255, 0, 0));
}

#[test]
fn test_from_hex_without_hash() {
    let blue = Color::from_hex("0000FF").unwrap();
    assert_eq!(blue, Color::rgb(0, 0, 255));
}

#[test]
fn test_from_hex_lowercase() {
    let c = Color::from_hex("#ff5733").unwrap();
    assert_eq!(c, Color::rgb(255, 87, 51));
}

#[test]
fn test_from_hex_wrong_length() {
    assert!(Color::from_hex("#FFF").is_none());
    assert!(Color::from_hex("").is_none());
    assert!(Color::from_hex("#FF00001").is_none());
}

#[test]
fn test_from_hex_bad_digit() {
    assert!(Color::from_hex("#GG0000").is_none());
    assert!(Color::from_hex("#FF00 0").is_none());
}

#[test]
fn test_from_hex_plus_pair() {
    // A pair may begin with a plus sign, as `u8::from_str_radix` reads one.
    let c = Color::from_hex("#+F0000").unwrap();
    assert_eq!(c, Color::rgb(15, 0, 0));
    assert!(Color::from_hex("#F+0000").is_none());
}

#[test]
fn test_hex_round_trip() {
    let c = Color::rgb(18, 52, 86);
    assert_eq!(Color::from_hex(&c.to_hex()), Some(c));
}

#[test]
fn test_constants() {
    assert_eq!(Color::white(), Color::rgb(255, 255, 255));
    assert_eq!(Color::black(), Color::rgb(0, 0, 0));
    assert_eq!(Color::transparent().a, 0);
}

#[test]
fn test_rgba() {
    let c = Color::rgba(10, 20, 30, 40);
    assert_eq!((c.r, c.g, c.b, c.a), (10, 20, 30, 40));
}
