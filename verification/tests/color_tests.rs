use rsbr::hexcolor::{ColorError, HexColor, Theme, ThemeColor};

#[test]
fn hex_color_accepts_valid() {
    let c = HexColor::from_str("#1a2b3c").unwrap();
    assert_eq!(c.0, "#1a2b3c");
    assert!(HexColor::from_str("#FFFFFF").is_ok());
    assert!(HexColor::from_str("#AbCdEf").is_ok());
}

#[test]
fn hex_color_rejects_missing_hash() {
    assert_eq!(HexColor::from_str("1a2b3c").unwrap_err(), ColorError::InvalidColor);
}

#[test]
fn hex_color_rejects_bad_digit() {
    assert_eq!(HexColor::from_str("#1a2b3g").unwrap_err(), ColorError::InvalidColor);
}

#[test]
fn hex_color_rejects_short() {
    assert_eq!(HexColor::from_str("#1a2b3").unwrap_err(), ColorError::InvalidColor);
}

#[test]
fn hex_color_rejects_long_and_empty() {
    assert!(HexColor::from_str("#1a2b3c4").is_err());
    assert!(HexColor::from_str("").is_err());
    assert!(HexColor::from_str("#").is_err());
}

#[test]
fn theme_color_accepts_the_fixed_names() {
    for name in [
        "black", "green", "white", "grey", "blue", "red", "orange", "yellow", "pink", "darkblue",
    ] {
        let c = ThemeColor::from_str(name).unwrap();
        assert_eq!(c.0, name);
    }
}

#[test]
fn theme_color_rejects_other_names() {
    assert_eq!(
        ThemeColor::from_str("magenta").unwrap_err(),
        ColorError::InvalidThemeColorName
    );
    assert!(ThemeColor::from_str("BLACK").is_err());
    assert!(ThemeColor::from_str("").is_err());
    assert!(ThemeColor::from_str("black ").is_err());
}

#[test]
fn get_color_resolves_known_slots() {
    let theme = Theme::default();
    assert_eq!(theme.get_color(&ThemeColor("white".to_string())).0, "#CCCCCC");
    assert_eq!(theme.get_color(&ThemeColor("red".to_string())).0, "#FF0000");
    assert_eq!(theme.get_color(&ThemeColor("bright_purple".to_string())).0, "#BF40BF");
    assert_eq!(theme.get_color(&ThemeColor("foreground".to_string())).0, "#FFFFFF");
}

#[test]
fn get_color_is_case_insensitive() {
    let theme = Theme::default();
    assert_eq!(theme.get_color(&ThemeColor("WHITE".to_string())).0, "#CCCCCC");
    assert_eq!(theme.get_color(&ThemeColor("Bright_Blue".to_string())).0, "#6666FF");
}

#[test]
fn get_color_falls_back_to_black() {
    let theme = Theme::default();
    // An unrecognized name resolves to the black slot rather than failing.
    assert_eq!(theme.get_color(&ThemeColor("turquoise".to_string())).0, "#000000");
    // Names that are legal references but not slots fall back the same way.
    assert_eq!(theme.get_color(&ThemeColor("grey".to_string())).0, "#000000");
    assert_eq!(theme.get_color(&ThemeColor("pink".to_string())).0, "#000000");
    assert_eq!(theme.get_color(&ThemeColor("orange".to_string())).0, "#000000");
}

#[test]
fn default_theme_palette() {
    let theme = Theme::default();
    assert_eq!(theme.black.0, "#000000");
    assert_eq!(theme.green.0, "#33CC33");
    assert_eq!(theme.background.0, "#000000");
    assert_eq!(theme.foreground.0, "#FFFFFF");
}
