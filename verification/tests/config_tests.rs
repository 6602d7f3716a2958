use rsbr::config::{config_or_default, ConfigError, RsbrConfig};

fn assert_config_eq(a: &RsbrConfig, b: &RsbrConfig) {
    assert_eq!(a.format, b.format);
    assert_eq!(a.theme.black.0, b.theme.black.0);
    assert_eq!(a.theme.red.0, b.theme.red.0);
    assert_eq!(a.theme.green.0, b.theme.green.0);
    assert_eq!(a.theme.yellow.0, b.theme.yellow.0);
    assert_eq!(a.theme.blue.0, b.theme.blue.0);
    assert_eq!(a.theme.magenta.0, b.theme.magenta.0);
    assert_eq!(a.theme.cyan.0, b.theme.cyan.0);
    assert_eq!(a.theme.white.0, b.theme.white.0);
    assert_eq!(a.theme.purple.0, b.theme.purple.0);
    assert_eq!(a.theme.bright_black.0, b.theme.bright_black.0);
    assert_eq!(a.theme.bright_red.0, b.theme.bright_red.0);
    assert_eq!(a.theme.bright_green.0, b.theme.bright_green.0);
    assert_eq!(a.theme.bright_yellow.0, b.theme.bright_yellow.0);
    assert_eq!(a.theme.bright_blue.0, b.theme.bright_blue.0);
    assert_eq!(a.theme.bright_magenta.0, b.theme.bright_magenta.0);
    assert_eq!(a.theme.bright_cyan.0, b.theme.bright_cyan.0);
    assert_eq!(a.theme.bright_white.0, b.theme.bright_white.0);
    assert_eq!(a.theme.bright_purple.0, b.theme.bright_purple.0);
    assert_eq!(a.theme.background.0, b.theme.background.0);
    assert_eq!(a.theme.foreground.0, b.theme.foreground.0);
    assert_eq!(a.datetime.format, b.datetime.format);
    assert_eq!(a.datetime.fgcolor.0, b.datetime.fgcolor.0);
    assert_eq!(a.datetime.bgcolor.0, b.datetime.bgcolor.0);
    assert_eq!(a.audio.fgcolor.0, b.audio.fgcolor.0);
    assert_eq!(a.audio.bgcolor.0, b.audio.bgcolor.0);
    assert_eq!(a.battery.fgcolor.0, b.battery.fgcolor.0);
    assert_eq!(a.battery.bgcolor.0, b.battery.bgcolor.0);
    assert_eq!(a.brightness.fgcolor.0, b.brightness.fgcolor.0);
    assert_eq!(a.brightness.bgcolor.0, b.brightness.bgcolor.0);
    assert_eq!(a.network.fgcolor.0, b.network.fgcolor.0);
    assert_eq!(a.network.bgcolor.0, b.network.bgcolor.0);
}

#[test]
fn default_config_values() {
    let c = RsbrConfig::default();
    assert_eq!(c.format, "{brightness} {battery} {datetime}");
    assert_eq!(c.datetime.format, "%Y-%m-%d %H:%M:%S");
    assert_eq!(c.datetime.fgcolor.0, "white");
    assert_eq!(c.datetime.bgcolor.0, "black");
    assert_eq!(c.battery.fgcolor.0, "white");
    assert_eq!(c.network.bgcolor.0, "black");
}

#[test]
fn default_round_trips_through_toml() {
    let def = RsbrConfig::default();
    let doc = def.to_toml_string();
    let loaded = RsbrConfig::from_str(&doc).unwrap();
    assert_config_eq(&loaded, &def);
}

#[test]
fn malformed_document_falls_back_to_default() {
    let r = RsbrConfig::from_str("not [ valid toml");
    assert_eq!(r.as_ref().unwrap_err(), &ConfigError::Parse);
    let c = config_or_default(r);
    assert_config_eq(&c, &RsbrConfig::default());
}

#[test]
fn empty_document_is_all_defaults() {
    let c = RsbrConfig::from_str("").unwrap();
    assert_config_eq(&c, &RsbrConfig::default());
}

#[test]
fn format_override_keeps_other_defaults() {
    let c = RsbrConfig::from_str("format = \"{audio} | {network}\"\n").unwrap();
    assert_eq!(c.format, "{audio} | {network}");
    assert_eq!(c.datetime.format, "%Y-%m-%d %H:%M:%S");
    assert_eq!(c.theme.white.0, "#CCCCCC");
}

#[test]
fn partial_section_inherits_field_defaults() {
    let c = RsbrConfig::from_str("[datetime]\nfgcolor = \"blue\"\n").unwrap();
    assert_eq!(c.datetime.fgcolor.0, "blue");
    assert_eq!(c.datetime.bgcolor.0, "black");
    assert_eq!(c.datetime.format, "%Y-%m-%d %H:%M:%S");
}

#[test]
fn wrong_type_is_an_error() {
    assert_eq!(RsbrConfig::from_str("format = 5\n").unwrap_err(), ConfigError::WrongType);
    assert_eq!(RsbrConfig::from_str("datetime = \"x\"\n").unwrap_err(), ConfigError::WrongType);
}

#[test]
fn invalid_color_reference_is_an_error() {
    assert_eq!(
        RsbrConfig::from_str("[battery]\nfgcolor = \"mauve\"\n").unwrap_err(),
        ConfigError::InvalidThemeColorName
    );
}

#[test]
fn theme_table_requires_every_slot() {
    assert_eq!(
        RsbrConfig::from_str("[theme]\nblack = \"#000000\"\n").unwrap_err(),
        ConfigError::MissingThemeColor
    );
}

#[test]
fn theme_slot_must_be_a_hex_color() {
    let mut doc = String::new();
    for key in [
        "black",
        "red",
        "green",
        "yellow",
        "blue",
        "magenta",
        "cyan",
        "white",
        "purple",
        "bright_black",
        "bright_red",
        "bright_green",
        "bright_yellow",
        "bright_blue",
        "bright_magenta",
        "bright_cyan",
        "bright_white",
        "bright_purple",
        "background",
    ] {
        doc.push_str(&format!("{} = \"#112233\"\n", key));
    }
    let good = format!("[theme]\n{}foreground = \"#445566\"\n", doc);
    let c = RsbrConfig::from_str(&good).unwrap();
    assert_eq!(c.theme.black.0, "#112233");
    assert_eq!(c.theme.foreground.0, "#445566");

    let bad = format!("[theme]\n{}foreground = \"gold\"\n", doc);
    assert_eq!(RsbrConfig::from_str(&bad).unwrap_err(), ConfigError::InvalidColor);
}

#[test]
fn unknown_keys_are_ignored() {
    let c = RsbrConfig::from_str("interval = \"1s\"\n[datetime]\nzone = \"UTC\"\n").unwrap();
    assert_config_eq(&c, &RsbrConfig::default());
}

#[test]
fn serializer_escapes_special_characters() {
    let mut def = RsbrConfig::default();
    def.format = "a\"b\\c\nd\te{battery}".to_string();
    let doc = def.to_toml_string();
    let loaded = RsbrConfig::from_str(&doc).unwrap();
    assert_eq!(loaded.format, def.format);
}
