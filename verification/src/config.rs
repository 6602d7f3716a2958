//! Configuration model: layered defaults plus user overrides, loaded from a
//! TOML document.
//!
//! Parsing the document itself is delegated to the `toml` crate behind a few
//! small trusted wrappers, one per part of the document, whose contracts all
//! project the one name [`spec_raw_of`] — the raw state of every known key,
//! in the plain [`RawConfig`] shape; [`build_config`], fully verified,
//! validates the fields and fills in the defaults, and the loading contract
//! is exact over that name.

use vstd::prelude::*;
use crate::hexcolor::{
    HexColor,
    Theme,
    ThemeColor,
    is_default_theme,
    is_hex_color,
    is_theme_color_name,
};

verus! {

/// Why a configuration document was rejected.  Any of these makes the caller
/// fall back to the full default configuration; none is fatal.
#[derive(Debug, Clone, Copy, PartialEq, Eq, Structural)]
pub enum ConfigError {
    /// The file could not be read at all.
    Io,
    /// The document is not well-formed TOML.
    Parse,
    /// A key holds a value of the wrong type.
    WrongType,
    /// The theme table is present but lacks one of its color slots.
    MissingThemeColor,
    /// A theme slot holds something other than `#RRGGBB`.
    InvalidColor,
    /// A color reference is not one of the symbolic color names.
    InvalidThemeColorName,
}

/// What a single leaf key held in the document.
pub enum RawVal {
    /// The key is absent.
    Missing,
    /// The key holds this string.
    Text(String),
    /// The key holds a non-string value.
    Wrong,
}

/// What a sub-table key held in the document.
pub enum RawSect<T> {
    /// The key is absent.
    Missing,
    /// The key holds a table with these fields.
    Table(T),
    /// The key holds a non-table value.
    Wrong,
}

/// The raw fields of a per-property color pair.
pub struct RawColors {
    pub fgcolor: RawVal,
    pub bgcolor: RawVal,
}

/// The raw fields of the date/time section.
pub struct RawDatetime {
    pub format: RawVal,
    pub fgcolor: RawVal,
    pub bgcolor: RawVal,
}

/// The raw fields of the theme table.
pub struct RawTheme {
    pub black: RawVal,
    pub red: RawVal,
    pub green: RawVal,
    pub yellow: RawVal,
    pub blue: RawVal,
    pub magenta: RawVal,
    pub cyan: RawVal,
    pub white: RawVal,
    pub purple: RawVal,
    pub bright_black: RawVal,
    pub bright_red: RawVal,
    pub bright_green: RawVal,
    pub bright_yellow: RawVal,
    pub bright_blue: RawVal,
    pub bright_magenta: RawVal,
    pub bright_cyan: RawVal,
    pub bright_white: RawVal,
    pub bright_purple: RawVal,
    pub background: RawVal,
    pub foreground: RawVal,
}

/// Everything the loader reads out of a configuration document, as plain
/// values, before validation.
pub struct RawConfig {
    pub format: RawVal,
    pub theme: RawSect<RawTheme>,
    pub datetime: RawSect<RawDatetime>,
    pub audio: RawSect<RawColors>,
    pub battery: RawSect<RawColors>,
    pub brightness: RawSect<RawColors>,
    pub network: RawSect<RawColors>,
}

/// Date/time section: a strftime-style pattern and a color pair.
#[derive(Debug, Clone)]
pub struct RsbrDatetimeConfig {
    pub format: String,
    pub fgcolor: ThemeColor,
    pub bgcolor: ThemeColor,
}

/// Brightness section: a color pair.
#[derive(Debug, Clone)]
pub struct RsbrBrightnessConfig {
    pub fgcolor: ThemeColor,
    pub bgcolor: ThemeColor,
}

/// Battery section: a color pair.
#[derive(Debug, Clone)]
pub struct RsbrBatteryConfig {
    pub fgcolor: ThemeColor,
    pub bgcolor: ThemeColor,
}

/// Audio section: a color pair.
#[derive(Debug, Clone)]
pub struct RsbrAudioConfig {
    pub fgcolor: ThemeColor,
    pub bgcolor: ThemeColor,
}

/// Network section: a color pair.
#[derive(Debug, Clone)]
pub struct RsbrNetworkConfig {
    pub fgcolor: ThemeColor,
    pub bgcolor: ThemeColor,
}

/// The whole configuration tree: the output format string with its
/// placeholder tokens, the theme, and one section per property kind.
#[derive(Debug, Clone)]
pub struct RsbrConfig {
    pub theme: Theme,
    pub format: String,
    pub datetime: RsbrDatetimeConfig,
    pub audio: RsbrAudioConfig,
    pub battery: RsbrBatteryConfig,
    pub brightness: RsbrBrightnessConfig,
    pub network: RsbrNetworkConfig,
}

/// The default output format; audio and network tokens are deliberately not
/// part of it.
pub open spec fn default_format() -> Seq<char> {
    "{brightness} {battery} {datetime}"@
}

/// The default date/time pattern.
pub open spec fn default_datetime_format() -> Seq<char> {
    "%Y-%m-%d %H:%M:%S"@
}

/// The default color pair of every property section.
pub open spec fn is_default_pair(fg: ThemeColor, bg: ThemeColor) -> bool {
    fg.0@ == "white"@ && bg.0@ == "black"@
}

/// The built-in date/time section.
pub open spec fn is_default_datetime(c: RsbrDatetimeConfig) -> bool {
    c.format@ == default_datetime_format() && is_default_pair(c.fgcolor, c.bgcolor)
}

/// The built-in configuration: the default format, palette and sections.
pub open spec fn is_default_config(c: RsbrConfig) -> bool {
    &&& c.format@ == default_format()
    &&& is_default_theme(c.theme)
    &&& is_default_datetime(c.datetime)
    &&& is_default_pair(c.audio.fgcolor, c.audio.bgcolor)
    &&& is_default_pair(c.battery.fgcolor, c.battery.bgcolor)
    &&& is_default_pair(c.brightness.fgcolor, c.brightness.bgcolor)
    &&& is_default_pair(c.network.fgcolor, c.network.bgcolor)
}

/// Every color slot of the theme holds a validated color value.
pub open spec fn theme_wf(t: Theme) -> bool {
    &&& is_hex_color(t.black.0@)
    &&& is_hex_color(t.red.0@)
    &&& is_hex_color(t.green.0@)
    &&& is_hex_color(t.yellow.0@)
    &&& is_hex_color(t.blue.0@)
    &&& is_hex_color(t.magenta.0@)
    &&& is_hex_color(t.cyan.0@)
    &&& is_hex_color(t.white.0@)
    &&& is_hex_color(t.purple.0@)
    &&& is_hex_color(t.bright_black.0@)
    &&& is_hex_color(t.bright_red.0@)
    &&& is_hex_color(t.bright_green.0@)
    &&& is_hex_color(t.bright_yellow.0@)
    &&& is_hex_color(t.bright_blue.0@)
    &&& is_hex_color(t.bright_magenta.0@)
    &&& is_hex_color(t.bright_cyan.0@)
    &&& is_hex_color(t.bright_white.0@)
    &&& is_hex_color(t.bright_purple.0@)
    &&& is_hex_color(t.background.0@)
    &&& is_hex_color(t.foreground.0@)
}

/// Every color slot is validated and every color reference names one of the
/// symbolic color names.
pub open spec fn config_wf(c: RsbrConfig) -> bool {
    &&& theme_wf(c.theme)
    &&& is_theme_color_name(c.datetime.fgcolor.0@)
    &&& is_theme_color_name(c.datetime.bgcolor.0@)
    &&& is_theme_color_name(c.audio.fgcolor.0@)
    &&& is_theme_color_name(c.audio.bgcolor.0@)
    &&& is_theme_color_name(c.battery.fgcolor.0@)
    &&& is_theme_color_name(c.battery.bgcolor.0@)
    &&& is_theme_color_name(c.brightness.fgcolor.0@)
    &&& is_theme_color_name(c.brightness.bgcolor.0@)
    &&& is_theme_color_name(c.network.fgcolor.0@)
    &&& is_theme_color_name(c.network.bgcolor.0@)
}

/// The built-in palette holds only validated color values.
pub proof fn lemma_default_theme_wf(t: Theme)
    requires
        is_default_theme(t),
    ensures
        theme_wf(t),
{
    reveal_strlit("#000000");
    reveal_strlit("#FF0000");
    reveal_strlit("#33CC33");
    reveal_strlit("#FFFF00");
    reveal_strlit("#3333FF");
    reveal_strlit("#CC33CC");
    reveal_strlit("#00CCCC");
    reveal_strlit("#CCCCCC");
    reveal_strlit("#800080");
    reveal_strlit("#666666");
    reveal_strlit("#FF6666");
    reveal_strlit("#66FF66");
    reveal_strlit("#FFFF66");
    reveal_strlit("#6666FF");
    reveal_strlit("#FF66FF");
    reveal_strlit("#66FFFF");
    reveal_strlit("#FFFFFF");
    reveal_strlit("#BF40BF");
}

impl Default for RsbrDatetimeConfig {
    fn default() -> (r: RsbrDatetimeConfig)
        ensures
            is_default_datetime(r),
    {
        RsbrDatetimeConfig {
            format: String::from_str("%Y-%m-%d %H:%M:%S"),
            fgcolor: ThemeColor(String::from_str("white")),
            bgcolor: ThemeColor(String::from_str("black")),
        }
    }
}

impl Default for RsbrBrightnessConfig {
    fn default() -> (r: RsbrBrightnessConfig)
        ensures
            is_default_pair(r.fgcolor, r.bgcolor),
    {
        RsbrBrightnessConfig {
            fgcolor: ThemeColor(String::from_str("white")),
            bgcolor: ThemeColor(String::from_str("black")),
        }
    }
}

impl Default for RsbrBatteryConfig {
    fn default() -> (r: RsbrBatteryConfig)
        ensures
            is_default_pair(r.fgcolor, r.bgcolor),
    {
        RsbrBatteryConfig {
            fgcolor: ThemeColor(String::from_str("white")),
            bgcolor: ThemeColor(String::from_str("black")),
        }
    }
}

impl Default for RsbrAudioConfig {
    fn default() -> (r: RsbrAudioConfig)
        ensures
            is_default_pair(r.fgcolor, r.bgcolor),
    {
        RsbrAudioConfig {
            fgcolor: ThemeColor(String::from_str("white")),
            bgcolor: ThemeColor(String::from_str("black")),
        }
    }
}

impl Default for RsbrNetworkConfig {
    fn default() -> (r: RsbrNetworkConfig)
        ensures
            is_default_pair(r.fgcolor, r.bgcolor),
    {
        RsbrNetworkConfig {
            fgcolor: ThemeColor(String::from_str("white")),
            bgcolor: ThemeColor(String::from_str("black")),
        }
    }
}

impl Default for RsbrConfig {
    fn default() -> (r: RsbrConfig)
        ensures
            is_default_config(r),
    {
        RsbrConfig {
            format: String::from_str("{brightness} {battery} {datetime}"),
            datetime: RsbrDatetimeConfig::default(),
            battery: RsbrBatteryConfig::default(),
            brightness: RsbrBrightnessConfig::default(),
            audio: RsbrAudioConfig::default(),
            network: RsbrNetworkConfig::default(),
            theme: Theme::default(),
        }
    }
}

/// The error a plain string key yields: only a wrong type is rejected.
pub open spec fn str_field_err(raw: RawVal) -> Option<ConfigError> {
    match raw {
        RawVal::Wrong => Some(ConfigError::WrongType),
        _ => None,
    }
}

/// What a plain string key loads to: the text when present, the default
/// otherwise.
pub open spec fn str_field_matches(raw: RawVal, out: Seq<char>, def: Seq<char>) -> bool {
    match raw {
        RawVal::Missing => out == def,
        RawVal::Text(s) => out == s@,
        RawVal::Wrong => false,
    }
}

/// The error a theme color slot yields: inside the theme table every slot is
/// required and must be a valid color value.
pub open spec fn hex_field_err(raw: RawVal) -> Option<ConfigError> {
    match raw {
        RawVal::Missing => Some(ConfigError::MissingThemeColor),
        RawVal::Wrong => Some(ConfigError::WrongType),
        RawVal::Text(s) => if is_hex_color(s@) {
            None
        } else {
            Some(ConfigError::InvalidColor)
        },
    }
}

/// What a theme color slot loads to.
pub open spec fn hex_field_matches(raw: RawVal, out: HexColor) -> bool {
    match raw {
        RawVal::Text(s) => out.0@ == s@,
        _ => false,
    }
}

/// The error a color reference key yields: when present it must name one of
/// the symbolic color names.
pub open spec fn ref_field_err(raw: RawVal) -> Option<ConfigError> {
    match raw {
        RawVal::Missing => None,
        RawVal::Wrong => Some(ConfigError::WrongType),
        RawVal::Text(s) => if is_theme_color_name(s@) {
            None
        } else {
            Some(ConfigError::InvalidThemeColorName)
        },
    }
}

/// What a color reference key loads to: the named reference when present,
/// the default name otherwise.
pub open spec fn ref_field_matches(raw: RawVal, out: ThemeColor, def: Seq<char>) -> bool {
    match raw {
        RawVal::Missing => out.0@ == def,
        RawVal::Text(s) => out.0@ == s@,
        RawVal::Wrong => false,
    }
}

/// The first of two possible errors.
pub open spec fn or_err(a: Option<ConfigError>, b: Option<ConfigError>) -> Option<ConfigError> {
    if a is Some {
        a
    } else {
        b
    }
}

/// The first error in the theme table, slots checked in declaration order.
pub open spec fn theme_err(rs: RawSect<RawTheme>) -> Option<ConfigError> {
    match rs {
        RawSect::Missing => None,
        RawSect::Wrong => Some(ConfigError::WrongType),
        RawSect::Table(t) => or_err(
            hex_field_err(t.black),
            or_err(
                hex_field_err(t.red),
                or_err(
                    hex_field_err(t.green),
                    or_err(
                        hex_field_err(t.yellow),
                        or_err(
                            hex_field_err(t.blue),
                            or_err(
                                hex_field_err(t.magenta),
                                or_err(
                                    hex_field_err(t.cyan),
                                    or_err(
                                        hex_field_err(t.white),
                                        or_err(
                                            hex_field_err(t.purple),
                                            or_err(
                                                hex_field_err(t.bright_black),
                                                or_err(
                                                    hex_field_err(t.bright_red),
                                                    or_err(
                                                        hex_field_err(t.bright_green),
                                                        or_err(
                                                            hex_field_err(t.bright_yellow),
                                                            or_err(
                                                                hex_field_err(t.bright_blue),
                                                                or_err(
                                                                    hex_field_err(t.bright_magenta),
                                                                    or_err(
                                                                        hex_field_err(
                                                                            t.bright_cyan,
                                                                        ),
                                                                        or_err(
                                                                            hex_field_err(
                                                                                t.bright_white,
                                                                            ),
                                                                            or_err(
                                                                                hex_field_err(
                                                                                    t.bright_purple,
                                                                                ),
                                                                                or_err(
                                                                                    hex_field_err(
                                                                                        t.background,
                                                                                    ),
                                                                                    hex_field_err(
                                                                                        t.foreground,
                                                                                    ),
                                                                                ),
                                                                            ),
                                                                        ),
                                                                    ),
                                                                ),
                                                            ),
                                                        ),
                                                    ),
                                                ),
                                            ),
                                        ),
                                    ),
                                ),
                            ),
                        ),
                    ),
                ),
            ),
        ),
    }
}

/// What the theme table loads to: the default palette when absent, otherwise
/// every slot taken from the table.
pub open spec fn theme_matches(rs: RawSect<RawTheme>, out: Theme) -> bool {
    match rs {
        RawSect::Missing => is_default_theme(out),
        RawSect::Wrong => false,
        RawSect::Table(t) => {
            &&& hex_field_matches(t.black, out.black)
            &&& hex_field_matches(t.red, out.red)
            &&& hex_field_matches(t.green, out.green)
            &&& hex_field_matches(t.yellow, out.yellow)
            &&& hex_field_matches(t.blue, out.blue)
            &&& hex_field_matches(t.magenta, out.magenta)
            &&& hex_field_matches(t.cyan, out.cyan)
            &&& hex_field_matches(t.white, out.white)
            &&& hex_field_matches(t.purple, out.purple)
            &&& hex_field_matches(t.bright_black, out.bright_black)
            &&& hex_field_matches(t.bright_red, out.bright_red)
            &&& hex_field_matches(t.bright_green, out.bright_green)
            &&& hex_field_matches(t.bright_yellow, out.bright_yellow)
            &&& hex_field_matches(t.bright_blue, out.bright_blue)
            &&& hex_field_matches(t.bright_magenta, out.bright_magenta)
            &&& hex_field_matches(t.bright_cyan, out.bright_cyan)
            &&& hex_field_matches(t.bright_white, out.bright_white)
            &&& hex_field_matches(t.bright_purple, out.bright_purple)
            &&& hex_field_matches(t.background, out.background)
            &&& hex_field_matches(t.foreground, out.foreground)
        },
    }
}

/// The first error in a color pair section.
pub open spec fn colors_err(rs: RawSect<RawColors>) -> Option<ConfigError> {
    match rs {
        RawSect::Missing => None,
        RawSect::Wrong => Some(ConfigError::WrongType),
        RawSect::Table(c) => or_err(ref_field_err(c.fgcolor), ref_field_err(c.bgcolor)),
    }
}

/// What a color pair section loads to.
pub open spec fn colors_match(rs: RawSect<RawColors>, fg: ThemeColor, bg: ThemeColor) -> bool {
    match rs {
        RawSect::Missing => is_default_pair(fg, bg),
        RawSect::Wrong => false,
        RawSect::Table(c) => ref_field_matches(c.fgcolor, fg, "white"@) && ref_field_matches(
            c.bgcolor,
            bg,
            "black"@,
        ),
    }
}

/// The first error in the date/time section.
pub open spec fn datetime_err(rs: RawSect<RawDatetime>) -> Option<ConfigError> {
    match rs {
        RawSect::Missing => None,
        RawSect::Wrong => Some(ConfigError::WrongType),
        RawSect::Table(d) => or_err(
            str_field_err(d.format),
            or_err(ref_field_err(d.fgcolor), ref_field_err(d.bgcolor)),
        ),
    }
}

/// What the date/time section loads to.
pub open spec fn datetime_matches(rs: RawSect<RawDatetime>, out: RsbrDatetimeConfig) -> bool {
    match rs {
        RawSect::Missing => is_default_datetime(out),
        RawSect::Wrong => false,
        RawSect::Table(d) => {
            &&& str_field_matches(d.format, out.format@, default_datetime_format())
            &&& ref_field_matches(d.fgcolor, out.fgcolor, "white"@)
            &&& ref_field_matches(d.bgcolor, out.bgcolor, "black"@)
        },
    }
}

/// The first error anywhere in a raw document, fields checked in a fixed
/// order: format, theme, datetime, audio, battery, brightness, network.
pub open spec fn spec_build_error(raw: RawConfig) -> Option<ConfigError> {
    or_err(
        str_field_err(raw.format),
        or_err(
            theme_err(raw.theme),
            or_err(
                datetime_err(raw.datetime),
                or_err(
                    colors_err(raw.audio),
                    or_err(
                        colors_err(raw.battery),
                        or_err(colors_err(raw.brightness), colors_err(raw.network)),
                    ),
                ),
            ),
        ),
    )
}

/// The loaded configuration agrees field by field with the raw document,
/// defaults filling every absent field.
pub open spec fn config_matches_raw(raw: RawConfig, c: RsbrConfig) -> bool {
    &&& str_field_matches(raw.format, c.format@, default_format())
    &&& theme_matches(raw.theme, c.theme)
    &&& datetime_matches(raw.datetime, c.datetime)
    &&& colors_match(raw.audio, c.audio.fgcolor, c.audio.bgcolor)
    &&& colors_match(raw.battery, c.battery.fgcolor, c.battery.bgcolor)
    &&& colors_match(raw.brightness, c.brightness.fgcolor, c.brightness.bgcolor)
    &&& colors_match(raw.network, c.network.fgcolor, c.network.bgcolor)
}

/// Loads a plain string key, with its default.
fn build_str_field(raw: &RawVal, def: &str) -> (r: Result<String, ConfigError>)
    ensures
        r is Ok <==> str_field_err(*raw) is None,
        r is Err ==> r->Err_0 == str_field_err(*raw).unwrap(),
        r is Ok ==> str_field_matches(*raw, r.unwrap()@, def@),
{
    match raw {
        RawVal::Missing => Ok(String::from_str(def)),
        RawVal::Text(s) => Ok(s.clone()),
        RawVal::Wrong => Err(ConfigError::WrongType),
    }
}

/// Loads a color reference key, with its default name.
fn build_ref_field(raw: &RawVal, def: &str) -> (r: Result<ThemeColor, ConfigError>)
    requires
        is_theme_color_name(def@),
    ensures
        r is Ok <==> ref_field_err(*raw) is None,
        r is Err ==> r->Err_0 == ref_field_err(*raw).unwrap(),
        r is Ok ==> ref_field_matches(*raw, r.unwrap(), def@) && is_theme_color_name(
            r.unwrap().0@,
        ),
{
    match raw {
        RawVal::Missing => Ok(ThemeColor(String::from_str(def))),
        RawVal::Text(s) => match ThemeColor::from_str(s.as_str()) {
            Ok(c) => Ok(c),
            Err(_) => Err(ConfigError::InvalidThemeColorName),
        },
        RawVal::Wrong => Err(ConfigError::WrongType),
    }
}

/// Loads one required theme color slot.
fn build_hex_field(raw: &RawVal) -> (r: Result<HexColor, ConfigError>)
    ensures
        r is Ok <==> hex_field_err(*raw) is None,
        r is Err ==> r->Err_0 == hex_field_err(*raw).unwrap(),
        r is Ok ==> hex_field_matches(*raw, r.unwrap()) && is_hex_color(r.unwrap().0@),
{
    match raw {
        RawVal::Missing => Err(ConfigError::MissingThemeColor),
        RawVal::Text(s) => match HexColor::from_str(s.as_str()) {
            Ok(c) => Ok(c),
            Err(_) => Err(ConfigError::InvalidColor),
        },
        RawVal::Wrong => Err(ConfigError::WrongType),
    }
}

/// Loads the theme table: absent means the built-in palette; present means
/// all twenty slots are required.
fn build_theme(rs: &RawSect<RawTheme>) -> (r: Result<Theme, ConfigError>)
    ensures
        r is Ok <==> theme_err(*rs) is None,
        r is Err ==> r->Err_0 == theme_err(*rs).unwrap(),
        r is Ok ==> theme_matches(*rs, r.unwrap()) && theme_wf(r.unwrap()),
{
    match rs {
        RawSect::Missing => {
            let t = Theme::default();
            proof {
                lemma_default_theme_wf(t);
            }
            Ok(t)
        },
        RawSect::Wrong => Err(ConfigError::WrongType),
        RawSect::Table(t) => {
            let black = build_hex_field(&t.black)?;
            let red = build_hex_field(&t.red)?;
            let green = build_hex_field(&t.green)?;
            let yellow = build_hex_field(&t.yellow)?;
            let blue = build_hex_field(&t.blue)?;
            let magenta = build_hex_field(&t.magenta)?;
            let cyan = build_hex_field(&t.cyan)?;
            let white = build_hex_field(&t.white)?;
            let purple = build_hex_field(&t.purple)?;
            let bright_black = build_hex_field(&t.bright_black)?;
            let bright_red = build_hex_field(&t.bright_red)?;
            let bright_green = build_hex_field(&t.bright_green)?;
            let bright_yellow = build_hex_field(&t.bright_yellow)?;
            let bright_blue = build_hex_field(&t.bright_blue)?;
            let bright_magenta = build_hex_field(&t.bright_magenta)?;
            let bright_cyan = build_hex_field(&t.bright_cyan)?;
            let bright_white = build_hex_field(&t.bright_white)?;
            let bright_purple = build_hex_field(&t.bright_purple)?;
            let background = build_hex_field(&t.background)?;
            let foreground = build_hex_field(&t.foreground)?;
            Ok(
                Theme {
                    black,
                    red,
                    green,
                    yellow,
                    blue,
                    magenta,
                    cyan,
                    white,
                    purple,
                    bright_black,
                    bright_red,
                    bright_green,
                    bright_yellow,
                    bright_blue,
                    bright_magenta,
                    bright_cyan,
                    bright_white,
                    bright_purple,
                    background,
                    foreground,
                },
            )
        },
    }
}

/// Loads one color pair section.
fn build_colors(rs: &RawSect<RawColors>) -> (r: Result<(ThemeColor, ThemeColor), ConfigError>)
    ensures
        r is Ok <==> colors_err(*rs) is None,
        r is Err ==> r->Err_0 == colors_err(*rs).unwrap(),
        r is Ok ==> colors_match(*rs, r.unwrap().0, r.unwrap().1) && is_theme_color_name(
            r.unwrap().0.0@,
        ) && is_theme_color_name(r.unwrap().1.0@),
{
    match rs {
        RawSect::Missing => Ok(
            (ThemeColor(String::from_str("white")), ThemeColor(String::from_str("black"))),
        ),
        RawSect::Wrong => Err(ConfigError::WrongType),
        RawSect::Table(c) => {
            let fg = build_ref_field(&c.fgcolor, "white")?;
            let bg = build_ref_field(&c.bgcolor, "black")?;
            Ok((fg, bg))
        },
    }
}

/// Loads the date/time section.
fn build_datetime(rs: &RawSect<RawDatetime>) -> (r: Result<RsbrDatetimeConfig, ConfigError>)
    ensures
        r is Ok <==> datetime_err(*rs) is None,
        r is Err ==> r->Err_0 == datetime_err(*rs).unwrap(),
        r is Ok ==> datetime_matches(*rs, r.unwrap()) && is_theme_color_name(
            r.unwrap().fgcolor.0@,
        ) && is_theme_color_name(r.unwrap().bgcolor.0@),
{
    match rs {
        RawSect::Missing => Ok(RsbrDatetimeConfig::default()),
        RawSect::Wrong => Err(ConfigError::WrongType),
        RawSect::Table(d) => {
            let format = build_str_field(&d.format, "%Y-%m-%d %H:%M:%S")?;
            let fgcolor = build_ref_field(&d.fgcolor, "white")?;
            let bgcolor = build_ref_field(&d.bgcolor, "black")?;
            Ok(RsbrDatetimeConfig { format, fgcolor, bgcolor })
        },
    }
}

/// Validates a raw document and fills in the defaults: the verified core of
/// configuration loading.  Succeeds exactly when no field is in error, and
/// then every field agrees with the document, defaults covering the absent
/// ones.
pub fn build_config(raw: &RawConfig) -> (r: Result<RsbrConfig, ConfigError>)
    ensures
        r is Ok <==> spec_build_error(*raw) is None,
        r is Err ==> r->Err_0 == spec_build_error(*raw).unwrap(),
        r is Ok ==> config_matches_raw(*raw, r.unwrap()) && config_wf(r.unwrap()),
{
    let format = build_str_field(&raw.format, "{brightness} {battery} {datetime}")?;
    let theme = build_theme(&raw.theme)?;
    let datetime = build_datetime(&raw.datetime)?;
    let (audio_fg, audio_bg) = build_colors(&raw.audio)?;
    let (battery_fg, battery_bg) = build_colors(&raw.battery)?;
    let (brightness_fg, brightness_bg) = build_colors(&raw.brightness)?;
    let (network_fg, network_bg) = build_colors(&raw.network)?;
    Ok(
        RsbrConfig {
            theme,
            format,
            datetime,
            audio: RsbrAudioConfig { fgcolor: audio_fg, bgcolor: audio_bg },
            battery: RsbrBatteryConfig { fgcolor: battery_fg, bgcolor: battery_bg },
            brightness: RsbrBrightnessConfig { fgcolor: brightness_fg, bgcolor: brightness_bg },
            network: RsbrNetworkConfig { fgcolor: network_fg, bgcolor: network_bg },
        },
    )
}

/// What parsing a configuration document and reading its known keys
/// yields: `None` for a document that is not well-formed TOML, otherwise the
/// raw state of every key the loader looks at.  The `toml` parser is
/// deterministic, so this is a function of the document text alone.  Each
/// trusted wrapper below reads one part of the document; their contracts all
/// project this one name, so the pieces are consistent by construction.
pub uninterp spec fn spec_raw_of(s: Seq<char>) -> Option<RawConfig>;

/// The state of one theme slot in the document: nothing when the document
/// does not parse, otherwise the slot picked by `sel` when the theme table
/// is there, and absent when it is not.
pub open spec fn spec_theme_slot_of(s: Seq<char>, sel: spec_fn(RawTheme) -> RawVal) -> Option<
    RawVal,
> {
    match spec_raw_of(s) {
        None => None,
        Some(raw) => Some(
            match raw.theme {
                RawSect::Table(t) => sel(t),
                _ => RawVal::Missing,
            },
        ),
    }
}

/// Relies on toml::from_str, toml::map::Map::get and toml::Value::as_str:
/// the state of the top-level format key.
#[verifier::external_body]
fn parse_format(s: &str) -> (r: Option<RawVal>)
    ensures
        r == (match spec_raw_of(s@) {
            None => None::<RawVal>,
            Some(raw) => Some(raw.format),
        }),
{
    let t: toml::Table = match toml::from_str(s) { Ok(t) => t, Err(_) => return None };
    Some(match t.get("format") {
        None => RawVal::Missing,
        Some(v) => match v.as_str() {
            Some(x) => RawVal::Text(x.to_string()),
            None => RawVal::Wrong,
        },
    })
}

/// Relies on toml::from_str, toml::map::Map::get and toml::Value::as_table:
/// whether the theme key is absent, a table, or something else.
#[verifier::external_body]
fn parse_theme_state(s: &str) -> (r: Option<RawSect<()>>)
    ensures
        r == (match spec_raw_of(s@) {
            None => None::<RawSect<()>>,
            Some(raw) => Some(
                match raw.theme {
                    RawSect::Missing => RawSect::Missing,
                    RawSect::Wrong => RawSect::Wrong,
                    RawSect::Table(_) => RawSect::Table(()),
                },
            ),
        }),
{
    let t: toml::Table = match toml::from_str(s) { Ok(t) => t, Err(_) => return None };
    Some(match t.get("theme") {
        None => RawSect::Missing,
        Some(v) => match v.as_table() {
            Some(_) => RawSect::Table(()),
            None => RawSect::Wrong,
        },
    })
}

/// Relies on toml::from_str, toml::map::Map::get, toml::Value::as_table and
/// toml::Value::as_str: the state of one slot key inside the theme table.
/// For a key other than the twenty slot names no clause applies.
#[verifier::external_body]
fn parse_theme_slot(s: &str, key: &str) -> (r: Option<RawVal>)
    ensures
        key@ == "black"@ ==> r == spec_theme_slot_of(s@, |t: RawTheme| t.black),
        key@ == "red"@ ==> r == spec_theme_slot_of(s@, |t: RawTheme| t.red),
        key@ == "green"@ ==> r == spec_theme_slot_of(s@, |t: RawTheme| t.green),
        key@ == "yellow"@ ==> r == spec_theme_slot_of(s@, |t: RawTheme| t.yellow),
        key@ == "blue"@ ==> r == spec_theme_slot_of(s@, |t: RawTheme| t.blue),
        key@ == "magenta"@ ==> r == spec_theme_slot_of(s@, |t: RawTheme| t.magenta),
        key@ == "cyan"@ ==> r == spec_theme_slot_of(s@, |t: RawTheme| t.cyan),
        key@ == "white"@ ==> r == spec_theme_slot_of(s@, |t: RawTheme| t.white),
        key@ == "purple"@ ==> r == spec_theme_slot_of(s@, |t: RawTheme| t.purple),
        key@ == "bright_black"@ ==> r == spec_theme_slot_of(s@, |t: RawTheme| t.bright_black),
        key@ == "bright_red"@ ==> r == spec_theme_slot_of(s@, |t: RawTheme| t.bright_red),
        key@ == "bright_green"@ ==> r == spec_theme_slot_of(s@, |t: RawTheme| t.bright_green),
        key@ == "bright_yellow"@ ==> r == spec_theme_slot_of(s@, |t: RawTheme| t.bright_yellow),
        key@ == "bright_blue"@ ==> r == spec_theme_slot_of(s@, |t: RawTheme| t.bright_blue),
        key@ == "bright_magenta"@ ==> r == spec_theme_slot_of(s@, |t: RawTheme| t.bright_magenta),
        key@ == "bright_cyan"@ ==> r == spec_theme_slot_of(s@, |t: RawTheme| t.bright_cyan),
        key@ == "bright_white"@ ==> r == spec_theme_slot_of(s@, |t: RawTheme| t.bright_white),
        key@ == "bright_purple"@ ==> r == spec_theme_slot_of(s@, |t: RawTheme| t.bright_purple),
        key@ == "background"@ ==> r == spec_theme_slot_of(s@, |t: RawTheme| t.background),
        key@ == "foreground"@ ==> r == spec_theme_slot_of(s@, |t: RawTheme| t.foreground),
{
    let t: toml::Table = match toml::from_str(s) { Ok(t) => t, Err(_) => return None };
    let sub = match t.get("theme").and_then(|v| v.as_table()) {
        None => return Some(RawVal::Missing),
        Some(x) => x,
    };
    Some(match sub.get(key) {
        None => RawVal::Missing,
        Some(v) => match v.as_str() {
            Some(x) => RawVal::Text(x.to_string()),
            None => RawVal::Wrong,
        },
    })
}

/// Relies on toml::from_str, toml::map::Map::get, toml::Value::as_table and
/// toml::Value::as_str: the state of the date/time section.
#[verifier::external_body]
fn parse_datetime(s: &str) -> (r: Option<RawSect<RawDatetime>>)
    ensures
        r == (match spec_raw_of(s@) {
            None => None::<RawSect<RawDatetime>>,
            Some(raw) => Some(raw.datetime),
        }),
{
    let t: toml::Table = match toml::from_str(s) { Ok(t) => t, Err(_) => return None };
    let leaf = |v: Option<&toml::Value>| v.map_or(RawVal::Missing, |v| v.as_str().map_or(RawVal::Wrong, |x| RawVal::Text(x.to_string())));
    let sub = match t.get("datetime") {
        None => return Some(RawSect::Missing),
        Some(v) => match v.as_table() { None => return Some(RawSect::Wrong), Some(x) => x },
    };
    Some(RawSect::Table(RawDatetime {
        format: leaf(sub.get("format")),
        fgcolor: leaf(sub.get("fgcolor")),
        bgcolor: leaf(sub.get("bgcolor")),
    }))
}

/// Relies on toml::from_str, toml::map::Map::get, toml::Value::as_table and
/// toml::Value::as_str: the state of the audio section.
#[verifier::external_body]
fn parse_audio(s: &str) -> (r: Option<RawSect<RawColors>>)
    ensures
        r == (match spec_raw_of(s@) {
            None => None::<RawSect<RawColors>>,
            Some(raw) => Some(raw.audio),
        }),
{
    let t: toml::Table = match toml::from_str(s) { Ok(t) => t, Err(_) => return None };
    let leaf = |v: Option<&toml::Value>| v.map_or(RawVal::Missing, |v| v.as_str().map_or(RawVal::Wrong, |x| RawVal::Text(x.to_string())));
    let sub = match t.get("audio") {
        None => return Some(RawSect::Missing),
        Some(v) => match v.as_table() { None => return Some(RawSect::Wrong), Some(x) => x },
    };
    Some(RawSect::Table(RawColors {
        fgcolor: leaf(sub.get("fgcolor")),
        bgcolor: leaf(sub.get("bgcolor")),
    }))
}

/// Relies on toml::from_str, toml::map::Map::get, toml::Value::as_table and
/// toml::Value::as_str: the state of the battery section.
#[verifier::external_body]
fn parse_battery(s: &str) -> (r: Option<RawSect<RawColors>>)
    ensures
        r == (match spec_raw_of(s@) {
            None => None::<RawSect<RawColors>>,
            Some(raw) => Some(raw.battery),
        }),
{
    let t: toml::Table = match toml::from_str(s) { Ok(t) => t, Err(_) => return None };
    let leaf = |v: Option<&toml::Value>| v.map_or(RawVal::Missing, |v| v.as_str().map_or(RawVal::Wrong, |x| RawVal::Text(x.to_string())));
    let sub = match t.get("battery") {
        None => return Some(RawSect::Missing),
        Some(v) => match v.as_table() { None => return Some(RawSect::Wrong), Some(x) => x },
    };
    Some(RawSect::Table(RawColors {
        fgcolor: leaf(sub.get("fgcolor")),
        bgcolor: leaf(sub.get("bgcolor")),
    }))
}

/// Relies on toml::from_str, toml::map::Map::get, toml::Value::as_table and
/// toml::Value::as_str: the state of the brightness section.
#[verifier::external_body]
fn parse_brightness(s: &str) -> (r: Option<RawSect<RawColors>>)
    ensures
        r == (match spec_raw_of(s@) {
            None => None::<RawSect<RawColors>>,
            Some(raw) => Some(raw.brightness),
        }),
{
    let t: toml::Table = match toml::from_str(s) { Ok(t) => t, Err(_) => return None };
    let leaf = |v: Option<&toml::Value>| v.map_or(RawVal::Missing, |v| v.as_str().map_or(RawVal::Wrong, |x| RawVal::Text(x.to_string())));
    let sub = match t.get("brightness") {
        None => return Some(RawSect::Missing),
        Some(v) => match v.as_table() { None => return Some(RawSect::Wrong), Some(x) => x },
    };
    Some(RawSect::Table(RawColors {
        fgcolor: leaf(sub.get("fgcolor")),
        bgcolor: leaf(sub.get("bgcolor")),
    }))
}

/// Relies on toml::from_str, toml::map::Map::get, toml::Value::as_table and
/// toml::Value::as_str: the state of the network section.
#[verifier::external_body]
fn parse_network(s: &str) -> (r: Option<RawSect<RawColors>>)
    ensures
        r == (match spec_raw_of(s@) {
            None => None::<RawSect<RawColors>>,
            Some(raw) => Some(raw.network),
        }),
{
    let t: toml::Table = match toml::from_str(s) { Ok(t) => t, Err(_) => return None };
    let leaf = |v: Option<&toml::Value>| v.map_or(RawVal::Missing, |v| v.as_str().map_or(RawVal::Wrong, |x| RawVal::Text(x.to_string())));
    let sub = match t.get("network") {
        None => return Some(RawSect::Missing),
        Some(v) => match v.as_table() { None => return Some(RawSect::Wrong), Some(x) => x },
    };
    Some(RawSect::Table(RawColors {
        fgcolor: leaf(sub.get("fgcolor")),
        bgcolor: leaf(sub.get("bgcolor")),
    }))
}

/// Reads the whole raw state of a document through the wrappers above and
/// reassembles it; verified against the one name they all project.
fn read_raw_config(s: &str) -> (r: Option<RawConfig>)
    ensures
        r == spec_raw_of(s@),
{
    let format = parse_format(s);
    if format.is_none() {
        return None;
    }
    let ghost raw = spec_raw_of(s@)->Some_0;
    let theme: RawSect<RawTheme> = match parse_theme_state(s).unwrap() {
        RawSect::Missing => RawSect::Missing,
        RawSect::Wrong => RawSect::Wrong,
        RawSect::Table(_) => {
            let t = RawTheme {
                black: parse_theme_slot(s, "black").unwrap(),
                red: parse_theme_slot(s, "red").unwrap(),
                green: parse_theme_slot(s, "green").unwrap(),
                yellow: parse_theme_slot(s, "yellow").unwrap(),
                blue: parse_theme_slot(s, "blue").unwrap(),
                magenta: parse_theme_slot(s, "magenta").unwrap(),
                cyan: parse_theme_slot(s, "cyan").unwrap(),
                white: parse_theme_slot(s, "white").unwrap(),
                purple: parse_theme_slot(s, "purple").unwrap(),
                bright_black: parse_theme_slot(s, "bright_black").unwrap(),
                bright_red: parse_theme_slot(s, "bright_red").unwrap(),
                bright_green: parse_theme_slot(s, "bright_green").unwrap(),
                bright_yellow: parse_theme_slot(s, "bright_yellow").unwrap(),
                bright_blue: parse_theme_slot(s, "bright_blue").unwrap(),
                bright_magenta: parse_theme_slot(s, "bright_magenta").unwrap(),
                bright_cyan: parse_theme_slot(s, "bright_cyan").unwrap(),
                bright_white: parse_theme_slot(s, "bright_white").unwrap(),
                bright_purple: parse_theme_slot(s, "bright_purple").unwrap(),
                background: parse_theme_slot(s, "background").unwrap(),
                foreground: parse_theme_slot(s, "foreground").unwrap(),
            };
            proof {
                assert(raw.theme->Table_0 == t);
            }
            RawSect::Table(t)
        },
    };
    let out = RawConfig {
        format: format.unwrap(),
        theme,
        datetime: parse_datetime(s).unwrap(),
        audio: parse_audio(s).unwrap(),
        battery: parse_battery(s).unwrap(),
        brightness: parse_brightness(s).unwrap(),
        network: parse_network(s).unwrap(),
    };
    proof {
        assert(out == raw);
    }
    Some(out)
}

impl RsbrConfig {
    /// Loads a configuration from TOML text.  It succeeds exactly when the
    /// document parses and every extracted field validates, and then every
    /// field agrees with the document, defaults covering the absent ones;
    /// any value it returns is well-formed.  A document that does not parse
    /// is the parse error, and any other failure is the first field error.
    pub fn from_str(s: &str) -> (r: Result<RsbrConfig, ConfigError>)
        ensures
            r is Ok <==> (spec_raw_of(s@) matches Some(raw) && spec_build_error(raw) is None),
            r is Ok ==> config_matches_raw(spec_raw_of(s@)->Some_0, r.unwrap()) && config_wf(
                r.unwrap(),
            ),
            r is Err ==> r->Err_0 == (if spec_raw_of(s@) is None {
                ConfigError::Parse
            } else {
                spec_build_error(spec_raw_of(s@)->Some_0).unwrap()
            }),
    {
        let parsed = read_raw_config(s);
        if parsed.is_none() {
            return Err(ConfigError::Parse);
        }
        let raw = parsed.unwrap();
        build_config(&raw)
    }
}

/// The character for one hexadecimal digit, upper case.
pub open spec fn hex16_char(d: int) -> char {
    if d < 10 {
        crate::text::spec_digit_char(d)
    } else if d == 10 {
        'A'
    } else if d == 11 {
        'B'
    } else if d == 12 {
        'C'
    } else if d == 13 {
        'D'
    } else if d == 14 {
        'E'
    } else {
        'F'
    }
}

/// How one character is written inside a TOML basic string.
pub open spec fn esc_char(c: char) -> Seq<char> {
    if c == '"' {
        "\\\""@
    } else if c == '\\' {
        "\\\\"@
    } else if c == '\n' {
        "\\n"@
    } else if c == '\r' {
        "\\r"@
    } else if c == '\t' {
        "\\t"@
    } else if (c as int) < 32 || c as int == 127 {
        "\\u00"@ + seq![hex16_char(c as int / 16), hex16_char(c as int % 16)]
    } else {
        seq![c]
    }
}

/// A string written as a TOML basic string body, character by character.
pub open spec fn spec_esc(s: Seq<char>) -> Seq<char>
    decreases s.len(),
{
    if s.len() == 0 {
        Seq::empty()
    } else {
        spec_esc(s.drop_last()) + esc_char(s.last())
    }
}

/// The one-character string for a hexadecimal digit.
fn hex16_str(d: u32) -> (r: &'static str)
    requires
        d < 16,
    ensures
        r@ == seq![hex16_char(d as int)],
{
    proof {
        reveal_strlit("A");
        reveal_strlit("B");
        reveal_strlit("C");
        reveal_strlit("D");
        reveal_strlit("E");
        reveal_strlit("F");
    }
    if d < 10 {
        crate::text::digit_str(d)
    } else {
        match d {
            10 => "A",
            11 => "B",
            12 => "C",
            13 => "D",
            14 => "E",
            _ => "F",
        }
    }
}

/// Escapes a string for a TOML basic string body.
#[verifier::loop_isolation(false)]
fn esc_str(s: &str) -> (r: String)
    ensures
        r@ == spec_esc(s@),
{
    let len = s.unicode_len();
    let mut out = String::new();
    let mut i: usize = 0;
    while i < len
        invariant
            i <= len,
            out@ == spec_esc(s@.take(i as int)),
        decreases len - i,
    {
        let ghost pre = out@;
        let c = s.get_char(i);
        let u = c as u32;
        if c == '"' {
            out.append("\\\"");
        } else if c == '\\' {
            out.append("\\\\");
        } else if c == '\n' {
            out.append("\\n");
        } else if c == '\r' {
            out.append("\\r");
        } else if c == '\t' {
            out.append("\\t");
        } else if u < 32 || u == 127 {
            out.append("\\u00");
            out.append(hex16_str(u / 16));
            out.append(hex16_str(u % 16));
            proof {
                assert(seq![hex16_char(u as int / 16)] + seq![hex16_char(u as int % 16)]
                    =~= seq![hex16_char(u as int / 16), hex16_char(u as int % 16)]);
                assert(out@ =~= pre + esc_char(c));
            }
        } else {
            let piece = s.substring_char(i, i + 1);
            out.append(piece);
            proof {
                assert(piece@ =~= seq![c]);
            }
        }
        proof {
            assert(s@.take(i + 1int).drop_last() =~= s@.take(i as int));
            assert(s@.take(i + 1int).last() == s@[i as int]);
        }
        i += 1;
    }
    proof {
        assert(s@.take(len as int) =~= s@);
    }
    out
}

/// One `key = "value"` line of a TOML document.
pub open spec fn kv(key: Seq<char>, val: Seq<char>) -> Seq<char> {
    key + " = \""@ + spec_esc(val) + "\"\n"@
}

/// Appends one `key = "value"` line.
fn push_kv(out: &mut String, key: &str, val: &str)
    ensures
        final(out)@ == old(out)@ + kv(key@, val@),
{
    out.append(key);
    out.append(" = \"");
    let e = esc_str(val);
    out.append(e.as_str());
    out.append("\"\n");
}

/// The TOML document for a configuration: the format line, then one table
/// per section, every key written out.
pub open spec fn spec_toml_of(c: RsbrConfig) -> Seq<char> {
    kv("format"@, c.format@) + "\n[theme]\n"@ + kv("black"@, c.theme.black.0@) + kv(
        "red"@,
        c.theme.red.0@,
    ) + kv("green"@, c.theme.green.0@) + kv("yellow"@, c.theme.yellow.0@) + kv(
        "blue"@,
        c.theme.blue.0@,
    ) + kv("magenta"@, c.theme.magenta.0@) + kv("cyan"@, c.theme.cyan.0@) + kv(
        "white"@,
        c.theme.white.0@,
    ) + kv("purple"@, c.theme.purple.0@) + kv("bright_black"@, c.theme.bright_black.0@) + kv(
        "bright_red"@,
        c.theme.bright_red.0@,
    ) + kv("bright_green"@, c.theme.bright_green.0@) + kv(
        "bright_yellow"@,
        c.theme.bright_yellow.0@,
    ) + kv("bright_blue"@, c.theme.bright_blue.0@) + kv(
        "bright_magenta"@,
        c.theme.bright_magenta.0@,
    ) + kv("bright_cyan"@, c.theme.bright_cyan.0@) + kv("bright_white"@, c.theme.bright_white.0@)
        + kv("bright_purple"@, c.theme.bright_purple.0@) + kv("background"@, c.theme.background.0@)
        + kv("foreground"@, c.theme.foreground.0@) + "\n[datetime]\n"@ + kv(
        "format"@,
        c.datetime.format@,
    ) + kv("fgcolor"@, c.datetime.fgcolor.0@) + kv("bgcolor"@, c.datetime.bgcolor.0@)
        + "\n[audio]\n"@ + kv("fgcolor"@, c.audio.fgcolor.0@) + kv("bgcolor"@, c.audio.bgcolor.0@)
        + "\n[battery]\n"@ + kv("fgcolor"@, c.battery.fgcolor.0@) + kv(
        "bgcolor"@,
        c.battery.bgcolor.0@,
    ) + "\n[brightness]\n"@ + kv("fgcolor"@, c.brightness.fgcolor.0@) + kv(
        "bgcolor"@,
        c.brightness.bgcolor.0@,
    ) + "\n[network]\n"@ + kv("fgcolor"@, c.network.fgcolor.0@) + kv(
        "bgcolor"@,
        c.network.bgcolor.0@,
    )
}

impl RsbrConfig {
    /// Writes the configuration out as a TOML document, every key written
    /// explicitly as a basic string.
    pub fn to_toml_string(&self) -> (r: String)
        ensures
            r@ == spec_toml_of(*self),
    {
        let mut out = String::new();
        push_kv(&mut out, "format", self.format.as_str());
        out.append("\n[theme]\n");
        push_kv(&mut out, "black", self.theme.black.0.as_str());
        push_kv(&mut out, "red", self.theme.red.0.as_str());
        push_kv(&mut out, "green", self.theme.green.0.as_str());
        push_kv(&mut out, "yellow", self.theme.yellow.0.as_str());
        push_kv(&mut out, "blue", self.theme.blue.0.as_str());
        push_kv(&mut out, "magenta", self.theme.magenta.0.as_str());
        push_kv(&mut out, "cyan", self.theme.cyan.0.as_str());
        push_kv(&mut out, "white", self.theme.white.0.as_str());
        push_kv(&mut out, "purple", self.theme.purple.0.as_str());
        push_kv(&mut out, "bright_black", self.theme.bright_black.0.as_str());
        push_kv(&mut out, "bright_red", self.theme.bright_red.0.as_str());
        push_kv(&mut out, "bright_green", self.theme.bright_green.0.as_str());
        push_kv(&mut out, "bright_yellow", self.theme.bright_yellow.0.as_str());
        push_kv(&mut out, "bright_blue", self.theme.bright_blue.0.as_str());
        push_kv(&mut out, "bright_magenta", self.theme.bright_magenta.0.as_str());
        push_kv(&mut out, "bright_cyan", self.theme.bright_cyan.0.as_str());
        push_kv(&mut out, "bright_white", self.theme.bright_white.0.as_str());
        push_kv(&mut out, "bright_purple", self.theme.bright_purple.0.as_str());
        push_kv(&mut out, "background", self.theme.background.0.as_str());
        push_kv(&mut out, "foreground", self.theme.foreground.0.as_str());
        out.append("\n[datetime]\n");
        push_kv(&mut out, "format", self.datetime.format.as_str());
        push_kv(&mut out, "fgcolor", self.datetime.fgcolor.0.as_str());
        push_kv(&mut out, "bgcolor", self.datetime.bgcolor.0.as_str());
        out.append("\n[audio]\n");
        push_kv(&mut out, "fgcolor", self.audio.fgcolor.0.as_str());
        push_kv(&mut out, "bgcolor", self.audio.bgcolor.0.as_str());
        out.append("\n[battery]\n");
        push_kv(&mut out, "fgcolor", self.battery.fgcolor.0.as_str());
        push_kv(&mut out, "bgcolor", self.battery.bgcolor.0.as_str());
        out.append("\n[brightness]\n");
        push_kv(&mut out, "fgcolor", self.brightness.fgcolor.0.as_str());
        push_kv(&mut out, "bgcolor", self.brightness.bgcolor.0.as_str());
        out.append("\n[network]\n");
        push_kv(&mut out, "fgcolor", self.network.fgcolor.0.as_str());
        push_kv(&mut out, "bgcolor", self.network.bgcolor.0.as_str());
        proof {
            assert(out@ =~= spec_toml_of(*self));
        }
        out
    }
}

/// The graceful-degradation policy of configuration loading: a loaded
/// configuration is used as it is, and any load error falls back to the full
/// built-in default.
pub fn config_or_default(r: Result<RsbrConfig, ConfigError>) -> (c: RsbrConfig)
    ensures
        r is Ok ==> c == r.unwrap(),
        r is Err ==> is_default_config(c),
{
    match r {
        Ok(c) => c,
        Err(_) => RsbrConfig::default(),
    }
}

} // verus!
