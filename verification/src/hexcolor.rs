//! Color model: validated `#RRGGBB` color values, symbolic theme color
//! names, and the theme's fixed set of named color slots.

use vstd::prelude::*;
use crate::text::str_eq;

verus! {

/// Why a color string was rejected.
#[derive(Debug, Clone, Copy, PartialEq, Eq, Structural)]
pub enum ColorError {
    /// Not `#` followed by six hexadecimal digits.
    InvalidColor,
    /// Not one of the symbolic theme color names.
    InvalidThemeColorName,
}

/// A hexadecimal digit, either case.
pub open spec fn is_hex_digit(c: char) -> bool {
    ('0' as int <= c as int && c as int <= '9' as int) || ('a' as int <= c as int && c as int
        <= 'f' as int) || ('A' as int <= c as int && c as int <= 'F' as int)
}

/// Exactly `#` followed by six hexadecimal digits.
pub open spec fn is_hex_color(s: Seq<char>) -> bool {
    s.len() == 7 && s[0] == '#' && (forall|i: int| 1 <= i < 7 ==> is_hex_digit(#[trigger] s[i]))
}

/// A color value, kept only when it passed validation.
#[derive(Debug, Clone)]
pub struct HexColor(pub String);

impl HexColor {
    /// Accepts exactly `#` followed by six hexadecimal digits.
    pub fn from_str(s: &str) -> (r: Result<HexColor, ColorError>)
        ensures
            r is Ok <==> is_hex_color(s@),
            r is Ok ==> r.unwrap().0@ == s@,
            r is Err ==> r->Err_0 == ColorError::InvalidColor,
    {
        let len = s.unicode_len();
        if len != 7 {
            return Err(ColorError::InvalidColor);
        }
        if s.get_char(0) != '#' {
            return Err(ColorError::InvalidColor);
        }
        let mut i: usize = 1;
        while i < 7
            invariant
                1 <= i <= 7,
                s@.len() == 7,
                s@[0] == '#',
                forall|k: int| 1 <= k < i ==> is_hex_digit(#[trigger] s@[k]),
            decreases 7 - i,
        {
            let c = s.get_char(i) as u32;
            let digit = (48 <= c && c <= 57) || (97 <= c && c <= 102) || (65 <= c && c <= 70);
            if !digit {
                return Err(ColorError::InvalidColor);
            }
            i += 1;
        }
        Ok(HexColor(String::from_str(s)))
    }
}

/// One of the symbolic color names accepted in a configuration file.
pub open spec fn is_theme_color_name(s: Seq<char>) -> bool {
    ||| s == "black"@
    ||| s == "green"@
    ||| s == "white"@
    ||| s == "grey"@
    ||| s == "blue"@
    ||| s == "red"@
    ||| s == "orange"@
    ||| s == "yellow"@
    ||| s == "pink"@
    ||| s == "darkblue"@
}

/// A symbolic reference to a theme color slot, as written in a
/// configuration file.
#[derive(Debug, Clone)]
pub struct ThemeColor(pub String);

impl ThemeColor {
    /// Accepts exactly the fixed set of symbolic color names, case
    /// sensitively.
    pub fn from_str(s: &str) -> (r: Result<ThemeColor, ColorError>)
        ensures
            r is Ok <==> is_theme_color_name(s@),
            r is Ok ==> r.unwrap().0@ == s@,
            r is Err ==> r->Err_0 == ColorError::InvalidThemeColorName,
    {
        let ok = str_eq(s, "black") || str_eq(s, "green") || str_eq(s, "white") || str_eq(s, "grey")
            || str_eq(s, "blue") || str_eq(s, "red") || str_eq(s, "orange") || str_eq(s, "yellow")
            || str_eq(s, "pink") || str_eq(s, "darkblue");
        if ok {
            Ok(ThemeColor(String::from_str(s)))
        } else {
            Err(ColorError::InvalidThemeColorName)
        }
    }
}

/// `a` is `b` up to ASCII case: the characters agree positionwise, except
/// that an ASCII capital in `a` may stand for its small form in `b`.
pub open spec fn lowers_to(a: char, b: char) -> bool {
    a == b || (65 <= a as int && a as int <= 90 && a as int + 32 == b as int)
}

/// `name` equals the (lower-case) `slot` up to ASCII case.
pub open spec fn name_matches(name: Seq<char>, slot: Seq<char>) -> bool {
    name.len() == slot.len() && (forall|i: int|
        0 <= i < name.len() ==> lowers_to(#[trigger] name[i], slot[i]))
}

/// Whether `s` names `slot` up to ASCII case.
fn eq_ignore_case(s: &str, slot: &str) -> (r: bool)
    ensures
        r == name_matches(s@, slot@),
{
    let s_len = s.unicode_len();
    let t_len = slot.unicode_len();
    if s_len != t_len {
        return false;
    }
    let mut i: usize = 0;
    while i < s_len
        invariant
            i <= s_len,
            s_len == s@.len(),
            s_len == slot@.len(),
            forall|k: int| 0 <= k < i ==> lowers_to(#[trigger] s@[k], slot@[k]),
        decreases s_len - i,
    {
        let a = s.get_char(i) as u32;
        let b = slot.get_char(i) as u32;
        if !(a == b || (65 <= a && a <= 90 && a + 32 == b)) {
            return false;
        }
        i += 1;
    }
    true
}

/// The fixed set of named color slots; every slot always holds a value.
#[derive(Debug, Clone)]
pub struct Theme {
    pub black: HexColor,
    pub red: HexColor,
    pub green: HexColor,
    pub yellow: HexColor,
    pub blue: HexColor,
    pub magenta: HexColor,
    pub cyan: HexColor,
    pub white: HexColor,
    pub purple: HexColor,
    pub bright_black: HexColor,
    pub bright_red: HexColor,
    pub bright_green: HexColor,
    pub bright_yellow: HexColor,
    pub bright_blue: HexColor,
    pub bright_magenta: HexColor,
    pub bright_cyan: HexColor,
    pub bright_white: HexColor,
    pub bright_purple: HexColor,
    pub background: HexColor,
    pub foreground: HexColor,
}

/// The color value that `t` resolves `name` to: slot lookup is
/// case-insensitive, and an unrecognized name deliberately falls back to the
/// black slot rather than failing.
pub open spec fn spec_get_color(t: Theme, name: Seq<char>) -> Seq<char> {
    if name_matches(name, "black"@) {
        t.black.0@
    } else if name_matches(name, "red"@) {
        t.red.0@
    } else if name_matches(name, "green"@) {
        t.green.0@
    } else if name_matches(name, "yellow"@) {
        t.yellow.0@
    } else if name_matches(name, "blue"@) {
        t.blue.0@
    } else if name_matches(name, "magenta"@) {
        t.magenta.0@
    } else if name_matches(name, "cyan"@) {
        t.cyan.0@
    } else if name_matches(name, "white"@) {
        t.white.0@
    } else if name_matches(name, "purple"@) {
        t.purple.0@
    } else if name_matches(name, "bright_black"@) {
        t.bright_black.0@
    } else if name_matches(name, "bright_red"@) {
        t.bright_red.0@
    } else if name_matches(name, "bright_green"@) {
        t.bright_green.0@
    } else if name_matches(name, "bright_yellow"@) {
        t.bright_yellow.0@
    } else if name_matches(name, "bright_blue"@) {
        t.bright_blue.0@
    } else if name_matches(name, "bright_magenta"@) {
        t.bright_magenta.0@
    } else if name_matches(name, "bright_cyan"@) {
        t.bright_cyan.0@
    } else if name_matches(name, "bright_white"@) {
        t.bright_white.0@
    } else if name_matches(name, "bright_purple"@) {
        t.bright_purple.0@
    } else if name_matches(name, "background"@) {
        t.background.0@
    } else if name_matches(name, "foreground"@) {
        t.foreground.0@
    } else {
        t.black.0@
    }
}

impl Theme {
    /// Resolves a symbolic color reference to a concrete color value; total,
    /// with the fallback to the black slot for unrecognized names.
    pub fn get_color(&self, col: &ThemeColor) -> (r: &HexColor)
        ensures
            r.0@ == spec_get_color(*self, col.0@),
    {
        let name = col.0.as_str();
        if eq_ignore_case(name, "black") {
            &self.black
        } else if eq_ignore_case(name, "red") {
            &self.red
        } else if eq_ignore_case(name, "green") {
            &self.green
        } else if eq_ignore_case(name, "yellow") {
            &self.yellow
        } else if eq_ignore_case(name, "blue") {
            &self.blue
        } else if eq_ignore_case(name, "magenta") {
            &self.magenta
        } else if eq_ignore_case(name, "cyan") {
            &self.cyan
        } else if eq_ignore_case(name, "white") {
            &self.white
        } else if eq_ignore_case(name, "purple") {
            &self.purple
        } else if eq_ignore_case(name, "bright_black") {
            &self.bright_black
        } else if eq_ignore_case(name, "bright_red") {
            &self.bright_red
        } else if eq_ignore_case(name, "bright_green") {
            &self.bright_green
        } else if eq_ignore_case(name, "bright_yellow") {
            &self.bright_yellow
        } else if eq_ignore_case(name, "bright_blue") {
            &self.bright_blue
        } else if eq_ignore_case(name, "bright_magenta") {
            &self.bright_magenta
        } else if eq_ignore_case(name, "bright_cyan") {
            &self.bright_cyan
        } else if eq_ignore_case(name, "bright_white") {
            &self.bright_white
        } else if eq_ignore_case(name, "bright_purple") {
            &self.bright_purple
        } else if eq_ignore_case(name, "background") {
            &self.background
        } else if eq_ignore_case(name, "foreground") {
            &self.foreground
        } else {
            &self.black
        }
    }
}

/// The built-in palette.
pub open spec fn is_default_theme(t: Theme) -> bool {
    &&& t.black.0@ == "#000000"@
    &&& t.red.0@ == "#FF0000"@
    &&& t.green.0@ == "#33CC33"@
    &&& t.yellow.0@ == "#FFFF00"@
    &&& t.blue.0@ == "#3333FF"@
    &&& t.magenta.0@ == "#CC33CC"@
    &&& t.cyan.0@ == "#00CCCC"@
    &&& t.white.0@ == "#CCCCCC"@
    &&& t.purple.0@ == "#800080"@
    &&& t.bright_black.0@ == "#666666"@
    &&& t.bright_red.0@ == "#FF6666"@
    &&& t.bright_green.0@ == "#66FF66"@
    &&& t.bright_yellow.0@ == "#FFFF66"@
    &&& t.bright_blue.0@ == "#6666FF"@
    &&& t.bright_magenta.0@ == "#FF66FF"@
    &&& t.bright_cyan.0@ == "#66FFFF"@
    &&& t.bright_white.0@ == "#FFFFFF"@
    &&& t.bright_purple.0@ == "#BF40BF"@
    &&& t.background.0@ == "#000000"@
    &&& t.foreground.0@ == "#FFFFFF"@
}

impl Default for Theme {
    /// The built-in palette, independent of any terminal or OS theme.
    fn default() -> (r: Theme)
        ensures
            is_default_theme(r),
    {
        Theme {
            black: HexColor(String::from_str("#000000")),
            red: HexColor(String::from_str("#FF0000")),
            green: HexColor(String::from_str("#33CC33")),
            yellow: HexColor(String::from_str("#FFFF00")),
            blue: HexColor(String::from_str("#3333FF")),
            magenta: HexColor(String::from_str("#CC33CC")),
            cyan: HexColor(String::from_str("#00CCCC")),
            white: HexColor(String::from_str("#CCCCCC")),
            purple: HexColor(String::from_str("#800080")),
            bright_black: HexColor(String::from_str("#666666")),
            bright_red: HexColor(String::from_str("#FF6666")),
            bright_green: HexColor(String::from_str("#66FF66")),
            bright_yellow: HexColor(String::from_str("#FFFF66")),
            bright_blue: HexColor(String::from_str("#6666FF")),
            bright_magenta: HexColor(String::from_str("#FF66FF")),
            bright_cyan: HexColor(String::from_str("#66FFFF")),
            bright_white: HexColor(String::from_str("#FFFFFF")),
            bright_purple: HexColor(String::from_str("#BF40BF")),
            background: HexColor(String::from_str("#000000")),
            foreground: HexColor(String::from_str("#FFFFFF")),
        }
    }
}

} // verus!
