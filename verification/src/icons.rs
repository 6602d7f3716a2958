//! Icon selection: pure, total mappings from a sampled state to a glyph.
//! Out-of-domain inputs clamp to the nearest bucket; none of these fail.

use vstd::prelude::*;

verus! {

/// The battery ladder bucket: `floor(percent / 10)`, clamped to the top
/// bucket for a full (or over-reported) charge.
pub open spec fn battery_icon_index(percent: int) -> int {
    if percent >= 100 {
        9
    } else {
        percent / 10
    }
}

/// The glyph for a battery state: one ten-step ladder when discharging and
/// another when charging.
pub open spec fn spec_battery_icon(percent: int, is_charging: bool) -> Seq<char> {
    let i = battery_icon_index(percent);
    if is_charging {
        if i == 0 {
            "\u{f089c}"@
        } else if i == 1 {
            "\u{f0086}"@
        } else if i == 2 {
            "\u{f0087}"@
        } else if i == 3 {
            "\u{f0088}"@
        } else if i == 4 {
            "\u{f089d}"@
        } else if i == 5 {
            "\u{f0089}"@
        } else if i == 6 {
            "\u{f089e}"@
        } else if i == 7 {
            "\u{f008a}"@
        } else if i == 8 {
            "\u{f008b}"@
        } else {
            "\u{f0085}"@
        }
    } else {
        if i == 0 {
            "\u{f007a}"@
        } else if i == 1 {
            "\u{f007b}"@
        } else if i == 2 {
            "\u{f007c}"@
        } else if i == 3 {
            "\u{f007d}"@
        } else if i == 4 {
            "\u{f007e}"@
        } else if i == 5 {
            "\u{f007f}"@
        } else if i == 6 {
            "\u{f0080}"@
        } else if i == 7 {
            "\u{f0081}"@
        } else if i == 8 {
            "\u{f0082}"@
        } else {
            "\u{f0079}"@
        }
    }
}

/// For every percentage below 100 the battery bucket is `floor(percent/10)`;
/// at exactly 100 it is 9, not 10.
pub proof fn lemma_battery_icon_index(percent: int)
    requires
        0 <= percent <= 100,
    ensures
        percent < 100 ==> battery_icon_index(percent) == percent / 10,
        percent == 100 ==> battery_icon_index(percent) == 9,
{
}

/// Selects the battery glyph for a percentage and charging state.
pub fn get_battery_icon(battery_percent: u32, is_charging: bool) -> (r: &'static str)
    ensures
        r@ == spec_battery_icon(battery_percent as int, is_charging),
{
    let index: u32 = if battery_percent >= 100 {
        9
    } else {
        battery_percent / 10
    };
    if is_charging {
        match index {
            0 => "\u{f089c}",
            1 => "\u{f0086}",
            2 => "\u{f0087}",
            3 => "\u{f0088}",
            4 => "\u{f089d}",
            5 => "\u{f0089}",
            6 => "\u{f089e}",
            7 => "\u{f008a}",
            8 => "\u{f008b}",
            _ => "\u{f0085}",
        }
    } else {
        match index {
            0 => "\u{f007a}",
            1 => "\u{f007b}",
            2 => "\u{f007c}",
            3 => "\u{f007d}",
            4 => "\u{f007e}",
            5 => "\u{f007f}",
            6 => "\u{f0080}",
            7 => "\u{f0081}",
            8 => "\u{f0082}",
            _ => "\u{f0079}",
        }
    }
}

/// The brightness ladder bucket: low up to 33, medium up to 66, high above.
pub open spec fn brightness_icon_index(percent: int) -> int {
    if percent <= 33 {
        0
    } else if percent <= 66 {
        1
    } else {
        2
    }
}

/// The glyph for a brightness bucket.
pub open spec fn spec_brightness_icon(percent: int) -> Seq<char> {
    let i = brightness_icon_index(percent);
    if i == 0 {
        "\u{f00de}"@
    } else if i == 1 {
        "\u{f00df}"@
    } else {
        "\u{f00e0}"@
    }
}

/// A brightness percentage up to 33 selects the low glyph, 34 to 66 the
/// medium one, and 67 upward the high one.
pub proof fn lemma_brightness_icon_index(percent: int)
    requires
        percent >= 0,
    ensures
        percent <= 33 ==> brightness_icon_index(percent) == 0,
        34 <= percent <= 66 ==> brightness_icon_index(percent) == 1,
        percent >= 67 ==> brightness_icon_index(percent) == 2,
{
}

/// Selects the brightness glyph for a percentage.
pub fn get_brightness_icon(brightness_percent: u32) -> (r: &'static str)
    ensures
        r@ == spec_brightness_icon(brightness_percent as int),
{
    if brightness_percent <= 33 {
        "\u{f00de}"
    } else if brightness_percent <= 66 {
        "\u{f00df}"
    } else {
        "\u{f00e0}"
    }
}

/// The glyph for a volume state: the muted glyph overrides the ladder
/// whenever the muted flag is set.
pub open spec fn spec_volume_icon(percent: int, is_muted: bool) -> Seq<char> {
    if is_muted {
        "\u{f0e08}"@
    } else {
        let i = brightness_icon_index(percent);
        if i == 0 {
            "\u{f057f}"@
        } else if i == 1 {
            "\u{f0580}"@
        } else {
            "\u{f057e}"@
        }
    }
}

/// Selects the volume glyph for a percentage and mute state.
pub fn get_volume_icon(volume_percent: u32, is_muted: bool) -> (r: &'static str)
    ensures
        r@ == spec_volume_icon(volume_percent as int, is_muted),
{
    if is_muted {
        "\u{f0e08}"
    } else if volume_percent <= 33 {
        "\u{f057f}"
    } else if volume_percent <= 66 {
        "\u{f0580}"
    } else {
        "\u{f057e}"
    }
}

/// The glyph for a network state: one fixed glyph when an SSID is known,
/// another when it is empty.
pub open spec fn spec_wifi_icon(ssid: Seq<char>) -> Seq<char> {
    if ssid.len() == 0 {
        "\u{f05aa}"@
    } else {
        "\u{f05a9}"@
    }
}

/// Selects the Wi-Fi glyph by whether the sampled SSID is non-empty.
pub fn get_wifi_icon(ssid: &str) -> (r: &'static str)
    ensures
        r@ == spec_wifi_icon(ssid@),
{
    if ssid.unicode_len() == 0 {
        "\u{f05aa}"
    } else {
        "\u{f05a9}"
    }
}

} // verus!
