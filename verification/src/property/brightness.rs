//! Brightness provider: renders the first brightness-capable device's value,
//! or a placeholder when no device was found.

use vstd::prelude::*;
use crate::config::RsbrConfig;
use crate::icons;
use crate::icons::spec_brightness_icon;
use crate::property::{PropertyError, ShowBar, spec_wrap, wrap_fragment};
use crate::text::{spec_dec, spec_replace, replace_str, u32_dec};

verus! {

/// The brightness provider, holding the tick's display percentage; `None`
/// means no device was found and the placeholder is rendered.
pub struct BrightnessProperty {
    pub percent: Option<u32>,
}

impl BrightnessProperty {
    /// Builds the provider from the raw device value, preserving the
    /// device API's off-by-one display convention: the raw value is
    /// incremented by one before display.
    pub fn from_raw(raw: Option<u32>) -> (r: BrightnessProperty)
        requires
            raw matches Some(x) ==> x < u32::MAX,
        ensures
            raw matches Some(x) ==> r.percent == Some((x + 1) as u32),
            raw is None ==> r.percent is None,
    {
        match raw {
            Some(x) => BrightnessProperty { percent: Some(x + 1) },
            None => BrightnessProperty { percent: None },
        }
    }

    /// The sampled display value, or the device-not-found error.
    pub fn get_brightness(&self) -> (r: Result<u32, PropertyError>)
        ensures
            self.percent matches Some(x) ==> r == Ok::<u32, PropertyError>(x),
            self.percent is None ==> r == Err::<u32, PropertyError>(
                PropertyError::NoBrightnessDevice,
            ),
    {
        match self.percent {
            Some(x) => Ok(x),
            None => Err(PropertyError::NoBrightnessDevice),
        }
    }
}

/// The bare brightness fragment: glyph and percentage, or the placeholder.
pub open spec fn brightness_text(percent: Option<u32>) -> Seq<char> {
    match percent {
        Some(x) => spec_brightness_icon(x as int) + " "@ + spec_dec(x as int),
        None => "No Brightness Device"@,
    }
}

/// The full wrapped brightness fragment, percent sign and trailing space
/// included.
pub open spec fn spec_brightness_fragment(config: RsbrConfig, percent: Option<u32>) -> Seq<char> {
    spec_wrap(
        config.theme,
        config.brightness.fgcolor.0@,
        config.brightness.bgcolor.0@,
        brightness_text(percent),
        "% "@,
    )
}

impl ShowBar for BrightnessProperty {
    open spec fn spec_show_bar(&self, config: &RsbrConfig, template: Seq<char>) -> Seq<char> {
        spec_replace(template, "{brightness}"@, spec_brightness_fragment(*config, self.percent))
    }

    fn show_bar(&self, config: &RsbrConfig, template: &str) -> (r: String) {
        let text: String = match self.percent {
            Some(x) => {
                let mut t = String::from_str(icons::get_brightness_icon(x));
                t.append(" ");
                let d = u32_dec(x);
                t.append(d.as_str());
                t
            },
            None => String::from_str("No Brightness Device"),
        };
        let frag = wrap_fragment(
            &config.theme,
            &config.brightness.fgcolor,
            &config.brightness.bgcolor,
            text.as_str(),
            "% ",
        );
        proof {
            reveal_strlit("{brightness}");
        }
        replace_str(template, "{brightness}", frag.as_str())
    }
}

} // verus!
