//! Date/time provider: renders the current local time with the configured
//! strftime-style pattern.  Sampling the clock never fails.

use std::fmt::Write;
use vstd::prelude::*;
use crate::config::RsbrConfig;
use crate::property::{ShowBar, spec_wrap, wrap_fragment};
use crate::text::{spec_replace, replace_str};

verus! {

/// Relies on chrono's `Local::now` and `DateTime::format`: renders the
/// current local time with a strftime-style pattern.  The result depends on
/// the clock, so nothing is promised of it; a pattern chrono rejects yields
/// `None` instead of a value.
#[verifier::external_body]
fn format_local_now(fmt: &str) -> (r: Option<String>) {
    let mut out = String::new();
    match write!(out, "{}", chrono::Local::now().format(fmt)) {
        Ok(()) => Some(out),
        Err(_) => None,
    }
}

/// The date/time provider, holding the tick's formatted time text.
pub struct DatetimeProperty {
    pub text: String,
}

impl DatetimeProperty {
    /// Samples the clock and formats it with `fmt`.  The text depends on the
    /// time of the call; a pattern the formatter rejects yields empty text.
    pub fn now(fmt: &str) -> DatetimeProperty {
        match format_local_now(fmt) {
            Some(s) => DatetimeProperty { text: s },
            None => DatetimeProperty { text: String::new() },
        }
    }
}

/// The full wrapped date/time fragment, trailing space included.
pub open spec fn spec_datetime_fragment(config: RsbrConfig, text: Seq<char>) -> Seq<char> {
    spec_wrap(config.theme, config.datetime.fgcolor.0@, config.datetime.bgcolor.0@, text, " "@)
}

impl ShowBar for DatetimeProperty {
    open spec fn spec_show_bar(&self, config: &RsbrConfig, template: Seq<char>) -> Seq<char> {
        spec_replace(template, "{datetime}"@, spec_datetime_fragment(*config, self.text@))
    }

    fn show_bar(&self, config: &RsbrConfig, template: &str) -> (r: String) {
        let frag = wrap_fragment(
            &config.theme,
            &config.datetime.fgcolor,
            &config.datetime.bgcolor,
            self.text.as_str(),
            " ",
        );
        proof {
            reveal_strlit("{datetime}");
        }
        replace_str(template, "{datetime}", frag.as_str())
    }
}

} // verus!
