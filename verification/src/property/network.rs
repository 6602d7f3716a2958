//! Network provider: extracts the active SSID from the Wi-Fi listing tool's
//! line-oriented output, or renders a placeholder when none is active.

use vstd::prelude::*;
use crate::config::RsbrConfig;
use crate::icons;
use crate::icons::spec_wifi_icon;
use crate::property::{PropertyError, ShowBar, spec_wrap, wrap_fragment};
use crate::text::{spec_replace, replace_str};

verus! {

/// The first newline at or after `i`, or the end of the text.
pub open spec fn line_end(s: Seq<char>, i: int) -> int
    decreases s.len() - i,
{
    if i < 0 || i >= s.len() || s[i] == '\n' {
        i
    } else {
        line_end(s, i + 1)
    }
}

/// Position `i` starts a line: it is the start of the text or follows a
/// newline.
pub open spec fn is_line_start(s: Seq<char>, i: int) -> bool {
    i == 0 || s[i - 1] == '\n'
}

/// The start of the first line at or after `i` whose first four characters
/// are the active marker `yes:`.
pub open spec fn find_yes(s: Seq<char>, i: int) -> Option<int>
    decreases s.len() - i,
{
    if i < 0 || i >= s.len() {
        None
    } else if is_line_start(s, i) && i + 4 <= s.len() && s.subrange(i, i + 4) == "yes:"@ {
        Some(i)
    } else {
        find_yes(s, i + 1)
    }
}

/// The SSID on the first active line: everything after the `yes:` marker up
/// to the end of the line, a carriage return before the newline stripped as
/// `str::lines` strips it.  `None` when no line is active.
pub open spec fn spec_network(s: Seq<char>) -> Option<Seq<char>> {
    match find_yes(s, 0) {
        None => None,
        Some(i) => {
            let e = line_end(s, i);
            let e2 = if e < s.len() && e - 1 >= i + 4 && s[e - 1] == '\r' {
                e - 1
            } else {
                e
            };
            Some(s.subrange(i + 4, e2))
        },
    }
}

/// The network provider, holding the Wi-Fi listing tool's raw output;
/// `None` means the tool could not be run.
pub struct NetworkProperty {
    pub output: Option<String>,
}

impl NetworkProperty {
    /// The active SSID in the held output, exactly when there is an active
    /// line; every failure is `NoNetworkInfo`.
    #[verifier::loop_isolation(false)]
    pub fn get_network(&self) -> (r: Result<String, PropertyError>)
        ensures
            match self.output {
                None => r == Err::<String, PropertyError>(PropertyError::NoNetworkInfo),
                Some(out) => match spec_network(out@) {
                    None => r == Err::<String, PropertyError>(PropertyError::NoNetworkInfo),
                    Some(ss) => r is Ok && r.unwrap()@ == ss,
                },
            },
    {
        if self.output.is_none() {
            return Err(PropertyError::NoNetworkInfo);
        }
        let out = self.output.as_ref().unwrap().as_str();
        proof {
            reveal_strlit("yes:");
        }
        let len = out.unicode_len();
        let mut i: usize = 0;
        while i < len
            invariant
                i <= len,
                len == out@.len(),
                "yes:"@.len() == 4,
                find_yes(out@, 0) == find_yes(out@, i as int),
            decreases len - i,
        {
            let starts = i == 0 || out.get_char(i - 1) == '\n';
            if starts && 4 <= len - i && crate::text::match_at(out, "yes:", i, len, 4) {
                // The active line: find its end, strip a carriage return
                // before the newline, and hand back the SSID columns.
                let mut j: usize = i;
                while j < len && out.get_char(j) != '\n'
                    invariant
                        i <= j <= len,
                        len == out@.len(),
                        line_end(out@, i as int) == line_end(out@, j as int),
                    decreases len - j,
                {
                    j += 1;
                }
                proof {
                    assert(line_end(out@, j as int) == j);
                    assert(find_yes(out@, i as int) == Some(i as int));
                    assert(out@.subrange(i as int, i as int + 4) == "yes:"@);
                    if j < i + 4 {
                        assert(out@[j as int] == out@.subrange(i as int, i as int + 4)[j - i]);
                        assert(false);
                    }
                }
                let e2 = if j < len && j - i >= 5 && out.get_char(j - 1) == '\r' {
                    j - 1
                } else {
                    j
                };
                let ssid = out.substring_char(i + 4, e2);
                return Ok(String::from_str(ssid));
            }
            proof {
                assert(find_yes(out@, i as int) == find_yes(out@, i as int + 1));
            }
            i += 1;
        }
        Err(PropertyError::NoNetworkInfo)
    }
}

/// The bare network fragment: glyph and SSID when one is known (the glyph
/// alone for an empty SSID), or the placeholder.
pub open spec fn network_text(output: Option<String>) -> Seq<char> {
    match output {
        None => "No Wifi Found"@,
        Some(out) => match spec_network(out@) {
            None => "No Wifi Found"@,
            Some(ss) => if ss.len() > 0 {
                spec_wifi_icon(ss) + " "@ + ss
            } else {
                spec_wifi_icon(ss)
            },
        },
    }
}

/// The full wrapped network fragment.
pub open spec fn spec_network_fragment(config: RsbrConfig, output: Option<String>) -> Seq<char> {
    spec_wrap(
        config.theme,
        config.network.fgcolor.0@,
        config.network.bgcolor.0@,
        network_text(output),
        ""@,
    )
}

impl ShowBar for NetworkProperty {
    open spec fn spec_show_bar(&self, config: &RsbrConfig, template: Seq<char>) -> Seq<char> {
        spec_replace(template, "{network}"@, spec_network_fragment(*config, self.output))
    }

    fn show_bar(&self, config: &RsbrConfig, template: &str) -> (r: String) {
        let text: String = match self.get_network() {
            Ok(ssid) => {
                if ssid.as_str().unicode_len() != 0 {
                    let mut t = String::from_str(icons::get_wifi_icon(ssid.as_str()));
                    t.append(" ");
                    t.append(ssid.as_str());
                    t
                } else {
                    String::from_str(icons::get_wifi_icon(ssid.as_str()))
                }
            },
            Err(_) => String::from_str("No Wifi Found"),
        };
        let frag = wrap_fragment(
            &config.theme,
            &config.network.fgcolor,
            &config.network.bgcolor,
            text.as_str(),
            "",
        );
        proof {
            reveal_strlit("{network}");
        }
        replace_str(template, "{network}", frag.as_str())
    }
}

} // verus!
