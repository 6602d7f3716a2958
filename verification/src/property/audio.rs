//! Audio provider: parses the mixer query tool's output for the mute marker
//! and the first percentage token, or renders a placeholder.

use vstd::prelude::*;
use crate::config::RsbrConfig;
use crate::icons;
use crate::icons::spec_volume_icon;
use crate::property::{PropertyError, ShowBar, spec_wrap, wrap_fragment};
use crate::text::{spec_contains, spec_dec, spec_replace, contains_str, replace_str, u32_dec};

verus! {

/// An ASCII decimal digit.
pub open spec fn is_digit(c: char) -> bool {
    '0' as int <= c as int && c as int <= '9' as int
}

/// The end of the run of digits starting at `i`: the first position at or
/// after `i` holding no digit.
pub open spec fn run_end(s: Seq<char>, i: int) -> int
    decreases s.len() - i,
{
    if i < 0 || i >= s.len() || !is_digit(s[i]) {
        i
    } else {
        run_end(s, i + 1)
    }
}

/// The start of the first digit run, at or after `i`, that is immediately
/// followed by a percent sign.
pub open spec fn find_vol(s: Seq<char>, i: int) -> Option<int>
    decreases s.len() - i,
{
    if i < 0 || i >= s.len() {
        None
    } else if is_digit(s[i]) && run_end(s, i) < s.len() && s[run_end(s, i)] == '%' {
        Some(i)
    } else {
        find_vol(s, i + 1)
    }
}

/// The numeric value of a digit sequence, most significant first.
pub open spec fn digits_val(ds: Seq<char>) -> int
    decreases ds.len(),
{
    if ds.len() == 0 {
        0
    } else {
        digits_val(ds.drop_last()) * 10 + (ds.last() as int - 48)
    }
}

/// The volume percentage in the mixer output: the value of the first digit
/// run followed by `%`, or `None` when there is no such run.
pub open spec fn spec_volume(s: Seq<char>) -> Option<int> {
    match find_vol(s, 0) {
        None => None,
        Some(i) => Some(digits_val(s.subrange(i, run_end(s, i)))),
    }
}

/// The audio provider, holding the mixer query tool's raw output for the
/// volume and mute queries; `None` means the tool could not be run.
pub struct AudioProperty {
    pub volume_output: Option<String>,
    pub muted_output: Option<String>,
}

/// The volume reading that succeeds on this provider state, if any: the
/// output is there, holds a percentage token, and its value fits.
pub open spec fn spec_volume_of(p: AudioProperty) -> Option<int> {
    match p.volume_output {
        None => None,
        Some(out) => match spec_volume(out@) {
            None => None,
            Some(v) => if v <= u32::MAX {
                Some(v)
            } else {
                None
            },
        },
    }
}

/// Which error the volume reading fails with when it fails.
pub open spec fn spec_volume_err(p: AudioProperty) -> PropertyError {
    if p.volume_output is None {
        PropertyError::NoAudioDevice
    } else {
        PropertyError::VolumeNotFound
    }
}

/// Whether the held mute-query output reports the control as muted.
pub open spec fn spec_muted_of(p: AudioProperty) -> bool {
    spec_contains(p.muted_output.unwrap()@, "[off]"@)
}

/// Whether the character at `j` is an ASCII digit.
fn digit_at(s: &str, j: usize) -> (r: bool)
    requires
        j < s@.len(),
    ensures
        r == is_digit(s@[j as int]),
{
    let d = s.get_char(j) as u32;
    48 <= d && d <= 57
}

impl AudioProperty {
    /// Whether the mixer output holds the muted marker `[off]`.
    pub fn get_muted(&self) -> (r: Result<bool, PropertyError>)
        ensures
            r is Ok <==> self.muted_output is Some,
            r is Ok ==> r.unwrap() == spec_muted_of(*self),
            r is Err ==> r->Err_0 == PropertyError::NoAudioDevice,
    {
        match &self.muted_output {
            None => Err(PropertyError::NoAudioDevice),
            Some(out) => Ok(contains_str(out.as_str(), "[off]")),
        }
    }

    /// The volume: the value of the first digit run followed by `%` in the
    /// mixer output, exactly when there is one and it fits in the type.
    #[verifier::loop_isolation(false)]
    pub fn get_volume(&self) -> (r: Result<u32, PropertyError>)
        ensures
            r is Ok <==> spec_volume_of(*self) is Some,
            r is Ok ==> r.unwrap() as int == spec_volume_of(*self).unwrap(),
            r is Err ==> r->Err_0 == spec_volume_err(*self),
    {
        if self.volume_output.is_none() {
            return Err(PropertyError::NoAudioDevice);
        }
        let out = self.volume_output.as_ref().unwrap().as_str();
        let len = out.unicode_len();
        let mut i: usize = 0;
        while i < len
            invariant
                i <= len,
                len == out@.len(),
                find_vol(out@, 0) == find_vol(out@, i as int),
            decreases len - i,
        {
            let c = out.get_char(i) as u32;
            if 48 <= c && c <= 57 {
                // Scan the digit run to its end.
                let mut j: usize = i;
                while j < len && digit_at(out, j)
                    invariant
                        i <= j <= len,
                        len == out@.len(),
                        run_end(out@, i as int) == run_end(out@, j as int),
                        forall|k: int| i <= k < j ==> is_digit(#[trigger] out@[k]),
                    decreases len - j,
                {
                    j += 1;
                }
                proof {
                    assert(run_end(out@, j as int) == j);
                }
                if j < len && out.get_char(j) == '%' {
                    proof {
                        assert(find_vol(out@, i as int) == Some(i as int));
                    }
                    // The digits' value, saturated one step above the type's
                    // largest value so that an overflowing token is rejected
                    // as the underlying integer parse rejects it.
                    let mut acc: u64 = 0;
                    let mut k: usize = i;
                    proof {
                        assert(out@.subrange(i as int, i as int) =~= Seq::<char>::empty());
                    }
                    while k < j
                        invariant
                            i <= k <= j <= len,
                            len == out@.len(),
                            forall|m: int| i <= m < j ==> is_digit(#[trigger] out@[m]),
                            0 <= digits_val(out@.subrange(i as int, k as int)),
                            acc == if digits_val(out@.subrange(i as int, k as int)) <= 4294967296
                                {
                                digits_val(out@.subrange(i as int, k as int))
                            } else {
                                4294967296
                            },
                        decreases j - k,
                    {
                        let ghost pre = out@.subrange(i as int, k as int);
                        let d = (out.get_char(k) as u32 - 48) as u64;
                        proof {
                            assert(out@.subrange(i as int, k as int + 1).drop_last() =~= pre);
                            assert(out@.subrange(i as int, k as int + 1).last() == out@[k as int]);
                        }
                        acc = acc * 10 + d;
                        if acc > 4294967296 {
                            acc = 4294967296;
                        }
                        k += 1;
                    }
                    let ghost v = digits_val(out@.subrange(i as int, j as int));
                    if acc <= 4294967295 {
                        proof {
                            assert(v == acc as int);
                            assert(run_end(out@, i as int) == j as int);
                            assert(find_vol(out@, 0) == Some(i as int));
                            assert(spec_volume_of(*self) == Some(v));
                        }
                        return Ok(acc as u32);
                    } else {
                        proof {
                            assert(acc == 4294967296);
                            assert(v >= 4294967296);
                            assert(spec_volume_of(*self) is None);
                        }
                        return Err(PropertyError::VolumeNotFound);
                    }
                }
                proof {
                    assert(find_vol(out@, i as int) == find_vol(out@, i as int + 1));
                }
                i += 1;
            } else {
                proof {
                    assert(find_vol(out@, i as int) == find_vol(out@, i as int + 1));
                }
                i += 1;
            }
        }
        Err(PropertyError::VolumeNotFound)
    }

    /// The tick's audio state: the volume percentage and the mute flag,
    /// exactly when both queries can be read.
    pub fn get_audio(&self) -> (r: Result<(u32, bool), PropertyError>)
        ensures
            r is Ok <==> spec_volume_of(*self) is Some && self.muted_output is Some,
            r is Ok ==> r.unwrap().0 as int == spec_volume_of(*self).unwrap() && r.unwrap().1
                == spec_muted_of(*self),
            r is Err ==> r->Err_0 == (if spec_volume_of(*self) is None {
                spec_volume_err(*self)
            } else {
                PropertyError::NoAudioDevice
            }),
    {
        let volume_perc = self.get_volume()?;
        let muted = self.get_muted()?;
        Ok((volume_perc, muted))
    }
}

/// The bare audio fragment: only the muted glyph when muted, glyph and
/// percentage when audible, or the placeholder.
pub open spec fn audio_text(p: AudioProperty) -> Seq<char> {
    if spec_volume_of(p) is Some && p.muted_output is Some {
        let v = spec_volume_of(p).unwrap();
        if spec_muted_of(p) {
            spec_volume_icon(v, true)
        } else {
            spec_volume_icon(v, false) + " "@ + spec_dec(v) + "%"@
        }
    } else {
        "No Audio Device Found"@
    }
}

/// The full wrapped audio fragment.
pub open spec fn spec_audio_fragment(config: RsbrConfig, p: AudioProperty) -> Seq<char> {
    spec_wrap(config.theme, config.audio.fgcolor.0@, config.audio.bgcolor.0@, audio_text(p), ""@)
}

impl ShowBar for AudioProperty {
    open spec fn spec_show_bar(&self, config: &RsbrConfig, template: Seq<char>) -> Seq<char> {
        spec_replace(template, "{audio}"@, spec_audio_fragment(*config, *self))
    }

    fn show_bar(&self, config: &RsbrConfig, template: &str) -> (r: String) {
        let text: String = match self.get_audio() {
            Ok((volume_percent, is_muted)) => {
                if is_muted {
                    String::from_str(icons::get_volume_icon(volume_percent, true))
                } else {
                    let mut t = String::from_str(icons::get_volume_icon(volume_percent, false));
                    t.append(" ");
                    let d = u32_dec(volume_percent);
                    t.append(d.as_str());
                    t.append("%");
                    t
                }
            },
            Err(_) => String::from_str("No Audio Device Found"),
        };
        let frag = wrap_fragment(
            &config.theme,
            &config.audio.fgcolor,
            &config.audio.bgcolor,
            text.as_str(),
            "",
        );
        proof {
            reveal_strlit("{audio}");
        }
        replace_str(template, "{audio}", frag.as_str())
    }
}

} // verus!
