//! Property providers: each renders one kind of sampled system state into a
//! themed fragment and substitutes its placeholder token in the template,
//! leaving every other token untouched.

pub mod audio;
pub mod battery;
pub mod brightness;
pub mod datetime;
pub mod network;

use vstd::prelude::*;
use crate::config::RsbrConfig;
use crate::hexcolor::{Theme, ThemeColor, spec_get_color};
use crate::property::audio::AudioProperty;
use crate::property::battery::BatteryProperty;
use crate::property::brightness::BrightnessProperty;
use crate::property::datetime::DatetimeProperty;
use crate::property::network::NetworkProperty;

verus! {

/// Why a provider could not sample its data source.  All of these are
/// non-fatal: the provider renders a placeholder instead.
#[derive(Debug, Clone, Copy, PartialEq, Eq, Structural)]
pub enum PropertyError {
    /// No brightness-capable device was found.
    NoBrightnessDevice,
    /// The mixer query tool produced no output.
    NoAudioDevice,
    /// The mixer output holds no percentage token.
    VolumeNotFound,
    /// No active network line was found.
    NoNetworkInfo,
}

/// A fragment wrapped in the theme-derived color escape markers: a
/// foreground marker, a background marker, a space, the fragment text, and
/// the provider's own tail.
pub open spec fn spec_wrap(
    theme: Theme,
    fg: Seq<char>,
    bg: Seq<char>,
    inner: Seq<char>,
    tail: Seq<char>,
) -> Seq<char> {
    "^c"@ + spec_get_color(theme, fg) + "^^b"@ + spec_get_color(theme, bg) + "^ "@ + inner + tail
}

/// Wraps a fragment in the color escape markers for its property section.
pub fn wrap_fragment(theme: &Theme, fg: &ThemeColor, bg: &ThemeColor, inner: &str, tail: &str) -> (r:
    String)
    ensures
        r@ == spec_wrap(*theme, fg.0@, bg.0@, inner@, tail@),
{
    let mut out = String::from_str("^c");
    out.append(theme.get_color(fg).0.as_str());
    out.append("^^b");
    out.append(theme.get_color(bg).0.as_str());
    out.append("^ ");
    out.append(inner);
    out.append(tail);
    out
}

/// The common provider contract: sample-and-render one property into the
/// template, replacing only this provider's token.
pub trait ShowBar {
    /// The rendered template this provider's substitution yields.
    spec fn spec_show_bar(&self, config: &RsbrConfig, template: Seq<char>) -> Seq<char>;

    /// Substitutes this provider's token in `template`.
    fn show_bar(&self, config: &RsbrConfig, template: &str) -> (r: String)
        ensures
            r@ == self.spec_show_bar(config, template@),
    ;
}

/// One provider of any kind; the pipeline holds a list of these.
pub enum Property {
    Battery(BatteryProperty),
    Brightness(BrightnessProperty),
    Datetime(DatetimeProperty),
    Audio(AudioProperty),
    Network(NetworkProperty),
}

impl ShowBar for Property {
    open spec fn spec_show_bar(&self, config: &RsbrConfig, template: Seq<char>) -> Seq<char> {
        match self {
            Property::Battery(p) => p.spec_show_bar(config, template),
            Property::Brightness(p) => p.spec_show_bar(config, template),
            Property::Datetime(p) => p.spec_show_bar(config, template),
            Property::Audio(p) => p.spec_show_bar(config, template),
            Property::Network(p) => p.spec_show_bar(config, template),
        }
    }

    fn show_bar(&self, config: &RsbrConfig, template: &str) -> (r: String) {
        match self {
            Property::Battery(p) => p.show_bar(config, template),
            Property::Brightness(p) => p.show_bar(config, template),
            Property::Datetime(p) => p.show_bar(config, template),
            Property::Audio(p) => p.show_bar(config, template),
            Property::Network(p) => p.show_bar(config, template),
        }
    }
}

/// The placeholder token a provider substitutes.
pub open spec fn spec_token(p: Property) -> Seq<char> {
    match p {
        Property::Battery(_) => "{battery}"@,
        Property::Brightness(_) => "{brightness}"@,
        Property::Datetime(_) => "{datetime}"@,
        Property::Audio(_) => "{audio}"@,
        Property::Network(_) => "{network}"@,
    }
}

/// Substitution is idempotent per token: a provider whose token no longer
/// appears in the template leaves the template unchanged, so re-running it
/// changes nothing.
pub proof fn lemma_token_absent(p: Property, config: &RsbrConfig, template: Seq<char>)
    requires
        !crate::text::spec_contains(template, spec_token(p)),
    ensures
        p.spec_show_bar(config, template) == template,
{
    reveal_strlit("{battery}");
    reveal_strlit("{brightness}");
    reveal_strlit("{datetime}");
    reveal_strlit("{audio}");
    reveal_strlit("{network}");
    match p {
        Property::Battery(q) => {
            crate::text::lemma_replace_absent(
                template,
                "{battery}"@,
                battery::spec_battery_fragment(*config, q.sample),
            );
        },
        Property::Brightness(q) => {
            crate::text::lemma_replace_absent(
                template,
                "{brightness}"@,
                brightness::spec_brightness_fragment(*config, q.percent),
            );
        },
        Property::Datetime(q) => {
            crate::text::lemma_replace_absent(
                template,
                "{datetime}"@,
                datetime::spec_datetime_fragment(*config, q.text@),
            );
        },
        Property::Audio(q) => {
            crate::text::lemma_replace_absent(
                template,
                "{audio}"@,
                audio::spec_audio_fragment(*config, q),
            );
        },
        Property::Network(q) => {
            crate::text::lemma_replace_absent(
                template,
                "{network}"@,
                network::spec_network_fragment(*config, q.output),
            );
        },
    }
}

/// The template after every provider in `props`, in list order, substituted
/// its token, starting from `cur`.
pub open spec fn spec_process(props: Seq<Property>, config: RsbrConfig, cur: Seq<char>) -> Seq<
    char,
>
    decreases props.len(),
{
    if props.len() == 0 {
        cur
    } else {
        spec_process(props.skip(1), config, props[0].spec_show_bar(&config, cur))
    }
}

/// The pipeline: an ordered, fixed-at-construction list of providers.
pub struct ShowBars(pub Vec<Property>);

impl ShowBars {
    /// Builds the pipeline from its provider list.
    pub fn new(bar: Vec<Property>) -> (s: ShowBars)
        ensures
            s.0 == bar,
    {
        ShowBars(bar)
    }

    /// One tick: folds every provider over the configured format string, in
    /// list order, each seeing the template the previous one produced.
    pub fn process(&self, config: RsbrConfig) -> (r: String)
        ensures
            r@ == spec_process(self.0@, config, config.format@),
    {
        let mut template = String::from_str(config.format.as_str());
        let n = self.0.len();
        let mut k: usize = 0;
        proof {
            assert(self.0@.skip(0) =~= self.0@);
        }
        while k < n
            invariant
                k <= n,
                n == self.0@.len(),
                spec_process(self.0@.skip(k as int), config, template@) == spec_process(
                    self.0@,
                    config,
                    config.format@,
                ),
            decreases n - k,
        {
            proof {
                assert(self.0@.skip(k as int)[0] == self.0@[k as int]);
                assert(self.0@.skip(k as int).skip(1) =~= self.0@.skip(k as int + 1));
            }
            template = self.0[k].show_bar(&config, template.as_str());
            k += 1;
        }
        proof {
            assert(self.0@.skip(n as int) =~= Seq::<Property>::empty());
        }
        template
    }
}

} // verus!
