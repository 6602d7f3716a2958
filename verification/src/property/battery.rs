//! Battery provider: renders an averaged state-of-charge sample, or a
//! placeholder when no battery was found.

use vstd::prelude::*;
use crate::config::RsbrConfig;
use crate::icons;
use crate::icons::spec_battery_icon;
use crate::property::{ShowBar, spec_wrap, wrap_fragment};
use crate::text::{spec_dec, spec_replace, replace_str, u32_dec};

verus! {

/// One battery reading, averaged over all battery devices: the percentage
/// rounded down (it drives the icon ladder), the percentage rounded up (it
/// is displayed), and whether any device reports a charging state.
#[derive(Debug, Clone, Copy, PartialEq, Eq, Structural)]
pub struct BatterySample {
    pub percent: u32,
    pub percent_ceil: u32,
    pub charging: bool,
}

/// The battery provider, holding the tick's sample; `None` means sampling
/// failed and the placeholder is rendered.
pub struct BatteryProperty {
    pub sample: Option<BatterySample>,
}

/// The sum of a sequence of charge readings.
pub open spec fn sum_of(s: Seq<u32>) -> int
    decreases s.len(),
{
    if s.len() == 0 {
        0
    } else {
        sum_of(s.drop_last()) + s.last()
    }
}

/// The sum of readings is bounded by their count times the largest reading
/// value the type holds.
proof fn lemma_sum_bound(s: Seq<u32>)
    ensures
        0 <= sum_of(s) <= s.len() * 0xffff_ffff,
    decreases s.len(),
{
    if s.len() > 0 {
        lemma_sum_bound(s.drop_last());
        assert((s.len() - 1) * 0xffff_ffff + 0xffff_ffff == s.len() * 0xffff_ffff)
            by (nonlinear_arith);
    }
}

impl BatteryProperty {
    /// Builds the provider from the per-device state-of-charge percentages:
    /// the arithmetic mean drives the icon ladder (rounded down) and the
    /// display (rounded up), and the charging flag holds when any device
    /// reports it.  No readings means the sampling failure placeholder.
    #[verifier::loop_isolation(false)]
    pub fn from_capacities(capacities: &Vec<u32>, charging: bool) -> (r: BatteryProperty)
        ensures
            capacities@.len() == 0 ==> r.sample is None,
            capacities@.len() > 0 ==> r.sample is Some && {
                let bs = r.sample->Some_0;
                let total = sum_of(capacities@);
                let n = capacities@.len() as int;
                &&& bs.percent == total / n
                &&& bs.percent_ceil == total / n + (if total % n == 0 {
                    0int
                } else {
                    1int
                })
                &&& bs.charging == charging
            },
    {
        let n = capacities.len();
        if n == 0 {
            return BatteryProperty { sample: None };
        }
        let mut total: u128 = 0;
        let mut i: usize = 0;
        proof {
            assert(capacities@.take(0) =~= Seq::<u32>::empty());
        }
        while i < n
            invariant
                i <= n,
                total == sum_of(capacities@.take(i as int)),
                total <= (i as int) * 0xffff_ffff,
            decreases n - i,
        {
            proof {
                assert(capacities@.take(i + 1int).drop_last() =~= capacities@.take(i as int));
                assert(capacities@.take(i + 1int).last() == capacities@[i as int]);
                assert((i as int) * 0xffff_ffff + 0xffff_ffff == (i + 1int) * 0xffff_ffff)
                    by (nonlinear_arith);
            }
            total = total + capacities[i] as u128;
            i += 1;
        }
        proof {
            assert(capacities@.take(n as int) =~= capacities@);
        }
        let q = total / (n as u128);
        let rem = total % (n as u128);
        proof {
            // The mean of readings that each fit the type fits the type.
            assert(q <= 0xffff_ffff && (rem != 0 ==> q < 0xffff_ffff)) by (nonlinear_arith)
                requires
                    n >= 1,
                    q == total / (n as u128),
                    rem == total % (n as u128),
                    total <= (n as int) * 0xffff_ffff,
            ;
        }
        let percent = q as u32;
        let percent_ceil = if rem == 0 {
            percent
        } else {
            percent + 1
        };
        BatteryProperty { sample: Some(BatterySample { percent, percent_ceil, charging }) }
    }
}

/// The bare battery fragment: glyph and rounded-up percentage, or the
/// placeholder.
pub open spec fn battery_text(sample: Option<BatterySample>) -> Seq<char> {
    match sample {
        Some(s) => spec_battery_icon(s.percent as int, s.charging) + " "@ + spec_dec(
            s.percent_ceil as int,
        ),
        None => "No Battery Found"@,
    }
}

/// The full wrapped battery fragment, percent sign and trailing space
/// included.
pub open spec fn spec_battery_fragment(config: RsbrConfig, sample: Option<BatterySample>) -> Seq<
    char,
> {
    spec_wrap(
        config.theme,
        config.battery.fgcolor.0@,
        config.battery.bgcolor.0@,
        battery_text(sample),
        "% "@,
    )
}

impl ShowBar for BatteryProperty {
    open spec fn spec_show_bar(&self, config: &RsbrConfig, template: Seq<char>) -> Seq<char> {
        spec_replace(template, "{battery}"@, spec_battery_fragment(*config, self.sample))
    }

    fn show_bar(&self, config: &RsbrConfig, template: &str) -> (r: String) {
        let text: String = match &self.sample {
            Some(s) => {
                let mut t = String::from_str(icons::get_battery_icon(s.percent, s.charging));
                t.append(" ");
                let d = u32_dec(s.percent_ceil);
                t.append(d.as_str());
                t
            },
            None => String::from_str("No Battery Found"),
        };
        let frag = wrap_fragment(
            &config.theme,
            &config.battery.fgcolor,
            &config.battery.bgcolor,
            text.as_str(),
            "% ",
        );
        proof {
            reveal_strlit("{battery}");
        }
        replace_str(template, "{battery}", frag.as_str())
    }
}

} // verus!
