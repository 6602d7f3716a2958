use rsbr::config::RsbrConfig;
use rsbr::property::audio::AudioProperty;
use rsbr::property::battery::{BatteryProperty, BatterySample};
use rsbr::property::brightness::BrightnessProperty;
use rsbr::property::datetime::DatetimeProperty;
use rsbr::property::network::NetworkProperty;
use rsbr::property::{Property, PropertyError, ShowBar, ShowBars};
use rsbr::text::{contains_str, replace_str, u32_dec};

#[test]
fn replace_all_occurrences() {
    assert_eq!(replace_str("a{x}b{x}", "{x}", "Y"), "aYbY");
    assert_eq!(replace_str("{x}{x}{x}", "{x}", ""), "");
    assert_eq!(replace_str("none here", "{x}", "Y"), "none here");
    assert_eq!(replace_str("", "{x}", "Y"), "");
}

#[test]
fn contains_finds_substrings() {
    assert!(contains_str("abc [off] xyz", "[off]"));
    assert!(!contains_str("abc [on] xyz", "[off]"));
    assert!(contains_str("anything", ""));
}

#[test]
fn decimal_rendering() {
    assert_eq!(u32_dec(0), "0");
    assert_eq!(u32_dec(7), "7");
    assert_eq!(u32_dec(42), "42");
    assert_eq!(u32_dec(100), "100");
    assert_eq!(u32_dec(4294967295), "4294967295");
}

#[test]
fn battery_failure_renders_placeholder_with_datetime() {
    let mut config = RsbrConfig::default();
    config.format = "{battery} {datetime}".to_string();
    let bar = ShowBars::new(vec![
        Property::Battery(BatteryProperty { sample: None }),
        Property::Datetime(DatetimeProperty { text: "2024-01-02 03:04:05".to_string() }),
    ]);
    let out = bar.process(config);
    assert_eq!(
        out,
        "^c#CCCCCC^^b#000000^ No Battery Found%  ^c#CCCCCC^^b#000000^ 2024-01-02 03:04:05 "
    );
    assert!(out.contains("No Battery Found"));
    assert!(!out.contains("{datetime}"));
    assert!(!out.contains("{battery}"));
}

#[test]
fn battery_mean_rounds_down_for_icon_and_up_for_display() {
    let p = BatteryProperty::from_capacities(&vec![40, 45], false);
    assert_eq!(p.sample, Some(BatterySample { percent: 42, percent_ceil: 43, charging: false }));

    let exact = BatteryProperty::from_capacities(&vec![30, 40], true);
    assert_eq!(exact.sample, Some(BatterySample { percent: 35, percent_ceil: 35, charging: true }));

    let single = BatteryProperty::from_capacities(&vec![37], false);
    assert_eq!(
        single.sample,
        Some(BatterySample { percent: 37, percent_ceil: 37, charging: false })
    );

    let none = BatteryProperty::from_capacities(&vec![], false);
    assert_eq!(none.sample, None);
}

#[test]
fn battery_success_renders_icon_and_ceiling() {
    let config = RsbrConfig::default();
    let p = BatteryProperty {
        sample: Some(BatterySample { percent: 37, percent_ceil: 38, charging: false }),
    };
    let out = p.show_bar(&config, "{battery}");
    assert_eq!(out, "^c#CCCCCC^^b#000000^ \u{f007d} 38% ");
}

#[test]
fn brightness_applies_display_offset() {
    let p = BrightnessProperty::from_raw(Some(49));
    assert_eq!(p.get_brightness(), Ok(50));
    let config = RsbrConfig::default();
    let out = p.show_bar(&config, "{brightness}");
    assert_eq!(out, "^c#CCCCCC^^b#000000^ \u{f00df} 50% ");
}

#[test]
fn brightness_failure_renders_placeholder() {
    let p = BrightnessProperty::from_raw(None);
    assert_eq!(p.get_brightness(), Err(PropertyError::NoBrightnessDevice));
    let config = RsbrConfig::default();
    let out = p.show_bar(&config, "{brightness}");
    assert_eq!(out, "^c#CCCCCC^^b#000000^ No Brightness Device% ");
}

#[test]
fn audio_muted_hides_percentage() {
    let mixer = "Simple mixer control 'Master',0\n  Front Left: Playback 26214 [42%] [off]\n";
    let p = AudioProperty {
        volume_output: Some(mixer.to_string()),
        muted_output: Some(mixer.to_string()),
    };
    assert_eq!(p.get_audio(), Ok((42, true)));
    let config = RsbrConfig::default();
    let out = p.show_bar(&config, "{audio}");
    assert_eq!(out, "^c#CCCCCC^^b#000000^ \u{f0e08}");
    assert!(!out.contains("42"));
}

#[test]
fn audio_unmuted_shows_percentage() {
    let mixer = "Simple mixer control 'Master',0\n  Front Left: Playback 26214 [42%] [on]\n";
    let p = AudioProperty {
        volume_output: Some(mixer.to_string()),
        muted_output: Some(mixer.to_string()),
    };
    assert_eq!(p.get_audio(), Ok((42, false)));
    let config = RsbrConfig::default();
    let out = p.show_bar(&config, "{audio}");
    assert_eq!(out, "^c#CCCCCC^^b#000000^ \u{f0580} 42%");
}

#[test]
fn audio_volume_parses_first_percent_token() {
    let p = AudioProperty {
        volume_output: Some("limits 0 - 87, now 12a34% later 56%".to_string()),
        muted_output: Some(String::new()),
    };
    assert_eq!(p.get_volume(), Ok(34));
}

#[test]
fn audio_volume_errors() {
    let none = AudioProperty { volume_output: None, muted_output: None };
    assert_eq!(none.get_volume(), Err(PropertyError::NoAudioDevice));
    assert_eq!(none.get_muted(), Err(PropertyError::NoAudioDevice));
    assert_eq!(none.get_audio(), Err(PropertyError::NoAudioDevice));

    let no_token = AudioProperty {
        volume_output: Some("no percentage anywhere".to_string()),
        muted_output: Some(String::new()),
    };
    assert_eq!(no_token.get_volume(), Err(PropertyError::VolumeNotFound));
    assert_eq!(no_token.get_audio(), Err(PropertyError::VolumeNotFound));

    let overflow = AudioProperty {
        volume_output: Some("99999999999999%".to_string()),
        muted_output: Some(String::new()),
    };
    assert_eq!(overflow.get_volume(), Err(PropertyError::VolumeNotFound));
}

#[test]
fn audio_volume_keeps_leading_zeros_and_whole_runs() {
    let zeros = AudioProperty {
        volume_output: Some("at 0042% now".to_string()),
        muted_output: Some(String::new()),
    };
    assert_eq!(zeros.get_volume(), Ok(42));

    let run = AudioProperty {
        volume_output: Some("vol 100%".to_string()),
        muted_output: Some(String::new()),
    };
    assert_eq!(run.get_volume(), Ok(100));
}

#[test]
fn audio_mute_failure_after_volume_success() {
    let p = AudioProperty {
        volume_output: Some("[42%]".to_string()),
        muted_output: None,
    };
    assert_eq!(p.get_volume(), Ok(42));
    assert_eq!(p.get_audio(), Err(PropertyError::NoAudioDevice));
}

#[test]
fn audio_failure_renders_placeholder() {
    let p = AudioProperty { volume_output: None, muted_output: None };
    let config = RsbrConfig::default();
    let out = p.show_bar(&config, "a {audio} b");
    assert_eq!(out, "a ^c#CCCCCC^^b#000000^ No Audio Device Found b");
}

#[test]
fn network_extracts_active_ssid() {
    let p = NetworkProperty { output: Some("no:other\nyes:MyWifi\nno:third\n".to_string()) };
    assert_eq!(p.get_network().unwrap(), "MyWifi");
    let config = RsbrConfig::default();
    let out = p.show_bar(&config, "{network}");
    assert_eq!(out, "^c#CCCCCC^^b#000000^ \u{f05a9} MyWifi");
}

#[test]
fn network_strips_carriage_return() {
    let p = NetworkProperty { output: Some("yes:Net\r\n".to_string()) };
    assert_eq!(p.get_network().unwrap(), "Net");
}

#[test]
fn network_error_renders_no_wifi_found() {
    let lookup_error = NetworkProperty { output: None };
    assert_eq!(lookup_error.get_network(), Err(PropertyError::NoNetworkInfo));
    let config = RsbrConfig::default();
    let out = lookup_error.show_bar(&config, "{network}");
    assert!(out.contains("No Wifi Found"));
    assert_eq!(out, "^c#CCCCCC^^b#000000^ No Wifi Found");

    let no_active = NetworkProperty { output: Some("no:one\nno:two\n".to_string()) };
    assert_eq!(no_active.get_network(), Err(PropertyError::NoNetworkInfo));
}

#[test]
fn network_empty_ssid_shows_disconnected_icon() {
    let p = NetworkProperty { output: Some("yes:\n".to_string()) };
    assert_eq!(p.get_network().unwrap(), "");
    let config = RsbrConfig::default();
    let out = p.show_bar(&config, "{network}");
    assert_eq!(out, "^c#CCCCCC^^b#000000^ \u{f05aa}");
}

#[test]
fn rerunning_a_provider_leaves_template_unchanged() {
    let config = RsbrConfig::default();
    let p = BatteryProperty {
        sample: Some(BatterySample { percent: 80, percent_ceil: 80, charging: true }),
    };
    let once = p.show_bar(&config, "{battery}|{datetime}");
    let twice = p.show_bar(&config, &once);
    assert_eq!(once, twice);
}

#[test]
fn process_folds_providers_in_order() {
    let mut config = RsbrConfig::default();
    config.format = "{audio}{network}".to_string();
    let bar = ShowBars::new(vec![
        Property::Audio(AudioProperty { volume_output: None, muted_output: None }),
        Property::Network(NetworkProperty { output: None }),
    ]);
    let out = bar.process(config);
    assert_eq!(
        out,
        "^c#CCCCCC^^b#000000^ No Audio Device Found^c#CCCCCC^^b#000000^ No Wifi Found"
    );
}

#[test]
fn process_leaves_unknown_tokens_alone() {
    let mut config = RsbrConfig::default();
    config.format = "{battery} {unknown}".to_string();
    let bar = ShowBars::new(vec![Property::Battery(BatteryProperty { sample: None })]);
    let out = bar.process(config);
    assert!(out.contains("{unknown}"));
    assert!(!out.contains("{battery}"));
}

#[test]
fn datetime_now_renders_some_text() {
    let p = DatetimeProperty::now("%Y-%m-%d");
    assert_eq!(p.text.len(), 10);
    let config = RsbrConfig::default();
    let out = p.show_bar(&config, "{datetime}");
    assert!(out.starts_with("^c#CCCCCC^^b#000000^ "));
    assert!(out.ends_with(" "));
}
