use rsbr::icons::{get_battery_icon, get_brightness_icon, get_volume_icon, get_wifi_icon};

#[test]
fn battery_icon_buckets() {
    assert_eq!(get_battery_icon(0, false), "\u{f007a}");
    assert_eq!(get_battery_icon(9, false), "\u{f007a}");
    assert_eq!(get_battery_icon(10, false), "\u{f007b}");
    assert_eq!(get_battery_icon(37, false), "\u{f007d}");
    assert_eq!(get_battery_icon(89, false), "\u{f0082}");
    assert_eq!(get_battery_icon(99, false), "\u{f0079}");
    assert_eq!(get_battery_icon(100, false), "\u{f0079}");
}

#[test]
fn battery_icon_clamps_above_full() {
    assert_eq!(get_battery_icon(250, false), "\u{f0079}");
    assert_eq!(get_battery_icon(250, true), "\u{f0085}");
}

#[test]
fn battery_icon_charging_set() {
    assert_eq!(get_battery_icon(0, true), "\u{f089c}");
    assert_eq!(get_battery_icon(55, true), "\u{f0089}");
    assert_eq!(get_battery_icon(100, true), "\u{f0085}");
}

#[test]
fn brightness_icon_buckets() {
    assert_eq!(get_brightness_icon(0), "\u{f00de}");
    assert_eq!(get_brightness_icon(33), "\u{f00de}");
    assert_eq!(get_brightness_icon(34), "\u{f00df}");
    assert_eq!(get_brightness_icon(66), "\u{f00df}");
    assert_eq!(get_brightness_icon(67), "\u{f00e0}");
    assert_eq!(get_brightness_icon(100), "\u{f00e0}");
}

#[test]
fn volume_icon_buckets_and_mute() {
    assert_eq!(get_volume_icon(10, false), "\u{f057f}");
    assert_eq!(get_volume_icon(50, false), "\u{f0580}");
    assert_eq!(get_volume_icon(90, false), "\u{f057e}");
    // The muted glyph overrides the ladder at any percentage.
    assert_eq!(get_volume_icon(90, true), "\u{f0e08}");
    assert_eq!(get_volume_icon(0, true), "\u{f0e08}");
}

#[test]
fn wifi_icon_by_ssid() {
    assert_eq!(get_wifi_icon(""), "\u{f05aa}");
    assert_eq!(get_wifi_icon("MyWifi"), "\u{f05a9}");
}
