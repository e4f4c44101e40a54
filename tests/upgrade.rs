use std::time::{Duration, UNIX_EPOCH};

use waydroid_upgrade::config::{
    is_preinstalled, load, local_datetime, uses_preinstalled_images, LocalDatetimeError,
};
use waydroid_upgrade::datetime::{ParseDatetimeError, UpdateDatetime};
use waydroid_upgrade::decision::{
    check_channel, count_upgrades, decide_action, plan, upgrade_exit_code, Action, ChannelStatus,
};
use waydroid_upgrade::response::{deserialize_max, response_datetime, ResponseError, UpdateResponse};

fn at(epoch: i64) -> UpdateDatetime {
    UpdateDatetime::from_epoch(epoch)
}

fn section(pairs: &[(&str, &str)]) -> ini::Properties {
    let mut p = ini::Properties::new();
    for (k, v) in pairs {
        p.insert(*k, *v);
    }
    p
}

#[test]
fn test_load() {
    let found = ini::Ini::load_from_file("/var/lib/waydroid/waydroid.cfg")
        .ok()
        .and_then(|ini| ini.section(Some("waydroid")).cloned());
    let config = load(found);

    let system_datetime =
        UNIX_EPOCH + Duration::from_secs(config["system_datetime"].parse().unwrap());
    println!("{:?}", chrono::DateTime::<chrono::Local>::from(system_datetime));

    let vendor_datetime =
        UNIX_EPOCH + Duration::from_secs(config["vendor_datetime"].parse().unwrap());
    println!("{:?}", chrono::DateTime::<chrono::Local>::from(vendor_datetime));
}

#[test]
fn empty_section_takes_defaults() {
    let config = load(None);
    assert_eq!(config.get("images_path"), Some("/var/lib/waydroid/images"));
    assert_eq!(config.get("system_datetime"), Some("0"));
    assert_eq!(config.get("vendor_datetime"), Some("0"));
    assert_eq!(config.len(), 3);
}

#[test]
fn present_keys_are_kept() {
    let found = section(&[
        ("images_path", "/etc/waydroid-extra/images"),
        ("system_datetime", "1700000000"),
        ("system_ota", "https://example.org/system.json"),
    ]);
    let config = load(Some(found));
    assert_eq!(config.get("images_path"), Some("/etc/waydroid-extra/images"));
    assert_eq!(config.get("system_datetime"), Some("1700000000"));
    assert_eq!(config.get("vendor_datetime"), Some("0"));
    assert_eq!(config.get("system_ota"), Some("https://example.org/system.json"));
}

#[test]
fn preinstalled_paths_are_recognised() {
    assert!(is_preinstalled("/etc/waydroid-extra/images"));
    assert!(is_preinstalled("/usr/share/waydroid-extra/images"));
    assert!(!is_preinstalled("/var/lib/waydroid/images"));
    assert!(!is_preinstalled("/etc/waydroid-extra/images/"));
    assert!(uses_preinstalled_images(&section(&[(
        "images_path",
        "/usr/share/waydroid-extra/images"
    )])));
    assert!(!uses_preinstalled_images(&load(None)));
    assert!(!uses_preinstalled_images(&ini::Properties::new()));
}

#[test]
fn local_datetimes_are_parsed() {
    let config = section(&[
        ("system_datetime", "1700000000"),
        ("vendor_datetime", "soon"),
        ("big", "9223372036854775808"),
        ("signed", "-42"),
        ("plus", "+7"),
    ]);
    assert_eq!(local_datetime(&config, "system_datetime"), Ok(at(1700000000)));
    assert_eq!(local_datetime(&config, "vendor_datetime"), Err(LocalDatetimeError::Invalid));
    assert_eq!(local_datetime(&config, "big"), Err(LocalDatetimeError::Invalid));
    assert_eq!(local_datetime(&config, "signed"), Ok(at(-42)));
    assert_eq!(local_datetime(&config, "plus"), Ok(at(7)));
    assert_eq!(local_datetime(&config, "images_path"), Err(LocalDatetimeError::Missing));
}

#[test]
fn datetime_from_str() {
    assert_eq!(UpdateDatetime::from_str("0"), Ok(at(0)));
    assert_eq!(UpdateDatetime::from_str("9223372036854775807").map(|d| d.epoch()), Ok(i64::MAX));
    assert_eq!(UpdateDatetime::from_str(""), Err(ParseDatetimeError));
    assert_eq!(UpdateDatetime::from_str("-"), Err(ParseDatetimeError));
    assert_eq!(UpdateDatetime::from_str(" 1"), Err(ParseDatetimeError));
}

#[test]
fn datetime_renders_in_utc() {
    assert_eq!(at(1700000000).to_utc_string(), Some("2023-11-14 22:13:20 UTC".to_string()));
    assert_eq!(at(0).to_utc_string(), Some("1970-01-01 00:00:00 UTC".to_string()));
    assert_eq!(at(i64::MAX).to_utc_string(), None);
}

#[test]
fn max_of_list() {
    assert_eq!(deserialize_max(&vec![]), None);
    assert_eq!(deserialize_max(&vec![at(5)]), Some(at(5)));
    assert_eq!(deserialize_max(&vec![at(3), at(9), at(5)]), Some(at(9)));
    assert_eq!(deserialize_max(&vec![at(9), at(9), at(-1)]), Some(at(9)));
}

#[test]
fn response_reduces_to_one_datetime() {
    assert_eq!(response_datetime(&UpdateResponse::Single(at(12))), Ok(at(12)));
    assert_eq!(
        response_datetime(&UpdateResponse::List(vec![at(1), at(1700000000), at(2)])),
        Ok(at(1700000000))
    );
    assert_eq!(
        response_datetime(&UpdateResponse::List(vec![])),
        Err(ResponseError::EmptyList)
    );
}

#[test]
fn channel_counts_only_strictly_newer() {
    assert_eq!(
        check_channel(at(2), at(1)),
        ChannelStatus::UpgradeAvailable { remote: at(2), local: at(1) }
    );
    assert_eq!(check_channel(at(1), at(1)), ChannelStatus::UpToDate { local: at(1) });
    assert_eq!(check_channel(at(0), at(1)), ChannelStatus::UpToDate { local: at(1) });
    let newer = check_channel(at(2), at(1));
    let same = check_channel(at(1), at(1));
    assert_eq!(count_upgrades(&newer, &newer), 2);
    assert_eq!(count_upgrades(&newer, &same), 1);
    assert_eq!(count_upgrades(&same, &same), 0);
}

#[test]
fn scenario_both_channels_newer_runs_upgrade() {
    let p = plan(at(1700000000), at(0), at(1700000000), at(0), false, false);
    assert_eq!(p.upgrades, 2);
    assert_eq!(p.action, Action::RunUpgrade);
    assert_eq!(p.action.exit_code(), None);
    assert_eq!(upgrade_exit_code(Some(0)), 0);
    assert_eq!(upgrade_exit_code(Some(3)), 3);
}

#[test]
fn scenario_up_to_date_exits_zero() {
    let p = plan(at(1700000000), at(1700000000), at(1600000000), at(1600000000), false, false);
    assert_eq!(p.upgrades, 0);
    assert_eq!(p.action, Action::NoUpgrades);
    assert_eq!(p.action.exit_code(), Some(0));
}

#[test]
fn scenario_opt_out_with_system_newer() {
    let p = plan(at(1700000000), at(1600000000), at(1600000000), at(1600000000), false, true);
    assert!(matches!(p.system, ChannelStatus::UpgradeAvailable { .. }));
    assert!(matches!(p.vendor, ChannelStatus::UpToDate { .. }));
    assert_eq!(p.upgrades, 1);
    assert_eq!(p.action, Action::UpgradeSuppressed { upgrades: 1 });
    assert_eq!(p.action.exit_code(), Some(1));
}

#[test]
fn repeated_plan_is_the_same() {
    let first = plan(at(5), at(3), at(2), at(2), false, true);
    let second = plan(at(5), at(3), at(2), at(2), false, true);
    assert_eq!(first, second);
    assert_eq!(first.action.exit_code(), second.action.exit_code());
}

#[test]
fn preinstalled_never_runs_upgrade() {
    for upgrades in 0..=2u8 {
        for opt_out in [false, true] {
            let action = decide_action(upgrades, true, opt_out);
            assert_ne!(action, Action::RunUpgrade);
            assert_eq!(action.exit_code(), Some(upgrades));
        }
    }
    assert_eq!(decide_action(2, true, false), Action::ManualUpgrade { upgrades: 2 });
}

#[test]
fn opt_out_exits_with_tally() {
    assert_eq!(decide_action(1, false, true).exit_code(), Some(1));
    assert_eq!(decide_action(2, false, true).exit_code(), Some(2));
    assert_eq!(decide_action(2, false, true), Action::UpgradeSuppressed { upgrades: 2 });
    assert_eq!(decide_action(2, false, false), Action::RunUpgrade);
    assert_eq!(decide_action(0, false, false), Action::NoUpgrades);
}

#[test]
fn upgrade_exit_code_is_forwarded() {
    assert_eq!(upgrade_exit_code(None), 1);
    assert_eq!(upgrade_exit_code(Some(263)), 7);
    assert_eq!(upgrade_exit_code(Some(-1)), 255);
    assert_eq!(upgrade_exit_code(Some(1)), 1);
}

#[test]
fn equal_seconds_give_equal_datetimes() {
    assert_eq!(at(1700000000), at(1700000000));
    assert_ne!(at(1700000000), at(1700000001));
    assert_eq!(UpdateDatetime::from_str("1700000000"), Ok(at(1700000000)));
}

#[test]
fn feed_order_does_not_change_latest() {
    let a = deserialize_max(&vec![at(3), at(1700000000), at(9)]);
    let b = deserialize_max(&vec![at(1700000000), at(9), at(3)]);
    let c = deserialize_max(&vec![at(9), at(3), at(1700000000)]);
    assert_eq!(a, b);
    assert_eq!(b, c);
    assert_eq!(a, Some(at(1700000000)));
}

#[test]
fn repeated_response_reading_agrees() {
    let feed = UpdateResponse::List(vec![at(4), at(8), at(8), at(2)]);
    assert_eq!(response_datetime(&feed), response_datetime(&feed));
    assert_eq!(response_datetime(&feed), Ok(at(8)));
}
