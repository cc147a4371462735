use tokscale_bucket_tz::bucket_tz::BucketTimezone;
use tokscale_bucket_tz::config::{
    load_for_write, normalize_key, pin_zone, resolve_timezone_value, resolve_timezone_value_with,
    run_get, run_list, run_set, run_unset, ConfigError,
};
use tokscale_bucket_tz::report::{Report, Style};
use tokscale_bucket_tz::settings::{ScannerSettings, Settings};

fn settings(zone: Option<&str>) -> Settings {
    Settings {
        scanner: ScannerSettings { bucket_timezone: zone.map(str::to_string) },
    }
}

/// Standard output as it reads without colours.
fn out(report: &Report) -> String {
    report.out.iter().map(|span| span.text.as_str()).collect()
}

#[test]
fn known_keys_are_matched_case_insensitively_and_trimmed() {
    assert_eq!(normalize_key(" TimeZone ").unwrap(), "timezone");
    assert!(normalize_key("timezon").is_err());
    assert!(normalize_key("scanner.bucketTimezone").is_err());
}

#[test]
fn timezone_values_canonicalize_through_the_tz_database() {
    assert_eq!(resolve_timezone_value("Asia/Seoul").unwrap(), "Asia/Seoul");
    assert_eq!(
        resolve_timezone_value("  America/New_York  ").unwrap(),
        "America/New_York"
    );
}

#[test]
fn fixed_offsets_are_rejected_rather_than_pinned() {
    for value in ["+09:00", "UTC+9", "-0500", "9"] {
        let error = resolve_timezone_value(value)
            .expect_err("a fixed offset must not be accepted as a pinned zone");
        let error = error.message();
        assert!(
            error.contains("not a known IANA timezone name"),
            "unexpected error for {value}: {error}"
        );
    }
}

#[test]
fn utc_is_a_real_zone_and_stays_acceptable() {
    // `UTC` is in the tz database and has no DST, so unlike `+00:00` it is a
    // legitimate pin, useful for servers that genuinely run on it.
    assert_eq!(resolve_timezone_value("UTC").unwrap(), "UTC");
}

#[test]
fn keys_fold_only_ascii_letters() {
    assert_eq!(normalize_key("\u{2003}TIMEZONE\t").unwrap(), "timezone");
    // A dotted capital I is no ASCII letter.
    assert!(normalize_key("T\u{130}MEZONE").is_err());
    assert!(normalize_key("").is_err());
    assert!(normalize_key("time zone").is_err());
}

#[test]
fn unknown_keys_are_reported_as_given() {
    assert_eq!(
        normalize_key(" TimeZon "),
        Err(ConfigError::UnknownKey { key: " TimeZon ".to_string() })
    );
    assert_eq!(
        normalize_key(" TimeZon ").unwrap_err().message(),
        "unknown config key ` TimeZon ` (known keys: timezone)"
    );
}

#[test]
fn unknown_values_are_reported_trimmed() {
    let error = resolve_timezone_value("  asia/seoul ").unwrap_err();
    assert_eq!(
        error,
        ConfigError::UnknownTimezone { value: "asia/seoul".to_string() }
    );
    assert_eq!(
        error.message(),
        "`asia/seoul` is not a known IANA timezone name (expected something like `Asia/Seoul` or \
         `America/New_York`). Fixed UTC offsets are not accepted: they cannot follow daylight \
         saving time, so a pinned offset would drift off local midnight twice a year."
    );
    assert_eq!(
        resolve_timezone_value(" "),
        Err(ConfigError::UnknownTimezone { value: String::new() })
    );
}

#[test]
fn auto_stands_for_the_detected_zone() {
    for value in ["auto", " AUTO ", "Auto"] {
        assert_eq!(
            resolve_timezone_value_with(value, Some("Europe/Paris".to_string())),
            Ok("Europe/Paris".to_string())
        );
        let error = resolve_timezone_value_with(value, None).unwrap_err();
        assert_eq!(error, ConfigError::UndetectedTimezone);
        assert_eq!(
            error.message(),
            "could not determine this machine's IANA timezone name \u{2014} pass one explicitly, \
             e.g. `tokscale config set timezone Asia/Seoul`"
        );
    }
    // Any other value leaves what was detected aside.
    assert_eq!(
        resolve_timezone_value_with("Asia/Seoul", Some("Europe/Paris".to_string())),
        Ok("Asia/Seoul".to_string())
    );
    match resolve_timezone_value("auto") {
        Ok(name) => assert!(BucketTimezone::from_pinned_name(Some(&name)).is_pinned()),
        Err(error) => assert_eq!(error, ConfigError::UndetectedTimezone),
    }
}

#[test]
fn resolved_values_resolve_to_themselves() {
    let first = resolve_timezone_value("\tEurope/Paris ").unwrap();
    assert_eq!(resolve_timezone_value(&first).unwrap(), first);
}

#[test]
fn every_zone_can_be_chosen_by_its_name() {
    for tz in chrono_tz::TZ_VARIANTS {
        assert_eq!(resolve_timezone_value(tz.name()), Ok(tz.name().to_string()));
    }
}

#[test]
fn unreadable_settings_are_not_admitted_for_writing() {
    assert_eq!(
        load_for_write(settings(Some("UTC")), true),
        Ok(settings(Some("UTC")))
    );
    let error = load_for_write(settings(None), false).unwrap_err();
    assert_eq!(error, ConfigError::UnreadableSettings);
    assert_eq!(
        error.message(),
        "could not read this machine's tokscale settings, so writing them would replace every \
         setting with a default. Check that the config directory is readable and writable, and \
         that settings.json in it is valid JSON."
    );
}

#[test]
fn get_prints_the_value_as_configured() {
    let report = run_get("timezone", &settings(Some("Asia/Seoul"))).unwrap();
    assert_eq!(out(&report), "Asia/Seoul\n");
    assert_eq!(report.err, "");

    let report = run_get("timezone", &settings(None)).unwrap();
    assert_eq!(out(&report), "(unset)\n");
    assert_eq!(report.out[0].style, Style::Dimmed);
    assert_eq!(
        report.err,
        "No bucketing timezone is pinned. Day boundaries follow this machine's current timezone \
         and will move if it changes.\n"
    );

    assert_eq!(
        run_get("zone", &settings(None)),
        Err(ConfigError::UnknownKey { key: "zone".to_string() })
    );
}

#[test]
fn set_pins_a_zone_for_the_first_time() {
    let change = run_set("timezone", " Asia/Seoul", settings(None), true).unwrap();
    assert_eq!(change.settings, settings(Some("Asia/Seoul")));
    assert_eq!(out(&change.report), "set timezone = Asia/Seoul\n");
    assert_eq!(change.report.out[0].style, Style::Done);
    assert_eq!(change.report.out[2].style, Style::Strong);
    assert_eq!(
        change.report.err,
        "Day boundaries are now fixed to Asia/Seoul and no longer follow this machine's timezone.\n"
    );
}

#[test]
fn set_moves_the_zone_and_says_what_it_costs() {
    let change = run_set("timezone", "UTC", settings(Some("Asia/Seoul")), true).unwrap();
    assert_eq!(change.settings, settings(Some("UTC")));
    assert_eq!(
        out(&change.report),
        "set timezone = UTC\n  was: Asia/Seoul\n"
    );
    assert_eq!(
        change.report.err,
        "Day boundaries move to UTC. The next scan re-splits history across days one final time, \
         then stays stable.\n"
    );
}

#[test]
fn set_again_changes_nothing() {
    let first = run_set("timezone", "Asia/Seoul", settings(None), true).unwrap();
    let second = run_set("timezone", "Asia/Seoul", first.settings, true).unwrap();
    assert_eq!(second.settings, settings(Some("Asia/Seoul")));
    assert_eq!(
        out(&second.report),
        "set timezone = Asia/Seoul\n(unchanged)\n"
    );
    assert_eq!(second.report.err, "");
}

#[test]
fn get_gives_back_what_set_wrote() {
    let change = run_set("timezone", "  Europe/Paris ", settings(None), true).unwrap();
    let report = run_get(" TIMEZONE", &change.settings).unwrap();
    assert_eq!(out(&report), "Europe/Paris\n");
    assert_eq!(
        BucketTimezone::from_scanner_settings(&change.settings.scanner).pinned_name(),
        Some("Europe/Paris")
    );
}

#[test]
fn set_judges_the_key_then_the_settings_then_the_value() {
    assert_eq!(
        run_set("zone", "+09:00", settings(None), false),
        Err(ConfigError::UnknownKey { key: "zone".to_string() })
    );
    assert_eq!(
        run_set("timezone", "+09:00", settings(None), false),
        Err(ConfigError::UnreadableSettings)
    );
    assert_eq!(
        run_set("timezone", "+09:00", settings(None), true),
        Err(ConfigError::UnknownTimezone { value: "+09:00".to_string() })
    );
    assert_eq!(
        run_set("timezone", "UTC", settings(None), false),
        Err(ConfigError::UnreadableSettings)
    );
}

#[test]
fn pin_zone_records_the_zone_it_is_given() {
    let change = pin_zone(settings(Some("UTC")), "Asia/Tokyo".to_string());
    assert_eq!(change.settings, settings(Some("Asia/Tokyo")));
    assert_eq!(
        out(&change.report),
        "set timezone = Asia/Tokyo\n  was: UTC\n"
    );
}

#[test]
fn unset_removes_the_zone() {
    let note = "The next tokscale run re-pins this machine's current timezone. Use `tokscale \
                config set timezone <zone>` to choose one explicitly.\n";

    let change = run_unset("timezone", settings(Some("Asia/Seoul")), true).unwrap();
    assert_eq!(change.settings, settings(None));
    assert_eq!(out(&change.report), "unset timezone (was Asia/Seoul)\n");
    assert_eq!(change.report.out[0].style, Style::Done);
    assert_eq!(change.report.err, note);
    let report = run_get("timezone", &change.settings).unwrap();
    assert_eq!(out(&report), "(unset)\n");

    let change = run_unset("timezone", change.settings, true).unwrap();
    assert_eq!(change.settings, settings(None));
    assert_eq!(out(&change.report), "timezone was already unset\n");
    assert_eq!(change.report.err, note);

    assert_eq!(
        run_unset("tz", settings(None), true),
        Err(ConfigError::UnknownKey { key: "tz".to_string() })
    );
    assert_eq!(
        run_unset("timezone", settings(None), false),
        Err(ConfigError::UnreadableSettings)
    );
}

#[test]
fn list_aligns_the_value_behind_the_key() {
    let report = run_list(&settings(Some("Asia/Seoul")));
    assert_eq!(
        out(&report),
        format!("{:<12} {}\n", "timezone", "Asia/Seoul")
    );
    assert_eq!(out(&run_list(&settings(None))), "timezone     (unset)\n");
    assert_eq!(report.err, "");
}
