use chrono::{Offset, TimeZone};
use tokscale_bucket_tz::bucket_tz::{
    accept_detected_name, detect_local_iana_name, format_day_key, is_unknown_name, BucketTimezone,
};
use tokscale_bucket_tz::calendar::CivilDate;
use tokscale_bucket_tz::settings::ScannerSettings;
use tokscale_bucket_tz::zone::{LocalInstant, Zone, MAX_TIMESTAMP_MS, MIN_TIMESTAMP_MS};

fn pinned(name: &str) -> BucketTimezone {
    let zone = BucketTimezone::from_pinned_name(Some(name));
    assert!(zone.is_pinned(), "{name} must be a zone");
    zone
}

/// The instant as a clock at a fixed offset shows it.
fn at_offset(timestamp_ms: i64, offset: &chrono::FixedOffset) -> Option<LocalInstant> {
    let time = offset.timestamp_millis_opt(timestamp_ms).single()?;
    Some(LocalInstant {
        timestamp_ms: time.timestamp_millis(),
        offset_seconds: time.offset().fix().local_minus_utc(),
    })
}

#[test]
fn unset_and_blank_names_stay_unpinned() {
    assert_eq!(BucketTimezone::from_pinned_name(None), BucketTimezone::Local);
    assert_eq!(BucketTimezone::from_pinned_name(Some("")), BucketTimezone::Local);
    assert_eq!(
        BucketTimezone::from_pinned_name(Some("   ")),
        BucketTimezone::Local
    );
    assert!(!BucketTimezone::from_pinned_name(None).is_pinned());
}

#[test]
fn unknown_zone_name_degrades_to_local_instead_of_failing() {
    assert_eq!(
        BucketTimezone::from_pinned_name(Some("Mars/Olympus_Mons")),
        BucketTimezone::Local
    );
    // A fixed-offset string is not an IANA name and must not be accepted:
    // silently honoring it would pin a zone that cannot follow DST.
    assert_eq!(
        BucketTimezone::from_pinned_name(Some("+09:00")),
        BucketTimezone::Local
    );
}

#[test]
fn pinned_zone_keys_the_same_instant_the_same_way_regardless_of_host() {
    let tz = BucketTimezone::from_pinned_name(Some("Asia/Seoul")).clone();
    assert_eq!(tz.pinned_name(), Some("Asia/Seoul"));
    assert!(tz.is_pinned());

    // 2026-03-02T18:00:00Z is 2026-03-03 03:00 in Seoul and 2026-03-02 10:00
    // in Los Angeles. The day key follows the pinned zone, not the host.
    let instant = 1_772_474_400_000;
    assert_eq!(tz.day_key(instant), "2026-03-03");
    assert_eq!(
        BucketTimezone::from_pinned_name(Some("America/Los_Angeles")).day_key(instant),
        "2026-03-02"
    );
}

/// A zone that observes DST changes its offset mid-year; an offset pinned
/// before the transition keys instants after it onto the wrong day near
/// midnight.
#[test]
fn named_zone_follows_dst_where_a_fixed_offset_would_not() {
    let ny = BucketTimezone::from_pinned_name(Some("America/New_York"));

    // 2026-01-15T04:30:00Z is 23:30 on the 14th in EST (UTC-5).
    let winter = chrono::DateTime::parse_from_rfc3339("2026-01-15T04:30:00Z")
        .unwrap()
        .timestamp_millis();
    // 2026-07-15T03:30:00Z is 23:30 on the 14th in EDT (UTC-4).
    let summer = chrono::DateTime::parse_from_rfc3339("2026-07-15T03:30:00Z")
        .unwrap()
        .timestamp_millis();

    assert_eq!(ny.day_key(winter), "2026-01-14");
    assert_eq!(ny.day_key(summer), "2026-07-14");

    // The same instants under the winter offset frozen as a fixed value.
    let frozen = chrono::FixedOffset::west_opt(5 * 3600).unwrap();
    assert_eq!(format_day_key(&at_offset(winter, &frozen)), "2026-01-14");
    assert_eq!(
        format_day_key(&at_offset(summer, &frozen)),
        "2026-07-14",
        "sanity: 03:30Z is 22:30 EST, still the 14th"
    );

    // And where it actually bites: 00:30 EDT on the 15th is 23:30 EST on the
    // 14th under a frozen winter offset.
    let after_midnight_edt = chrono::DateTime::parse_from_rfc3339("2026-07-15T04:30:00Z")
        .unwrap()
        .timestamp_millis();
    assert_eq!(ny.day_key(after_midnight_edt), "2026-07-15");
    assert_eq!(
        format_day_key(&at_offset(after_midnight_edt, &frozen)),
        "2026-07-14",
        "a frozen offset buckets an hour of every DST-shifted day onto the wrong date"
    );
}

#[test]
fn detection_either_names_a_real_zone_or_declines() {
    // Host-dependent, so assert the contract rather than a value: whatever
    // comes back must be found in the tz database, because a name that is not
    // would pin to something later scans silently ignore.
    if let Some(name) = detect_local_iana_name() {
        assert!(
            BucketTimezone::from_pinned_name(Some(&name)).is_pinned(),
            "detected zone {name} must be re-resolvable"
        );
    }
}

#[test]
fn detected_names_must_be_in_the_database() {
    assert_eq!(
        accept_detected_name(Some("Europe/Berlin".to_string())),
        Some("Europe/Berlin".to_string())
    );
    assert_eq!(accept_detected_name(Some("Mars/Olympus_Mons".to_string())), None);
    assert_eq!(accept_detected_name(Some(" Europe/Berlin".to_string())), None);
    assert_eq!(accept_detected_name(Some(String::new())), None);
    assert_eq!(accept_detected_name(None), None);
}

#[test]
fn only_a_name_that_is_neither_blank_nor_a_zone_is_unknown() {
    assert!(!is_unknown_name(None));
    assert!(!is_unknown_name(Some("")));
    assert!(!is_unknown_name(Some(" \u{3000}\n")));
    assert!(!is_unknown_name(Some(" Asia/Seoul ")));
    assert!(is_unknown_name(Some("Mars/Olympus_Mons")));
    assert!(is_unknown_name(Some(" +09:00 ")));
    assert!(is_unknown_name(Some("asia/seoul")));
}

#[test]
fn default_is_unpinned() {
    assert_eq!(BucketTimezone::default(), BucketTimezone::Local);
    assert_eq!(BucketTimezone::default().pinned_name(), None);
}

#[test]
fn names_are_trimmed_of_unicode_white_space() {
    for name in ["\t\u{a0}Asia/Seoul\n", "\u{3000}Asia/Seoul\u{2003}", "\u{85}Asia/Seoul\u{2028}"] {
        assert_eq!(pinned(name).pinned_name(), Some("Asia/Seoul"));
    }
    // A zero-width space and a byte order mark are not white space.
    assert!(!BucketTimezone::from_pinned_name(Some("\u{200b}Asia/Seoul")).is_pinned());
    assert!(!BucketTimezone::from_pinned_name(Some("\u{feff}Asia/Seoul")).is_pinned());
}

/// The characters that trimming removes, over every character there is.
#[test]
fn white_space_is_the_unicode_property() {
    let expected: Vec<u32> = (0x09..=0x0d)
        .chain([0x20, 0x85, 0xa0, 0x1680])
        .chain(0x2000..=0x200a)
        .chain([0x2028, 0x2029, 0x202f, 0x205f, 0x3000])
        .collect();
    let found: Vec<u32> = (0..=0x10ffff)
        .filter_map(char::from_u32)
        .filter(|c| c.to_string().trim().is_empty())
        .map(u32::from)
        .collect();
    assert_eq!(found, expected);
}

#[test]
fn zone_names_are_case_sensitive() {
    assert!(!BucketTimezone::from_pinned_name(Some("asia/seoul")).is_pinned());
}

/// Every name of the database pins the zone of that name and has the form
/// that zone names have.
#[test]
fn every_zone_goes_by_its_own_name() {
    for tz in chrono_tz::TZ_VARIANTS {
        let name = tz.name();
        assert_eq!(pinned(name).pinned_name(), Some(name));
        assert!(name.starts_with(|c: char| c.is_ascii_uppercase()), "{name}");
        assert!(
            name.chars()
                .all(|c| c.is_ascii_alphanumeric() || matches!(c, '/' | '_' | '+' | '-')),
            "{name}"
        );
        assert!(!name.eq_ignore_ascii_case("auto"), "{name}");
        assert!(!name.starts_with("UTC+") && !name.starts_with("UTC-"), "{name}");
    }
}

#[test]
fn scanner_settings_name_the_pinned_zone() {
    let unset = ScannerSettings { bucket_timezone: None };
    assert_eq!(
        BucketTimezone::from_scanner_settings(&unset),
        BucketTimezone::Local
    );
    let seoul = ScannerSettings { bucket_timezone: Some(" Asia/Seoul ".to_string()) };
    assert_eq!(
        BucketTimezone::from_scanner_settings(&seoul),
        pinned("Asia/Seoul")
    );
    let stale = ScannerSettings { bucket_timezone: Some("Asia/Soul".to_string()) };
    assert_eq!(
        BucketTimezone::from_scanner_settings(&stale),
        BucketTimezone::Local
    );
}

#[test]
fn the_range_of_instants_is_the_range_of_dates() {
    assert_eq!(
        MIN_TIMESTAMP_MS,
        chrono::DateTime::<chrono::Utc>::MIN_UTC.timestamp_millis()
    );
    assert_eq!(
        MAX_TIMESTAMP_MS,
        chrono::DateTime::<chrono::Utc>::MAX_UTC.timestamp_millis()
    );
}

#[test]
fn instants_without_a_date_have_the_empty_key() {
    for zone in [BucketTimezone::Local, pinned("UTC"), pinned("Asia/Seoul")] {
        for timestamp_ms in [i64::MIN, MIN_TIMESTAMP_MS - 1, MAX_TIMESTAMP_MS + 1, i64::MAX] {
            assert_eq!(zone.day_key(timestamp_ms), "");
            assert_eq!(zone.date_at(timestamp_ms), None);
        }
        assert_ne!(zone.day_key(MIN_TIMESTAMP_MS), "");
        assert_ne!(zone.day_key(MAX_TIMESTAMP_MS), "");
    }
    assert_eq!(format_day_key(&None), "");
}

#[test]
fn the_outermost_days_have_keys_on_either_side_of_the_range() {
    let utc = pinned("UTC");
    assert_eq!(utc.day_key(MIN_TIMESTAMP_MS), "-262143-01-01");
    assert_eq!(utc.day_key(MAX_TIMESTAMP_MS), "+262142-12-31");
    // A clock ahead of UTC has already passed the last day, one behind has not
    // yet reached the first.
    assert_eq!(pinned("Asia/Seoul").day_key(MAX_TIMESTAMP_MS), "+262143-01-01");
    assert_eq!(
        pinned("America/New_York").day_key(MIN_TIMESTAMP_MS),
        "-262144-12-31"
    );
    assert_eq!(
        pinned("Asia/Seoul").date_at(MAX_TIMESTAMP_MS),
        Some(CivilDate { year: 262143, month: 1, day: 1 })
    );
}

#[test]
fn keys_pad_and_sign_their_year() {
    let utc = pinned("UTC");
    let key = |rfc3339: &str| {
        let instant = chrono::DateTime::parse_from_rfc3339(rfc3339).unwrap();
        utc.day_key(instant.timestamp_millis())
    };
    assert_eq!(key("1970-01-01T00:00:00Z"), "1970-01-01");
    assert_eq!(key("1969-12-31T23:59:59Z"), "1969-12-31");
    assert_eq!(key("0800-02-03T00:00:00Z"), "0800-02-03");
    assert_eq!(key("0000-02-29T00:00:00Z"), "0000-02-29");
    assert_eq!(key("9999-12-31T23:59:59Z"), "9999-12-31");
    assert_eq!(utc.day_key(253_402_300_800_000), "+10000-01-01");
    assert_eq!(utc.day_key(-62_167_219_200_001), "-0001-12-31");
}

#[test]
fn a_local_day_starts_at_local_midnight() {
    let seoul = pinned("Asia/Seoul");
    // 2026-03-03 00:00 in Seoul is 2026-03-02T15:00:00Z.
    let midnight = 1_772_463_600_000;
    assert_eq!(seoul.day_key(midnight - 1), "2026-03-02");
    assert_eq!(seoul.day_key(midnight), "2026-03-03");
    assert_eq!(seoul.day_key(midnight + 86_399_999), "2026-03-03");
    assert_eq!(seoul.day_key(midnight + 86_400_000), "2026-03-04");
}

/// Keys and dates agree with each other and with the calendar over four
/// centuries, in zones on both sides of UTC.
#[test]
fn the_key_is_the_text_of_the_date() {
    for name in ["UTC", "Asia/Kathmandu", "America/St_Johns", "Pacific/Apia"] {
        let zone = pinned(name);
        let mut timestamp_ms: i64 = -6_300_000_000_000;
        while timestamp_ms < 6_400_000_000_000 {
            let date = zone.date_at(timestamp_ms).unwrap();
            let key = zone.day_key(timestamp_ms);
            assert_eq!(key, format!("{:04}-{:02}-{:02}", date.year, date.month, date.day));
            let instant = Zone::find(name).unwrap().place(timestamp_ms).unwrap();
            let clock_ms = timestamp_ms + 1000 * i64::from(instant.offset_seconds);
            let expected = chrono::NaiveDate::from_ymd_opt(date.year, date.month, date.day)
                .unwrap()
                .signed_duration_since(chrono::NaiveDate::from_ymd_opt(1970, 1, 1).unwrap())
                .num_days();
            assert_eq!(clock_ms.div_euclid(86_400_000), expected);
            timestamp_ms += 86_400_000 * 13 + 3_601_007;
        }
    }
}

#[test]
fn zones_are_found_by_name_and_place_instants_at_their_offset() {
    let kathmandu = Zone::find("Asia/Kathmandu").unwrap();
    assert_eq!(kathmandu.name(), "Asia/Kathmandu");
    assert_eq!(
        kathmandu.place(1_772_474_400_000),
        Some(LocalInstant { timestamp_ms: 1_772_474_400_000, offset_seconds: 20_700 })
    );
    assert_eq!(kathmandu.place(i64::MAX), None);
    assert_eq!(Zone::find("Asia/Katmando"), None);
}

/// The machine's zone is not known here, but its clock is within a day of UTC.
#[test]
fn unpinned_keys_are_within_a_day_of_utc() {
    let instant = 1_772_474_400_000;
    let key = BucketTimezone::Local.day_key(instant);
    assert!(["2026-03-01", "2026-03-02", "2026-03-03"].contains(&key.as_str()));
    let date = BucketTimezone::Local.date_at(instant).unwrap();
    assert_eq!(key, format!("{:04}-{:02}-{:02}", date.year, date.month, date.day));
}

#[test]
fn today_is_the_date_of_the_current_instant() {
    for zone in [pinned("Asia/Seoul"), pinned("America/Los_Angeles"), BucketTimezone::Local] {
        let before = zone.date_at(chrono::Utc::now().timestamp_millis()).unwrap();
        let today = zone.today();
        let after = zone.date_at(chrono::Utc::now().timestamp_millis()).unwrap();
        assert!(today == before || today == after);
        assert!(chrono::NaiveDate::from_ymd_opt(today.year, today.month, today.day).is_some());
    }
}

/// A filter for today's date selects the bucket of an instant of today and no
/// bucket of another day.
#[test]
fn todays_date_selects_todays_bucket() {
    for name in ["Asia/Seoul", "America/Los_Angeles", "Pacific/Kiritimati"] {
        let zone = pinned(name);
        // 2026-03-02T18:00:00Z.
        let now = 1_772_474_400_000;
        let date = zone.date_at(now).unwrap();
        let today = format!("{:04}-{:02}-{:02}", date.year, date.month, date.day);
        assert_eq!(zone.day_key(now), today);
        assert_eq!(zone.day_key(now), zone.day_key(now));
        assert_ne!(zone.day_key(now + 86_400_000), today);
        assert_ne!(zone.day_key(now - 86_400_000), today);
    }
}
