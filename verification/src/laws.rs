//! What the operations promise, stated over their calls.
//!
//! Each law takes the arguments and results of one or more calls and says what
//! must hold of them, in terms of the text and the numbers that went in and
//! came out.

use vstd::prelude::*;

use crate::bucket_tz::{accept_detected_name, detect_local_iana_name, BucketTimezone};
use crate::calendar::{date_text, law_civil_date, law_date_text_is_injective,
    law_day_numbers_follow_the_calendar, CivilDate};
use crate::config::{get_report, list_report, load_for_write, normalize_key, pin_zone,
    resolve_timezone_value, resolve_timezone_value_with, run_get, run_list, run_set, run_unset,
    set_report, unset_report, Change, ConfigError};
use crate::report::{lemma_pieces, printed, text_of_first, Report};
use crate::settings::{ScannerSettings, Settings};
use crate::text::{law_trim_is_idempotent, lowered, trimmed};
use crate::zone::{has_zone_form, is_clock_reading, is_local_offset, is_representable,
    is_utc_offset, law_clock_readings_come_from_the_clock,
    law_local_offsets_come_from_the_machine, lemma_zone_names_are_trimmed, tz_table_has,
    zone_offset_seconds, LocalInstant, Zone};

verus! {

/// A zone found by name goes by that name, and its clock is read at the offset
/// that the tz database gives that name at the very instant asked for.
pub proof fn law_zone_is_read_at_the_instant(
    name: &str,
    zone: Zone,
    found_name: &'static str,
    timestamp_ms: i64,
    placed: Option<LocalInstant>,
)
    requires
        call_ensures(Zone::find, (name,), Some(zone)),
        call_ensures(Zone::name, (&zone,), found_name),
        call_ensures(Zone::place, (&zone, timestamp_ms), placed),
    ensures
        has_zone_form(name@) && tz_table_has(name@),
        found_name@ == name@,
        placed is Some <==> is_representable(timestamp_ms),
        placed matches Some(instant) ==> {
            &&& instant.timestamp_ms == timestamp_ms
            &&& instant.offset_seconds == zone_offset_seconds(name@, timestamp_ms)
        },
{
}

/// A name pins at most itself: a zone is pinned exactly when the tz database
/// has the name without the white space around it, and then that name is the
/// one pinned. Every other name, and none at all, leaves the zone unpinned.
pub proof fn law_names_pin_at_most_themselves(
    raw: Option<&str>,
    zone: BucketTimezone,
    name: Option<&'static str>,
    pinned: bool,
)
    requires
        call_ensures(BucketTimezone::from_pinned_name, (raw,), zone),
        call_ensures(BucketTimezone::pinned_name, (&zone,), name),
        call_ensures(BucketTimezone::is_pinned, (&zone,), pinned),
    ensures
        pinned <==> (raw matches Some(raw) && has_zone_form(trimmed(raw@)) && tz_table_has(
            trimmed(raw@),
        )),
        pinned <==> zone is Pinned,
        pinned <==> name is Some,
        name matches Some(name) ==> (raw matches Some(raw) && name@ == trimmed(raw@)),
{
}

/// Settings pin what their configured name pins.
pub proof fn law_settings_pin_their_name(
    settings: &ScannerSettings,
    zone: BucketTimezone,
    name: Option<&'static str>,
)
    requires
        call_ensures(BucketTimezone::from_scanner_settings, (settings,), zone),
        call_ensures(BucketTimezone::pinned_name, (&zone,), name),
    ensures
        name is Some <==> (settings.bucket_timezone matches Some(raw) && has_zone_form(
            trimmed(raw@),
        ) && tz_table_has(trimmed(raw@))),
        name matches Some(name) ==> (settings.bucket_timezone matches Some(raw) && name@
            == trimmed(raw@)),
        name is Some <==> zone is Pinned,
{
}

/// The key of an instant in a pinned zone is the text of the date on which the
/// instant falls there: the one whose local midnight, at the offset of the
/// pinned name at that very instant, is the last before it.
pub proof fn law_day_key_is_the_local_day(
    raw: &str,
    zone: BucketTimezone,
    timestamp_ms: i64,
    key: String,
)
    requires
        call_ensures(BucketTimezone::from_pinned_name, (Some(raw),), zone),
        call_ensures(BucketTimezone::day_key, (&zone, timestamp_ms), key),
        has_zone_form(trimmed(raw@)) && tz_table_has(trimmed(raw@)),
        is_representable(timestamp_ms),
    ensures
        exists|date: CivilDate| #[trigger]
            date.is_valid() && key@ == date_text(date) && ({
                let clock_ms = timestamp_ms + 1000 * zone_offset_seconds(
                    trimmed(raw@),
                    timestamp_ms,
                );
                86_400_000 * date.day_number() <= clock_ms < 86_400_000 * (date.day_number() + 1)
            }),
{
    let clock_ms = timestamp_ms + 1000 * zone_offset_seconds(trimmed(raw@), timestamp_ms);
    let day = clock_ms / 86_400_000;
    assert(is_utc_offset(zone_offset_seconds(trimmed(raw@), timestamp_ms)));
    law_civil_date(day);
    assert(crate::calendar::civil_date(day).is_valid());
}

/// An instant without a date has the empty key in every zone, and no other
/// instant has it.
pub proof fn law_only_dateless_instants_have_no_key(
    zone: BucketTimezone,
    timestamp_ms: i64,
    key: String,
    date: Option<CivilDate>,
)
    requires
        call_ensures(BucketTimezone::day_key, (&zone, timestamp_ms), key),
        call_ensures(BucketTimezone::date_at, (&zone, timestamp_ms), date),
    ensures
        key@.len() == 0 <==> !is_representable(timestamp_ms),
        date is None <==> !is_representable(timestamp_ms),
{
}

/// Unpinned, the key of an instant is the text of its date at an offset that
/// the machine's own zone gave for that very instant.
pub proof fn law_unpinned_day_key_follows_the_machine(timestamp_ms: i64, key: String)
    requires
        call_ensures(BucketTimezone::day_key, (&BucketTimezone::Local, timestamp_ms), key),
        is_representable(timestamp_ms),
    ensures
        exists|offset: i32, date: CivilDate|
            #![trigger is_local_offset(timestamp_ms, offset), date.is_valid()]
            is_local_offset(timestamp_ms, offset) && date.is_valid() && key@ == date_text(date)
                && 86_400_000 * date.day_number() <= timestamp_ms + 1000 * offset < 86_400_000 * (
            date.day_number() + 1),
{
    let offset = choose|offset: i32| #[trigger]
        is_local_offset(timestamp_ms, offset) && key@ == date_text(
            crate::calendar::civil_date((timestamp_ms + 1000 * offset) / 86_400_000),
        );
    law_local_offsets_come_from_the_machine(timestamp_ms, offset);
    let day = (timestamp_ms + 1000 * offset) / 86_400_000;
    law_civil_date(day);
    assert(crate::calendar::civil_date(day).is_valid());
}

/// The date of an instant in a pinned zone is the one on which it falls there,
/// and the instant's key is the text of that date.
pub proof fn law_date_is_the_local_day(
    raw: &str,
    zone: BucketTimezone,
    timestamp_ms: i64,
    date: Option<CivilDate>,
    key: String,
)
    requires
        call_ensures(BucketTimezone::from_pinned_name, (Some(raw),), zone),
        call_ensures(BucketTimezone::date_at, (&zone, timestamp_ms), date),
        call_ensures(BucketTimezone::day_key, (&zone, timestamp_ms), key),
        has_zone_form(trimmed(raw@)) && tz_table_has(trimmed(raw@)),
    ensures
        date is Some <==> is_representable(timestamp_ms),
        date matches Some(date) ==> {
            let clock_ms = timestamp_ms + 1000 * zone_offset_seconds(trimmed(raw@), timestamp_ms);
            &&& date.is_valid()
            &&& 86_400_000 * date.day_number() <= clock_ms < 86_400_000 * (date.day_number() + 1)
            &&& key@ == date_text(date)
        },
{
    if let Some(date) = date {
        let clock_ms = timestamp_ms + 1000 * zone_offset_seconds(trimmed(raw@), timestamp_ms);
        law_civil_date(clock_ms / 86_400_000);
    }
}

/// Unpinned, the date of an instant is the one at an offset that the machine's
/// own zone gave for that very instant.
pub proof fn law_unpinned_date_follows_the_machine(timestamp_ms: i64, date: CivilDate)
    requires
        call_ensures(BucketTimezone::date_at, (&BucketTimezone::Local, timestamp_ms), Some(date)),
    ensures
        date.is_valid(),
        exists|offset: i32| #[trigger]
            is_local_offset(timestamp_ms, offset) && 86_400_000 * date.day_number() <= timestamp_ms
                + 1000 * offset < 86_400_000 * (date.day_number() + 1),
{
}

/// In a pinned zone two instants share a key exactly when they fall on the
/// same day there.
pub proof fn law_keys_tell_days_apart(
    zone: BucketTimezone,
    first_ms: i64,
    first_key: String,
    first_date: CivilDate,
    second_ms: i64,
    second_key: String,
    second_date: CivilDate,
)
    requires
        zone is Pinned,
        call_ensures(BucketTimezone::day_key, (&zone, first_ms), first_key),
        call_ensures(BucketTimezone::date_at, (&zone, first_ms), Some(first_date)),
        call_ensures(BucketTimezone::day_key, (&zone, second_ms), second_key),
        call_ensures(BucketTimezone::date_at, (&zone, second_ms), Some(second_date)),
    ensures
        first_key@ == second_key@ <==> first_date == second_date,
        first_date == second_date <==> first_date.day_number() == second_date.day_number(),
{
    law_civil_date(first_date.day_number());
    law_civil_date(second_date.day_number());
    law_date_text_is_injective(first_date, second_date);
    law_day_numbers_follow_the_calendar(first_date, second_date);
}

/// Today is the date of an instant that the machine's clock read: in a pinned
/// zone the date on which that instant falls there, unpinned the date at an
/// offset that the machine's own zone gave for it.
pub proof fn law_today_is_the_day_of_the_clock(zone: BucketTimezone, date: CivilDate)
    requires
        call_ensures(BucketTimezone::today, (&zone,), date),
    ensures
        date.is_valid(),
        exists|now: i64| #[trigger]
            is_clock_reading(now) && match zone {
                BucketTimezone::Pinned(pinned) => {
                    let clock_ms = now + 1000 * zone_offset_seconds(pinned@, now);
                    86_400_000 * date.day_number() <= clock_ms < 86_400_000 * (date.day_number()
                        + 1)
                },
                BucketTimezone::Local => exists|offset: i32| #[trigger]
                    is_local_offset(now, offset) && 86_400_000 * date.day_number() <= now + 1000
                        * offset < 86_400_000 * (date.day_number() + 1),
            },
{
}

/// In a pinned zone, today is the date that the zone shows at an instant that
/// the machine's clock read, and its text is that instant's key.
pub proof fn law_today_has_the_key_of_now(zone: BucketTimezone, date: CivilDate)
    requires
        zone is Pinned,
        call_ensures(BucketTimezone::today, (&zone,), date),
    ensures
        exists|now: i64| #[trigger]
            is_clock_reading(now) && (forall|key: String| #[trigger]
                call_ensures(BucketTimezone::day_key, (&zone, now), key) ==> key@ == date_text(
                    date,
                )),
{
    let zone_name = zone->Pinned_0@;
    let now = choose|now: i64| #[trigger]
        is_clock_reading(now) && date.day_number() == (now + 1000 * zone_offset_seconds(
            zone_name,
            now,
        )) / 86_400_000;
    law_clock_readings_come_from_the_clock(now);
    assert forall|key: String| #[trigger]
        call_ensures(BucketTimezone::day_key, (&zone, now), key) implies key@ == date_text(
        date,
    ) by {
        law_civil_date(date.day_number());
    }
}

/// Detection returns what the machine names, if the tz database knows it, and
/// nothing otherwise.
pub proof fn law_detection_returns_what_the_machine_names(name: Option<String>)
    requires
        call_ensures(detect_local_iana_name, (), name),
    ensures
        exists|found: Result<String, iana_time_zone::GetTimezoneError>| #[trigger]
            call_ensures(iana_time_zone::get_timezone, (), found) && (name is Some <==> (
            found matches Ok(found) && has_zone_form(found@) && tz_table_has(found@))) && (
            name matches Some(name) ==> (found matches Ok(found) && name@ == found@)),
{
}

/// A name that the machine gives is accepted as it stands, if the tz database
/// knows it, and not otherwise.
pub proof fn law_detected_names_are_looked_up(detected: Option<String>, name: Option<String>)
    requires
        call_ensures(accept_detected_name, (detected,), name),
    ensures
        name is Some <==> (detected matches Some(detected) && has_zone_form(detected@)
            && tz_table_has(detected@)),
        name matches Some(name) ==> (detected matches Some(detected) && name@ == detected@),
{
}

/// A detected name, recorded and read again, pins the zone of that name.
pub proof fn law_detected_names_pin_themselves(
    name: String,
    raw: &str,
    zone: BucketTimezone,
    pinned_name: Option<&'static str>,
)
    requires
        call_ensures(detect_local_iana_name, (), Some(name)),
        raw@ == name@,
        call_ensures(BucketTimezone::from_pinned_name, (Some(raw),), zone),
        call_ensures(BucketTimezone::pinned_name, (&zone,), pinned_name),
    ensures
        pinned_name matches Some(pinned_name) && pinned_name@ == name@,
{
    lemma_zone_names_are_trimmed(name@);
}

/// A key is accepted exactly when it spells `timezone`, up to white space
/// around it and the case of its ASCII letters. Any other is reported as it
/// was given.
pub proof fn law_only_timezone_is_a_key(key: &str, res: Result<&'static str, ConfigError>)
    requires
        call_ensures(normalize_key, (key,), res),
    ensures
        match res {
            Ok(known) => known@ == "timezone"@ && lowered(trimmed(key@)) == "timezone"@,
            Err(ConfigError::UnknownKey { key: given }) => given@ == key@ && lowered(trimmed(key@))
                != "timezone"@,
            Err(_) => false,
        },
{
    lemma_known_key(key@);
}

proof fn lemma_known_key(key: Seq<char>)
    ensures
        crate::config::normalized_key(key) is Some <==> lowered(trimmed(key)) == "timezone"@,
{
    assert(crate::config::known_keys()[0] == "timezone"@);
}

proof fn lemma_auto(value: Seq<char>)
    ensures
        crate::config::is_auto(value) <==> lowered(trimmed(value)) == "auto"@,
{
    reveal_strlit("auto");
    assert(lowered("auto"@) =~= "auto"@);
}

/// Settings are admitted for writing as they are, and exactly when they may be
/// written over.
pub proof fn law_unreadable_settings_are_refused(
    settings: Settings,
    safe_to_overwrite: bool,
    res: Result<Settings, ConfigError>,
)
    requires
        call_ensures(load_for_write, (settings, safe_to_overwrite), res),
    ensures
        match res {
            Ok(admitted) => safe_to_overwrite && admitted == settings,
            Err(error) => !safe_to_overwrite && error is UnreadableSettings,
        },
{
}

/// A value stands for itself without the white space around it, if that is a
/// name of the tz database, and is refused otherwise; only `auto`, in any
/// case, stands for what was detected.
pub proof fn law_values_resolve_to_zone_names(
    value: &str,
    detected: Option<String>,
    res: Result<String, ConfigError>,
)
    requires
        call_ensures(resolve_timezone_value_with, (value, detected), res),
    ensures
        if lowered(trimmed(value@)) == "auto"@ {
            match res {
                Ok(name) => detected matches Some(detected) && name@ == detected@,
                Err(error) => detected is None && error is UndetectedTimezone,
            }
        } else {
            match res {
                Ok(name) => name@ == trimmed(value@) && has_zone_form(name@) && tz_table_has(
                    name@,
                ),
                Err(ConfigError::UnknownTimezone { value: given }) => given@ == trimmed(value@)
                    && !(has_zone_form(given@) && tz_table_has(given@)),
                Err(_) => false,
            }
        },
{
    lemma_auto(value@);
}

/// A value other than `auto` resolves as above, whatever the machine is;
/// `auto` resolves to what the machine names, if the tz database knows it.
pub proof fn law_auto_asks_the_machine(value: &str, res: Result<String, ConfigError>)
    requires
        call_ensures(resolve_timezone_value, (value,), res),
    ensures
        lowered(trimmed(value@)) == "auto"@ ==> exists|
            found: Result<String, iana_time_zone::GetTimezoneError>,
        | #[trigger]
            call_ensures(iana_time_zone::get_timezone, (), found) && match res {
                Ok(name) => found matches Ok(found) && name@ == found@ && has_zone_form(found@)
                    && tz_table_has(found@),
                Err(error) => error is UndetectedTimezone && !(found matches Ok(found)
                    && has_zone_form(found@) && tz_table_has(found@)),
            },
        lowered(trimmed(value@)) != "auto"@ ==> match res {
            Ok(name) => name@ == trimmed(value@) && has_zone_form(name@) && tz_table_has(name@),
            Err(ConfigError::UnknownTimezone { value: given }) => given@ == trimmed(value@) && !(
            has_zone_form(given@) && tz_table_has(given@)),
            Err(_) => false,
        },
{
    lemma_auto(value@);
}

/// For a known key `get` prints the configured name, whole and with nothing
/// but a line end behind it; where none is configured it says so and warns.
pub proof fn law_get_prints_the_configured_name(
    key: &str,
    settings: &Settings,
    res: Result<Report, ConfigError>,
)
    requires
        call_ensures(run_get, (key, settings), res),
    ensures
        match res {
            Ok(report) => {
                &&& lowered(trimmed(key@)) == "timezone"@
                &&& match settings.scanner.bucket_timezone {
                    Some(zone) => {
                        &&& printed(report.out@) == zone@ + "\n"@
                        &&& report.err@.len() == 0
                        &&& forall|i: int|
                            0 <= i < report.out@.len() ==> (#[trigger] report.out@[i]).style
                                is Plain
                    },
                    None => {
                        &&& printed(report.out@) == "(unset)"@ + "\n"@
                        &&& report.err@
                            == "No bucketing timezone is pinned. Day boundaries follow this machine's current timezone and will move if it changes.\n"@
                        &&& report.out@[0].style is Dimmed
                        &&& report.out@[0].text@ == "(unset)"@
                    },
                }
            },
            Err(ConfigError::UnknownKey { key: given }) => given@ == key@ && lowered(trimmed(key@))
                != "timezone"@,
            Err(_) => false,
        },
{
    lemma_known_key(key@);
    if let Ok(report) = res {
        let wanted = get_report(settings@);
        assert(report@ == wanted);
        lemma_pieces(report);
        reveal_with_fuel(text_of_first, 3);
        assert(report.out@.len() == 2);
        assert(printed(report.out@) =~= report.out@[0].text@ + report.out@[1].text@);
    }
}

/// `report` is what `set` says when `zone` takes the place of `previous`.
spec fn tells_of_the_pin(
    report: Report,
    previous: Option<String>,
    zone: Seq<char>,
) -> bool {
    let head = "set"@ + " timezone = "@ + zone + "\n"@;
    &&& report.out@[0].style is Done && report.out@[0].text@ == "set"@
    &&& report.out@[2].style is Strong && report.out@[2].text@ == zone
    &&& forall|i: int|
        0 <= i < report.out@.len() && i != 0 && i != 2 ==> (#[trigger] report.out@[i]).style
            is Plain
    &&& match previous {
        Some(previous) => if previous@ == zone {
            &&& printed(report.out@) == head + "(unchanged)\n"@
            &&& report.err@.len() == 0
        } else {
            &&& printed(report.out@) == head + "  was: "@ + previous@ + "\n"@
            &&& report.err@ == "Day boundaries move to "@ + zone
                + ". The next scan re-splits history across days one final time, then stays stable.\n"@
        },
        None => {
            &&& printed(report.out@) == head
            &&& report.err@ == "Day boundaries are now fixed to "@ + zone
                + " and no longer follow this machine's timezone.\n"@
        },
    }
}

proof fn lemma_set_report(report: Report, settings: Settings, zone: Seq<char>)
    requires
        report@ == set_report(settings@, zone),
    ensures
        tells_of_the_pin(report, settings.scanner.bucket_timezone, zone),
{
    lemma_pieces(report);
    reveal_with_fuel(text_of_first, 8);
    let out = report.out@;
    let head = "set"@ + " timezone = "@ + zone + "\n"@;
    assert(text_of_first(out, 4) =~= head);
    match settings.scanner.bucket_timezone {
        Some(previous) => {
            if previous@ == zone {
                assert(out.len() == 5);
                assert(printed(out) =~= head + "(unchanged)\n"@);
            } else {
                assert(out.len() == 7);
                assert(printed(out) =~= head + "  was: "@ + previous@ + "\n"@);
            }
        },
        None => {
            assert(out.len() == 4);
        },
    }
}

/// Pinning a zone records exactly its name and tells of the change.
pub proof fn law_pinning_records_the_zone(settings: Settings, zone: String, change: Change)
    requires
        call_ensures(pin_zone, (settings, zone), change),
    ensures
        change.settings.scanner.bucket_timezone matches Some(recorded) && recorded@ == zone@,
        ({
            &&& change.report.out@[0].style is Done && change.report.out@[0].text@ == "set"@
            &&& change.report.out@[2].style is Strong && change.report.out@[2].text@ == zone@
            &&& forall|i: int|
                0 <= i < change.report.out@.len() && i != 0 && i != 2 ==> (
                #[trigger] change.report.out@[i]).style is Plain
            &&& match settings.scanner.bucket_timezone {
                Some(previous) => if previous@ == zone@ {
                    &&& printed(change.report.out@) == "set"@ + " timezone = "@ + zone@ + "\n"@ + "(unchanged)\n"@
                    &&& change.report.err@.len() == 0
                } else {
                    &&& printed(change.report.out@) == "set"@ + " timezone = "@ + zone@ + "\n"@ + "  was: "@ + previous@
                        + "\n"@
                    &&& change.report.err@ == "Day boundaries move to "@ + zone@
                        + ". The next scan re-splits history across days one final time, then stays stable.\n"@
                },
                None => {
                    &&& printed(change.report.out@) == "set"@ + " timezone = "@ + zone@ + "\n"@
                    &&& change.report.err@ == "Day boundaries are now fixed to "@ + zone@
                        + " and no longer follow this machine's timezone.\n"@
                },
            }
        }),
{
    lemma_set_report(change.report, settings, zone@);
}

/// `set` succeeds exactly for a known key, settings that may be written and a
/// value that stands for a zone, judged in this order. It then records the
/// zone's name, which is the value without the white space around it, or for
/// `auto` what the machine names, and tells of the change.
pub proof fn law_set_records_the_zone(
    key: &str,
    value: &str,
    settings: Settings,
    safe_to_overwrite: bool,
    res: Result<Change, ConfigError>,
)
    requires
        call_ensures(run_set, (key, value, settings, safe_to_overwrite), res),
    ensures
        if lowered(trimmed(key@)) != "timezone"@ {
            res matches Err(ConfigError::UnknownKey { key: given }) && given@ == key@
        } else if !safe_to_overwrite {
            res matches Err(error) && error is UnreadableSettings
        } else if lowered(trimmed(value@)) != "auto"@ {
            if has_zone_form(trimmed(value@)) && tz_table_has(trimmed(value@)) {
                &&& res matches Ok(change)
                &&& change.settings.scanner.bucket_timezone matches Some(recorded)
                &&& recorded@ == trimmed(value@)
            } else {
                res matches Err(ConfigError::UnknownTimezone { value: given }) && given@ == trimmed(
                    value@,
                )
            }
        } else {
            exists|found: Result<String, iana_time_zone::GetTimezoneError>| #[trigger]
                call_ensures(iana_time_zone::get_timezone, (), found) && match res {
                    Ok(change) => {
                        &&& found matches Ok(found)
                        &&& has_zone_form(found@) && tz_table_has(found@)
                        &&& change.settings.scanner.bucket_timezone matches Some(recorded)
                        &&& recorded@ == found@
                    },
                    Err(error) => error is UndetectedTimezone && !(found matches Ok(found)
                        && has_zone_form(found@) && tz_table_has(found@)),
                }
        },
        res matches Ok(change) ==> {
            &&& change.settings.scanner.bucket_timezone matches Some(recorded)
            &&& change.report.out@[0].style is Done && change.report.out@[0].text@ == "set"@
            &&& change.report.out@[2].style is Strong && change.report.out@[2].text@ == recorded@
            &&& forall|i: int|
                0 <= i < change.report.out@.len() && i != 0 && i != 2 ==> (
                #[trigger] change.report.out@[i]).style is Plain
            &&& match settings.scanner.bucket_timezone {
                Some(previous) => if previous@ == recorded@ {
                    &&& printed(change.report.out@) == "set"@ + " timezone = "@ + recorded@ + "\n"@ + "(unchanged)\n"@
                    &&& change.report.err@.len() == 0
                } else {
                    &&& printed(change.report.out@) == "set"@ + " timezone = "@ + recorded@ + "\n"@ + "  was: "@ + previous@
                        + "\n"@
                    &&& change.report.err@ == "Day boundaries move to "@ + recorded@
                        + ". The next scan re-splits history across days one final time, then stays stable.\n"@
                },
                None => {
                    &&& printed(change.report.out@) == "set"@ + " timezone = "@ + recorded@ + "\n"@
                    &&& change.report.err@ == "Day boundaries are now fixed to "@ + recorded@
                        + " and no longer follow this machine's timezone.\n"@
                },
            }
        },
{
    lemma_known_key(key@);
    lemma_auto(value@);
    if let Ok(change) = res {
        if change@.configured is Some {
            let zone = change@.configured->0;
            if change.report@ == set_report(settings@, zone) {
                lemma_set_report(change.report, settings, zone);
            }
        }
    }
}

/// `unset` succeeds exactly for a known key and settings that may be written.
/// It then leaves no name configured and tells what was.
pub proof fn law_unset_leaves_no_name(
    key: &str,
    settings: Settings,
    safe_to_overwrite: bool,
    res: Result<Change, ConfigError>,
)
    requires
        call_ensures(run_unset, (key, settings, safe_to_overwrite), res),
    ensures
        if lowered(trimmed(key@)) != "timezone"@ {
            res matches Err(ConfigError::UnknownKey { key: given }) && given@ == key@
        } else if !safe_to_overwrite {
            res matches Err(error) && error is UnreadableSettings
        } else {
            &&& res matches Ok(change)
            &&& change.settings.scanner.bucket_timezone is None
            &&& change.report.err@
                == "The next tokscale run re-pins this machine's current timezone. Use `tokscale config set timezone <zone>` to choose one explicitly.\n"@
            &&& match settings.scanner.bucket_timezone {
                Some(previous) => {
                    &&& printed(change.report.out@) == "unset"@ + " timezone (was "@ + previous@
                        + ")\n"@
                    &&& change.report.out@[0].style is Done
                    &&& change.report.out@[0].text@ == "unset"@
                    &&& forall|i: int|
                        0 < i < change.report.out@.len() ==> (
                        #[trigger] change.report.out@[i]).style is Plain
                },
                None => {
                    &&& printed(change.report.out@) == "timezone was already unset\n"@
                    &&& forall|i: int|
                        0 <= i < change.report.out@.len() ==> (
                        #[trigger] change.report.out@[i]).style is Plain
                },
            }
        },
{
    lemma_known_key(key@);
    if let Ok(change) = res {
        let report = change.report;
        let wanted = unset_report(settings@);
        assert(report@ == wanted);
        lemma_pieces(report);
        reveal_with_fuel(text_of_first, 5);
        let out = report.out@;
        match settings.scanner.bucket_timezone {
            Some(previous) => {
                assert(out.len() == 4);
                assert(printed(out) =~= "unset"@ + " timezone (was "@ + previous@ + ")\n"@);
            },
            None => {
                assert(out.len() == 1);
                assert(printed(out) =~= "timezone was already unset\n"@);
            },
        }
    }
}

/// `list` prints the key, filled up with blanks to twelve columns, one more
/// blank, and the configured name or that there is none.
pub proof fn law_list_prints_every_setting(settings: &Settings, report: Report)
    requires
        call_ensures(run_list, (settings,), report),
    ensures
        printed(report.out@) == "timezone"@ + seq![' ', ' ', ' ', ' '] + seq![' '] + (
        match settings.scanner.bucket_timezone {
            Some(zone) => zone@,
            None => "(unset)"@,
        }) + "\n"@,
        report.err@.len() == 0,
        forall|i: int|
            0 <= i < report.out@.len() ==> (#[trigger] report.out@[i]).style is Plain,
{
    let wanted = list_report(settings@);
    assert(report@ == wanted);
    lemma_pieces(report);
    reveal_with_fuel(text_of_first, 4);
    reveal_strlit("timezone");
    reveal_strlit("timezone     ");
    let out = report.out@;
    assert(out.len() == 3);
    assert("timezone     "@ =~= "timezone"@ + seq![' ', ' ', ' ', ' '] + seq![' ']);
    assert(printed(out) =~= out[0].text@ + out[1].text@ + out[2].text@);
}

/// A refusal names the key or the value that was refused and says what to do.
pub proof fn law_refusals_name_what_was_refused(error: ConfigError, text: String)
    requires
        call_ensures(ConfigError::message, (&error,), text),
    ensures
        match error {
            ConfigError::UnknownKey { key } => text@ == "unknown config key `"@ + key@
                + "` (known keys: "@ + "timezone"@ + ")"@,
            ConfigError::UnreadableSettings => text@
                == "could not read this machine's tokscale settings, so writing them would replace every setting with a default. Check that the config directory is readable and writable, and that settings.json in it is valid JSON."@,
            ConfigError::UndetectedTimezone => text@
                == "could not determine this machine's IANA timezone name — pass one explicitly, e.g. `tokscale config set timezone Asia/Seoul`"@,
            ConfigError::UnknownTimezone { value } => text@ == "`"@ + value@
                + "` is not a known IANA timezone name (expected something like `Asia/Seoul` or `America/New_York`). Fixed UTC offsets are not accepted: they cannot follow daylight saving time, so a pinned offset would drift off local midnight twice a year."@,
        },
{
}

/// What `get` prints after `set` is the name that was set, and a scan buckets
/// into the zone of that name.
pub proof fn law_get_prints_what_set_recorded(
    key: &str,
    value: &str,
    settings: Settings,
    safe_to_overwrite: bool,
    change: Change,
    later_key: &str,
    report: Report,
    zone: BucketTimezone,
    name: Option<&'static str>,
)
    requires
        call_ensures(run_set, (key, value, settings, safe_to_overwrite), Ok(change)),
        call_ensures(run_get, (later_key, &change.settings), Ok(report)),
        call_ensures(BucketTimezone::from_scanner_settings, (&change.settings.scanner,), zone),
        call_ensures(BucketTimezone::pinned_name, (&zone,), name),
    ensures
        name matches Some(name) && printed(report.out@) == name@ + "\n"@,
        lowered(trimmed(value@)) != "auto"@ ==> printed(report.out@) == trimmed(value@) + "\n"@,
{
    law_set_records_the_zone(key, value, settings, safe_to_overwrite, Ok(change));
    law_get_prints_the_configured_name(later_key, &change.settings, Ok(report));
    let recorded = change.settings.scanner.bucket_timezone->0@;
    law_trim_is_idempotent(value@);
    lemma_zone_names_are_trimmed(recorded);
}

/// After `unset` nothing is pinned, and `get` says so.
pub proof fn law_get_finds_nothing_after_unset(
    key: &str,
    settings: Settings,
    safe_to_overwrite: bool,
    change: Change,
    later_key: &str,
    report: Report,
    zone: BucketTimezone,
)
    requires
        call_ensures(run_unset, (key, settings, safe_to_overwrite), Ok(change)),
        call_ensures(run_get, (later_key, &change.settings), Ok(report)),
        call_ensures(BucketTimezone::from_scanner_settings, (&change.settings.scanner,), zone),
    ensures
        printed(report.out@) == "(unset)"@ + "\n"@,
        zone is Local,
{
    law_unset_leaves_no_name(key, settings, safe_to_overwrite, Ok(change));
    law_get_prints_the_configured_name(later_key, &change.settings, Ok(report));
}

} // verus!
