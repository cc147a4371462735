//! The timezone a scan buckets usage into.
//!
//! A named IANA zone is pinned rather than a fixed offset, because an offset
//! does not follow daylight saving time: pinned before a transition it stops
//! matching local midnight after it.
//!
//! [`BucketTimezone::Local`] is for a device that has never pinned a zone. Its
//! day keys follow the machine's zone, and callers skip rebucketing altogether
//! when [`BucketTimezone::is_pinned`] is false.

use vstd::prelude::*;

use crate::calendar::{civil_date, date_text, law_civil_date, law_date_text_is_injective,
    law_day_numbers_follow_the_calendar, CivilDate};
use crate::settings::ScannerSettings;
use crate::text::{is_blank, law_padding_is_ignored, lemma_trim_blank, slice_view, string_view,
    trimmed};
use crate::zone::{date_of, format_instant, has_zone_form, is_clock_reading, is_known_zone,
    is_local_offset, is_offset_from_utc, is_representable, is_utc_offset,
    law_clock_readings_come_from_the_clock, law_local_date,
    law_local_offsets_come_from_the_machine, lemma_zone_names_are_trimmed, local_date, local_day,
    place_in_local_zone, tz_table_has, utc_now_ms, zone_instant, zone_offset_seconds,
    LocalInstant, Zone, DAY_KEY_PATTERN};

verus! {

/// The zone a scan buckets its day keys into.
#[derive(Debug, Clone, Copy, PartialEq, Eq)]
pub enum BucketTimezone {
    /// No zone pinned. Day keys follow the machine's zone, read afresh.
    Local,
    /// A pinned IANA zone. Day keys are stable across rescans, relocations of
    /// the machine and changes of its zone.
    Pinned(Zone),
}

impl View for BucketTimezone {
    type V = Option<Seq<char>>;

    /// The name of the pinned zone.
    open spec fn view(&self) -> Option<Seq<char>> {
        match self {
            BucketTimezone::Local => None,
            BucketTimezone::Pinned(zone) => Some(zone@),
        }
    }
}

/// The zone that a configured name pins: the name without surrounding white
/// space, if the tz database knows it.
pub open spec fn pinned_zone(raw: Option<Seq<char>>) -> Option<Seq<char>> {
    match raw {
        Some(name) if is_known_zone(trimmed(name)) => Some(trimmed(name)),
        _ => None,
    }
}

/// `offset_seconds` may be the UTC offset of a bucketing zone at an instant:
/// for a pinned zone it is the one its rules give, for the machine's zone any.
/// At an instant that has a date it is less than a day.
pub open spec fn may_apply(
    zone: Option<Seq<char>>,
    timestamp_ms: i64,
    offset_seconds: i32,
) -> bool {
    &&& is_representable(timestamp_ms) ==> is_utc_offset(offset_seconds)
    &&& zone matches Some(name) ==> offset_seconds == zone_offset_seconds(name, timestamp_ms)
}

/// The day key of an instant on a clock `offset_seconds` ahead of UTC; empty
/// for an instant without a date.
pub open spec fn day_key_at(timestamp_ms: i64, offset_seconds: i32) -> Seq<char> {
    if is_representable(timestamp_ms) {
        date_text(local_date(timestamp_ms, offset_seconds))
    } else {
        Seq::empty()
    }
}

/// The day key of an instant in a named zone.
pub open spec fn zone_day_key(name: Seq<char>, timestamp_ms: i64) -> Seq<char> {
    day_key_at(timestamp_ms, zone_offset_seconds(name, timestamp_ms))
}

/// The date of an instant in a named zone.
pub open spec fn zone_date(name: Seq<char>, timestamp_ms: i64) -> CivilDate {
    local_date(timestamp_ms, zone_offset_seconds(name, timestamp_ms))
}

/// `date` is what a bucketing zone's clock may show at `timestamp_ms`.
pub open spec fn may_be_date_at(
    zone: Option<Seq<char>>,
    timestamp_ms: i64,
    date: CivilDate,
) -> bool {
    &&& is_representable(timestamp_ms)
    &&& exists|offset: i32| #[trigger]
        may_apply(zone, timestamp_ms, offset) && date == local_date(timestamp_ms, offset)
}

/// `key` is what a scan in a bucketing zone may key `timestamp_ms` by.
pub open spec fn may_be_day_key(
    zone: Option<Seq<char>>,
    timestamp_ms: i64,
    key: Seq<char>,
) -> bool {
    exists|offset: i32| #[trigger]
        may_apply(zone, timestamp_ms, offset) && key == day_key_at(timestamp_ms, offset)
}

impl Default for BucketTimezone {
    /// Nothing is pinned until a zone is chosen.
    fn default() -> (zone: Self)
        ensures
            zone is Local,
    {
        BucketTimezone::Local
    }
}

impl BucketTimezone {
    /// Resolves a configured zone name.
    ///
    /// An absent, blank or unknown name yields [`BucketTimezone::Local`]: a
    /// stale or mistyped setting must never break a scan.
    pub fn from_pinned_name(raw: Option<&str>) -> (zone: Self)
        ensures
            zone@ == pinned_zone(slice_view(raw)),
            match raw {
                Some(raw) => if has_zone_form(trimmed(raw@)) && tz_table_has(trimmed(raw@)) {
                    zone matches BucketTimezone::Pinned(found) && found@ == trimmed(raw@)
                } else {
                    zone is Local
                },
                None => zone is Local,
            },
    {
        let name = match raw {
            Some(raw) => raw.trim(),
            None => return BucketTimezone::Local,
        };
        if name.is_empty() {
            return BucketTimezone::Local;
        }
        match Zone::find(name) {
            Some(zone) => BucketTimezone::Pinned(zone),
            None => BucketTimezone::Local,
        }
    }

    /// Reads the pinned zone out of scanner settings.
    pub fn from_scanner_settings(settings: &ScannerSettings) -> (zone: Self)
        ensures
            zone@ == pinned_zone(settings@),
            match settings.bucket_timezone {
                Some(raw) => if has_zone_form(trimmed(raw@)) && tz_table_has(trimmed(raw@)) {
                    zone matches BucketTimezone::Pinned(found) && found@ == trimmed(raw@)
                } else {
                    zone is Local
                },
                None => zone is Local,
            },
    {
        match &settings.bucket_timezone {
            Some(name) => BucketTimezone::from_pinned_name(Some(name.as_str())),
            None => BucketTimezone::from_pinned_name(None),
        }
    }

    /// The canonical IANA name of the pinned zone, or `None` when unpinned.
    pub fn pinned_name(&self) -> (name: Option<&'static str>)
        ensures
            slice_view(name) == self@,
            name matches Some(name) ==> is_known_zone(name@),
            match *self {
                BucketTimezone::Local => name is None,
                BucketTimezone::Pinned(zone) => name matches Some(name) && name@ == zone@
                    && has_zone_form(name@) && tz_table_has(name@),
            },
    {
        match self {
            BucketTimezone::Local => None,
            BucketTimezone::Pinned(zone) => Some(zone.name()),
        }
    }

    /// Whether a zone is pinned.
    pub fn is_pinned(&self) -> (pinned: bool)
        ensures
            pinned == self@ is Some,
            pinned == *self is Pinned,
    {
        matches!(self, BucketTimezone::Pinned(_))
    }

    /// The instant on this zone's clock, if it has a date.
    fn place(&self, timestamp_ms: i64) -> (res: Option<LocalInstant>)
        ensures
            res is Some <==> is_representable(timestamp_ms),
            res matches Some(instant) ==> {
                &&& instant.is_valid()
                &&& instant.timestamp_ms == timestamp_ms
                &&& may_apply(self@, timestamp_ms, instant.offset_seconds)
                &&& match *self {
                    BucketTimezone::Local => is_local_offset(timestamp_ms, instant.offset_seconds),
                    BucketTimezone::Pinned(zone) => instant.offset_seconds == zone_offset_seconds(
                        zone@,
                        timestamp_ms,
                    ),
                }
            },
    {
        match self {
            BucketTimezone::Local => {
                let placed = place_in_local_zone(timestamp_ms);
                proof {
                    if let Some(instant) = placed {
                        law_local_offsets_come_from_the_machine(
                            timestamp_ms,
                            instant.offset_seconds,
                        );
                    }
                }
                placed
            },
            BucketTimezone::Pinned(zone) => zone.place(timestamp_ms),
        }
    }

    /// The date of an instant in this zone, if it has one.
    pub fn date_at(&self, timestamp_ms: i64) -> (date: Option<CivilDate>)
        ensures
            date is Some <==> is_representable(timestamp_ms),
            date matches Some(date) ==> date.is_valid() && may_be_date_at(
                self@,
                timestamp_ms,
                date,
            ),
            self@ matches Some(name) ==> (date matches Some(date) ==> {
                &&& date == zone_date(name, timestamp_ms)
                &&& zone_instant(name, timestamp_ms).is_valid()
            }),
            date matches Some(date) ==> match *self {
                BucketTimezone::Local => exists|offset: i32| #[trigger]
                    is_local_offset(timestamp_ms, offset) && date.day_number() == (timestamp_ms
                        + 1000 * offset) / 86_400_000,
                BucketTimezone::Pinned(zone) => date.day_number() == (timestamp_ms + 1000
                    * zone_offset_seconds(zone@, timestamp_ms)) / 86_400_000,
            },
    {
        match self.place(timestamp_ms) {
            Some(instant) => {
                let date = date_of(&instant);
                proof {
                    law_civil_date(local_day(instant.timestamp_ms, instant.offset_seconds));
                    assert(date == instant.date());
                    if *self is Local {
                        assert(is_local_offset(timestamp_ms, instant.offset_seconds));
                    }
                }
                Some(date)
            },
            None => None,
        }
    }

    /// Today's date in this zone.
    ///
    /// Filters by day select from the buckets' own keys, so both must agree on
    /// where a day starts; see [`law_dates_and_keys_agree`] and
    /// [`law_today_selects_its_bucket`].
    pub fn today(&self) -> (date: CivilDate)
        ensures
            date.is_valid(),
            exists|now: i64| #[trigger]
                may_be_date_at(self@, now, date) && (self@ matches Some(name) ==> {
                    &&& date == zone_date(name, now)
                    &&& zone_instant(name, now).is_valid()
                }),
            exists|now: i64| #[trigger]
                is_clock_reading(now) && match *self {
                    BucketTimezone::Local => exists|offset: i32| #[trigger]
                        is_local_offset(now, offset) && date.day_number() == (now + 1000 * offset)
                            / 86_400_000,
                    BucketTimezone::Pinned(zone) => date.day_number() == (now + 1000
                        * zone_offset_seconds(zone@, now)) / 86_400_000,
                },
    {
        let now: i64 = utc_now_ms();
        proof {
            law_clock_readings_come_from_the_clock(now);
        }
        match self.date_at(now) {
            Some(date) => date,
            None => vstd::pervasive::unreached(),
        }
    }

    /// The `YYYY-MM-DD` day key this instant falls in.
    pub fn day_key(&self, timestamp_ms: i64) -> (key: String)
        ensures
            may_be_day_key(self@, timestamp_ms, key@),
            self@ matches Some(name) ==> {
                &&& key@ == zone_day_key(name, timestamp_ms)
                &&& is_representable(timestamp_ms) ==> zone_instant(name, timestamp_ms).is_valid()
            },
            !is_representable(timestamp_ms) ==> key@.len() == 0,
            is_representable(timestamp_ms) ==> match *self {
                BucketTimezone::Local => exists|offset: i32| #[trigger]
                    is_local_offset(timestamp_ms, offset) && key@ == date_text(
                        civil_date((timestamp_ms + 1000 * offset) / 86_400_000),
                    ),
                BucketTimezone::Pinned(zone) => key@ == date_text(
                    civil_date(
                        (timestamp_ms + 1000 * zone_offset_seconds(zone@, timestamp_ms))
                            / 86_400_000,
                    ),
                ),
            },
    {
        let instant = self.place(timestamp_ms);
        let key = format_day_key(&instant);
        proof {
            let offset = match (self@, instant) {
                (_, Some(instant)) => instant.offset_seconds,
                (Some(name), None) => zone_offset_seconds(name, timestamp_ms),
                (None, None) => 0,
            };
            assert(may_apply(self@, timestamp_ms, offset));
            assert(key@ == day_key_at(timestamp_ms, offset));
            if *self is Local && is_representable(timestamp_ms) {
                assert(is_local_offset(timestamp_ms, offset));
            }
        }
        key
    }
}

/// Whether a name is configured that pins nothing, and so deserves a warning:
/// one that is not blank and that the tz database does not know.
pub fn is_unknown_name(raw: Option<&str>) -> (unknown: bool)
    ensures
        unknown == (slice_view(raw) matches Some(name) && trimmed(name).len() > 0
            && !is_known_zone(trimmed(name))),
        unknown == (raw matches Some(raw) && trimmed(raw@).len() > 0 && !(has_zone_form(
            trimmed(raw@),
        ) && tz_table_has(trimmed(raw@)))),
{
    match raw {
        Some(raw) => {
            let name = raw.trim();
            !name.is_empty() && Zone::find(name).is_none()
        },
        None => false,
    }
}

/// Formats a placed instant as a `YYYY-MM-DD` day key: the empty string for
/// one that could not be placed.
pub fn format_day_key(instant: &Option<LocalInstant>) -> (key: String)
    requires
        instant matches Some(instant) ==> instant.is_valid(),
    ensures
        match *instant {
            Some(instant) => key@ == date_text(instant.date()),
            None => key@ == Seq::<char>::empty(),
        },
        *instant matches Some(instant) ==> key@ == date_text(
            civil_date(
                (instant.timestamp_ms + 1000 * instant.offset_seconds) / 86_400_000,
            ),
        ),
{
    match instant {
        Some(instant) => format_instant(instant, DAY_KEY_PATTERN),
        None => String::new(),
    }
}

#[verifier::external_type_specification]
#[verifier::external_body]
pub struct ExGetTimezoneError(iana_time_zone::GetTimezoneError);

/// `iana_time_zone::get_timezone` reads the machine's configuration. Nothing
/// is claimed of the name it finds.
pub assume_specification[ iana_time_zone::get_timezone ]() -> (res: Result<
    String,
    iana_time_zone::GetTimezoneError,
>)
;

/// The zone that the machine named, if the tz database knows it.
///
/// A name that cannot be looked up could not be honoured by a later scan
/// either, and pinning it would mean to stay unpinned for good.
pub fn accept_detected_name(detected: Option<String>) -> (name: Option<String>)
    ensures
        string_view(name) == (match string_view(detected) {
            Some(detected) if is_known_zone(detected) => Some(detected),
            _ => None,
        }),
        match detected {
            Some(detected) => if has_zone_form(detected@) && tz_table_has(detected@) {
                name matches Some(name) && name@ == detected@
            } else {
                name is None
            },
            None => name is None,
        },
{
    match detected {
        Some(detected) => match Zone::find(detected.as_str()) {
            Some(zone) => Some(zone.name().to_string()),
            None => None,
        },
        None => None,
    }
}

/// The machine's current IANA zone name, if it can be determined.
///
/// `None` when the platform cannot name its zone. Callers must then not pin:
/// a fixed offset in its place could not follow daylight saving time.
pub fn detect_local_iana_name() -> (name: Option<String>)
    ensures
        name matches Some(name) ==> is_known_zone(name@) && pinned_zone(Some(name@)) == Some(
            name@,
        ),
        exists|found: Result<String, iana_time_zone::GetTimezoneError>| #[trigger]
            call_ensures(iana_time_zone::get_timezone, (), found) && match found {
                Ok(found) => if has_zone_form(found@) && tz_table_has(found@) {
                    name matches Some(name) && name@ == found@
                } else {
                    name is None
                },
                Err(_) => name is None,
            },
{
    let found = iana_time_zone::get_timezone();
    assert(call_ensures(iana_time_zone::get_timezone, (), found));
    let detected = match found {
        Ok(detected) => Some(detected),
        Err(_) => None,
    };
    let name = accept_detected_name(detected);
    proof {
        if name is Some {
            lemma_zone_names_are_trimmed(name->0@);
        }
    }
    name
}

/// An absent or blank name pins nothing.
pub proof fn law_blank_names_stay_unpinned(name: Seq<char>)
    requires
        is_blank(name),
    ensures
        pinned_zone(None) is None,
        pinned_zone(Some(name)) is None,
{
    lemma_trim_blank(name);
}

/// White space around a name does not change what it pins.
pub proof fn law_padded_names_pin_alike(before: Seq<char>, name: Seq<char>, after: Seq<char>)
    requires
        is_blank(before),
        is_blank(after),
    ensures
        pinned_zone(Some(before + name + after)) == pinned_zone(Some(name)),
{
    law_padding_is_ignored(before, name, after);
}

/// The name of a pinned zone, recorded and read again, pins the same zone.
pub proof fn law_pinned_name_pins_again(raw: Option<Seq<char>>)
    ensures
        pinned_zone(pinned_zone(raw)) == pinned_zone(raw),
{
    if let Some(name) = pinned_zone(raw) {
        lemma_zone_names_are_trimmed(name);
    }
}

/// The database's name of a zone pins that zone.
pub proof fn law_known_names_pin_themselves(name: Seq<char>)
    requires
        is_known_zone(name),
    ensures
        pinned_zone(Some(name)) == Some(name),
{
    lemma_zone_names_are_trimmed(name);
}

/// The text starts like a number, a signed offset or one from `UTC`, or has a
/// colon in it: `+09:00`, `-0500`, `9`, `UTC+9`.
pub open spec fn is_offset_like(text: Seq<char>) -> bool {
    &&& text.len() > 0
    &&& {
        ||| text[0] == '+'
        ||| text[0] == '-'
        ||| '0' <= text[0] <= '9'
        ||| text.contains(':')
        ||| is_offset_from_utc(text)
    }
}

/// Text that reads like a fixed offset pins nothing.
pub proof fn law_offsets_pin_nothing(name: Seq<char>)
    requires
        is_offset_like(trimmed(name)),
    ensures
        pinned_zone(Some(name)) is None,
{
    let t = trimmed(name);
    if is_known_zone(t) && t.contains(':') {
        let i = choose|i: int| 0 <= i < t.len() && t[i] == ':';
        assert(crate::zone::is_zone_char(t[i]));
    }
}

/// Two instants share a day key exactly when their local clocks show the same
/// day.
pub proof fn law_same_key_means_same_day(a: LocalInstant, b: LocalInstant)
    requires
        a.is_valid(),
        b.is_valid(),
    ensures
        day_key_at(a.timestamp_ms, a.offset_seconds) == day_key_at(
            b.timestamp_ms,
            b.offset_seconds,
        ) <==> local_day(a.timestamp_ms, a.offset_seconds) == local_day(
            b.timestamp_ms,
            b.offset_seconds,
        ),
{
    law_local_date(a);
    law_local_date(b);
    law_date_text_is_injective(a.date(), b.date());
    law_day_numbers_follow_the_calendar(a.date(), b.date());
}

/// In every zone, pinned or not, the text of today's date is the key of
/// exactly those instants that fall on the same local day as now.
pub proof fn law_today_selects_its_bucket(
    zone: Option<Seq<char>>,
    now: i64,
    now_offset: i32,
    timestamp_ms: i64,
    offset: i32,
)
    requires
        is_representable(now),
        may_apply(zone, now, now_offset),
        is_representable(timestamp_ms),
        may_apply(zone, timestamp_ms, offset),
    ensures
        date_text(local_date(now, now_offset)) == day_key_at(timestamp_ms, offset) <==> local_day(
            now,
            now_offset,
        ) == local_day(timestamp_ms, offset),
{
    law_same_key_means_same_day(
        LocalInstant { timestamp_ms: now, offset_seconds: now_offset },
        LocalInstant { timestamp_ms, offset_seconds: offset },
    );
}

/// However often and wherever a scan runs, a pinned zone keys an instant the
/// same way.
pub proof fn law_pinned_keys_are_stable(
    name: Seq<char>,
    timestamp_ms: i64,
    first: Seq<char>,
    second: Seq<char>,
)
    requires
        may_be_day_key(Some(name), timestamp_ms, first),
        may_be_day_key(Some(name), timestamp_ms, second),
    ensures
        first == second,
        first == zone_day_key(name, timestamp_ms),
{
}

/// In every zone, pinned or not, one reading of the clock gives a date and a
/// key that agree: the key is the text of the date.
pub proof fn law_key_is_text_of_date(zone: Option<Seq<char>>, timestamp_ms: i64, offset: i32)
    requires
        is_representable(timestamp_ms),
        may_apply(zone, timestamp_ms, offset),
    ensures
        day_key_at(timestamp_ms, offset) == date_text(local_date(timestamp_ms, offset)),
        zone matches Some(name) ==> zone_day_key(name, timestamp_ms) == date_text(
            zone_date(name, timestamp_ms),
        ),
        local_date(timestamp_ms, offset).is_valid(),
{
    law_local_date(LocalInstant { timestamp_ms, offset_seconds: offset });
}

/// Today and the day keys agree on where a day starts, in every zone: whatever
/// date a zone may show at an instant, its text is a key that the zone may
/// give the instant, and every such key is the text of such a date.
pub proof fn law_dates_and_keys_agree(zone: Option<Seq<char>>, timestamp_ms: i64)
    requires
        is_representable(timestamp_ms),
    ensures
        forall|date: CivilDate| #[trigger]
            may_be_date_at(zone, timestamp_ms, date) ==> may_be_day_key(
                zone,
                timestamp_ms,
                date_text(date),
            ),
        forall|key: Seq<char>| #[trigger]
            may_be_day_key(zone, timestamp_ms, key) ==> exists|date: CivilDate| #[trigger]
                may_be_date_at(zone, timestamp_ms, date) && date.is_valid() && key == date_text(
                    date,
                ),
{
    assert forall|key: Seq<char>| #[trigger] may_be_day_key(zone, timestamp_ms, key) implies exists|
        date: CivilDate,
    | #[trigger]
        may_be_date_at(zone, timestamp_ms, date) && date.is_valid() && key == date_text(date) by {
        let offset = choose|offset: i32| #[trigger]
            may_apply(zone, timestamp_ms, offset) && key == day_key_at(timestamp_ms, offset);
        law_key_is_text_of_date(zone, timestamp_ms, offset);
        assert(may_be_date_at(zone, timestamp_ms, local_date(timestamp_ms, offset)));
    }
}

/// Only an instant without a date has the empty key.
pub proof fn law_empty_key_means_no_date(timestamp_ms: i64, offset_seconds: i32)
    ensures
        day_key_at(timestamp_ms, offset_seconds).len() == 0 <==> !is_representable(timestamp_ms),
{
}

} // verus!
