//! Named zones of the tz database, and instants seen on a local clock.

use chrono::{Datelike, Offset, TimeZone};
use vstd::prelude::*;

use crate::calendar::CivilDate;

verus! {

/// The first millisecond since the Unix epoch that has a date.
pub const MIN_TIMESTAMP_MS: i64 = -8_334_601_228_800_000;

/// The last millisecond since the Unix epoch that has a date.
pub const MAX_TIMESTAMP_MS: i64 = 8_210_266_876_799_999;

/// The pattern of a day key: year, month and day, with a hyphen between them.
pub const DAY_KEY_PATTERN: &'static str = "%Y-%m-%d";

/// The instant lies in the range that has dates: the years -262143 to 262142
/// in UTC.
pub open spec fn is_representable(timestamp_ms: i64) -> bool {
    MIN_TIMESTAMP_MS <= timestamp_ms <= MAX_TIMESTAMP_MS
}

/// An offset from UTC of less than a day.
pub open spec fn is_utc_offset(offset_seconds: i32) -> bool {
    -86_400 < offset_seconds < 86_400
}

/// The day number that a clock `offset_seconds` ahead of UTC shows at an
/// instant.
pub open spec fn local_day(timestamp_ms: i64, offset_seconds: i32) -> int {
    (timestamp_ms + 1000 * offset_seconds) / 86_400_000
}

/// The date that a clock `offset_seconds` ahead of UTC shows at an instant.
pub open spec fn local_date(timestamp_ms: i64, offset_seconds: i32) -> CivilDate {
    crate::calendar::civil_date(local_day(timestamp_ms, offset_seconds))
}

/// An instant together with the UTC offset of the clock it is read from.
#[derive(Debug, Clone, Copy, PartialEq, Eq, Structural)]
pub struct LocalInstant {
    /// Milliseconds since the Unix epoch.
    pub timestamp_ms: i64,
    /// How far the local clock is ahead of UTC.
    pub offset_seconds: i32,
}

impl LocalInstant {
    /// The instant has a date and the offset is less than a day.
    pub open spec fn is_valid(self) -> bool {
        is_representable(self.timestamp_ms) && is_utc_offset(self.offset_seconds)
    }

    /// The date on the local clock.
    pub open spec fn date(self) -> CivilDate {
        local_date(self.timestamp_ms, self.offset_seconds)
    }
}

pub open spec fn is_zone_char(c: char) -> bool {
    ||| 'A' <= c <= 'Z'
    ||| 'a' <= c <= 'z'
    ||| '0' <= c <= '9'
    ||| c == '/'
    ||| c == '_'
    ||| c == '+'
    ||| c == '-'
}

/// The text is `UTC` followed by a sign, as in `UTC+9`.
pub open spec fn is_offset_from_utc(text: Seq<char>) -> bool {
    &&& text.len() > 3
    &&& text[0] == 'U' && text[1] == 'T' && text[2] == 'C'
    &&& text[3] == '+' || text[3] == '-'
}

/// The form that every zone name has: a capital letter first, then letters,
/// digits, `/`, `_`, `+` and `-`. None of them spells `auto`, in any case, and
/// none has a sign behind an initial `UTC`.
pub open spec fn has_zone_form(name: Seq<char>) -> bool {
    &&& name.len() > 0
    &&& 'A' <= name[0] <= 'Z'
    &&& forall|i: int| 0 <= i < name.len() ==> is_zone_char(#[trigger] name[i])
    &&& crate::text::lowered(name) != crate::text::lowered("auto"@)
    &&& !is_offset_from_utc(name)
}

/// Whether the table of the tz database holds an entry under `name`.
pub uninterp spec fn tz_table_has(name: Seq<char>) -> bool;

/// The seconds by which the zone `name` is ahead of UTC at an instant.
pub uninterp spec fn zone_offset_seconds(name: Seq<char>, timestamp_ms: i64) -> i32;

/// `name` is a zone of the tz database.
pub open spec fn is_known_zone(name: Seq<char>) -> bool {
    has_zone_form(name) && tz_table_has(name)
}

/// What the clock of the zone `name` shows at an instant.
pub open spec fn zone_instant(name: Seq<char>, timestamp_ms: i64) -> LocalInstant {
    LocalInstant { timestamp_ms, offset_seconds: zone_offset_seconds(name, timestamp_ms) }
}

#[verifier::external_type_specification]
#[verifier::external_body]
pub struct ExZoneParseError(chrono_tz::ParseError);

/// Looks `name` up with `chrono_tz::Tz::from_str` and returns `Tz::name` of
/// the zone found.
///
/// The lookup succeeds exactly for the names in the crate's table, letter for
/// letter. Each of them has the form of [`has_zone_form`], and the zone found
/// under a name goes by that very name.
#[verifier::external_body]
fn lookup_zone(name: &str) -> (res: Result<&'static str, chrono_tz::ParseError>)
    ensures
        res.is_ok() == (has_zone_form(name@) && tz_table_has(name@)),
        res matches Ok(canonical) ==> canonical@ == name@,
{
    name.parse::<chrono_tz::Tz>().map(|tz| tz.name())
}

/// Places an instant in a named zone with `TimeZone::timestamp_millis_opt` of
/// `chrono_tz::Tz`.
///
/// An instant in chrono's range is placed, at the offset that the zone's rules
/// give for it, which is less than a day; any other instant is not. What the
/// rules of a zone say is left to the tz database.
#[verifier::external_body]
fn place_in_zone(name: &str, timestamp_ms: i64) -> (res: Option<LocalInstant>)
    requires
        is_known_zone(name@),
    ensures
        res is Some <==> is_representable(timestamp_ms),
        res matches Some(instant) ==> {
            &&& instant.is_valid()
            &&& instant.timestamp_ms == timestamp_ms
            &&& instant.offset_seconds == zone_offset_seconds(name@, timestamp_ms)
        },
{
    let tz = name.parse::<chrono_tz::Tz>().ok()?;
    let time = tz.timestamp_millis_opt(timestamp_ms).single()?;
    Some(LocalInstant {
        timestamp_ms: time.timestamp_millis(),
        offset_seconds: time.offset().fix().local_minus_utc(),
    })
}

/// Places an instant in the machine's own zone with
/// `TimeZone::timestamp_millis_opt` of `chrono::Local`.
///
/// An instant in chrono's range is placed, at some offset of less than a day;
/// any other instant is not. The offset is the machine's to choose, and two
/// calls may see different ones. chrono panics where the machine's own zone
/// data is unusable, such as one with an offset of a day or more.
#[verifier::external_body]
pub(crate) fn place_in_local_zone(timestamp_ms: i64) -> (res: Option<LocalInstant>)
    ensures
        res is Some <==> is_representable(timestamp_ms),
        res matches Some(instant) ==> instant.is_valid() && instant.timestamp_ms == timestamp_ms,
{
    let time = chrono::Local.timestamp_millis_opt(timestamp_ms).single()?;
    Some(LocalInstant {
        timestamp_ms: time.timestamp_millis(),
        offset_seconds: time.offset().fix().local_minus_utc(),
    })
}

/// Reads the local date of an instant with `Datelike::year`, `month` and `day`
/// of `chrono::DateTime<FixedOffset>`: the date of the proleptic Gregorian
/// calendar on the local clock.
#[verifier::external_body]
pub(crate) fn date_of(instant: &LocalInstant) -> (date: CivilDate)
    requires
        instant.is_valid(),
    ensures
        date.is_valid(),
        date.day_number() == local_day(instant.timestamp_ms, instant.offset_seconds),
{
    let offset = chrono::FixedOffset::east_opt(instant.offset_seconds).unwrap();
    let time = offset.timestamp_millis_opt(instant.timestamp_ms).unwrap();
    CivilDate { year: time.year(), month: time.month(), day: time.day() }
}

/// Formats the local date of an instant with
/// `chrono::DateTime<FixedOffset>::format` and the day key pattern.
///
/// The pattern writes the year with at least four digits, and with a sign
/// outside 0 to 9999, then the month and the day with two digits each.
#[verifier::external_body]
pub(crate) fn format_instant(instant: &LocalInstant, pattern: &str) -> (text: String)
    requires
        instant.is_valid(),
        pattern@ == DAY_KEY_PATTERN@,
    ensures
        text@ == crate::calendar::date_text(instant.date()),
{
    let offset = chrono::FixedOffset::east_opt(instant.offset_seconds).unwrap();
    let time = offset.timestamp_millis_opt(instant.timestamp_ms).unwrap();
    time.format(pattern).to_string()
}

/// Reads the machine's clock with `chrono::Utc::now`, in milliseconds since
/// the Unix epoch. Whatever instant comes back, it is in chrono's range. chrono
/// panics where the machine's clock stands before the epoch or past that range.
#[verifier::external_body]
pub(crate) fn utc_now_ms() -> (now: i64)
    ensures
        is_representable(now),
{
    chrono::Utc::now().timestamp_millis()
}

/// `now` is what the machine's clock read when it was asked.
pub closed spec fn is_clock_reading(now: i64) -> bool {
    call_ensures(utc_now_ms, (), now)
}

/// `offset_seconds` is what the machine's own zone gave when it was asked
/// about this very instant.
pub closed spec fn is_local_offset(timestamp_ms: i64, offset_seconds: i32) -> bool {
    call_ensures(
        place_in_local_zone,
        (timestamp_ms,),
        Some(LocalInstant { timestamp_ms, offset_seconds }),
    )
}

/// A clock reading comes from the machine's clock and from nowhere else.
pub(crate) proof fn law_clock_readings_come_from_the_clock(now: i64)
    ensures
        is_clock_reading(now) <==> call_ensures(utc_now_ms, (), now),
        is_clock_reading(now) ==> is_representable(now),
{
}

/// An offset of the machine's zone comes from asking that zone about the
/// instant, and from nowhere else.
pub(crate) proof fn law_local_offsets_come_from_the_machine(
    timestamp_ms: i64,
    offset_seconds: i32,
)
    ensures
        is_local_offset(timestamp_ms, offset_seconds) <==> call_ensures(
            place_in_local_zone,
            (timestamp_ms,),
            Some(LocalInstant { timestamp_ms, offset_seconds }),
        ),
        is_local_offset(timestamp_ms, offset_seconds) ==> is_utc_offset(offset_seconds),
{
}

/// A zone of the tz database.
#[derive(Debug, Clone, Copy, PartialEq, Eq)]
pub struct Zone {
    name: &'static str,
}

impl View for Zone {
    type V = Seq<char>;

    /// The zone's name.
    closed spec fn view(&self) -> Seq<char> {
        self.name@
    }
}

impl Zone {
    #[verifier::type_invariant]
    spec fn is_in_database(self) -> bool {
        is_known_zone(self.name@)
    }

    /// Finds the zone that goes by `name`.
    pub fn find(name: &str) -> (zone: Option<Zone>)
        ensures
            zone is Some <==> is_known_zone(name@),
            zone is Some <==> has_zone_form(name@) && tz_table_has(name@),
            zone matches Some(zone) ==> zone@ == name@,
    {
        match lookup_zone(name) {
            Ok(name) => Some(Zone { name }),
            Err(_) => None,
        }
    }

    /// The zone's name in the tz database.
    pub fn name(&self) -> (name: &'static str)
        ensures
            name@ == self@,
            is_known_zone(name@),
    {
        proof {
            use_type_invariant(self);
        }
        self.name
    }

    /// What this zone's clock shows at an instant, if the instant has a date.
    pub fn place(&self, timestamp_ms: i64) -> (res: Option<LocalInstant>)
        ensures
            res is Some <==> is_representable(timestamp_ms),
            res matches Some(instant) ==> instant.is_valid() && instant == zone_instant(
                self@,
                timestamp_ms,
            ),
            res matches Some(instant) ==> {
                &&& instant.timestamp_ms == timestamp_ms
                &&& instant.offset_seconds == zone_offset_seconds(self@, timestamp_ms)
            },
    {
        proof {
            use_type_invariant(self);
        }
        place_in_zone(self.name, timestamp_ms)
    }
}

/// A local day runs from one local midnight to the next.
pub proof fn law_days_start_at_local_midnight(timestamp_ms: i64, offset_seconds: i32)
    ensures
        ({
            let clock_ms = timestamp_ms + 1000 * offset_seconds;
            let day = local_day(timestamp_ms, offset_seconds);
            86_400_000 * day <= clock_ms < 86_400_000 * (day + 1)
        }),
{
}

/// No local clock is more than a day away from UTC.
pub proof fn law_local_days_stay_near_utc(instant: LocalInstant)
    requires
        instant.is_valid(),
    ensures
        ({
            let local = local_day(instant.timestamp_ms, instant.offset_seconds);
            let utc = local_day(instant.timestamp_ms, 0);
            utc - 1 <= local <= utc + 1
        }),
{
}

/// The local date of every valid instant exists, and its day number is the
/// local day.
pub proof fn law_local_date(instant: LocalInstant)
    requires
        instant.is_valid(),
    ensures
        instant.date().is_valid(),
        instant.date().day_number() == local_day(instant.timestamp_ms, instant.offset_seconds),
{
    crate::calendar::law_civil_date(local_day(instant.timestamp_ms, instant.offset_seconds));
}

/// A zone name has no white space to trim.
pub proof fn lemma_zone_names_are_trimmed(name: Seq<char>)
    requires
        is_known_zone(name),
    ensures
        crate::text::trimmed(name) == name,
{
    assert(is_zone_char(name[0]));
    assert(is_zone_char(name[name.len() - 1]));
}

} // verus!
