//! The rules behind `tokscale config`: which keys it knows, which values they
//! take, and what reading, setting and unsetting one does.
//!
//! Loading, saving and printing are the caller's. A command here takes the
//! settings as loaded and returns what to save and what to say.

use vstd::prelude::*;

use crate::bucket_tz::{detect_local_iana_name, is_offset_like, law_known_names_pin_themselves,
    law_offsets_pin_nothing, pinned_zone, BucketTimezone};
use crate::report::{Report, ReportView, Style};
use crate::settings::Settings;
use crate::text::{is_blank, law_padding_is_ignored, law_trim_is_idempotent, lemma_trim_lowered,
    lowered, string_view, trimmed};
use crate::zone::{has_zone_form, is_known_zone, tz_table_has};

verus! {

/// The key of the pinned bucketing zone.
pub const TIMEZONE_KEY: &'static str = "timezone";

/// The value that asks for the machine's own zone.
pub const AUTO_VALUE: &'static str = "auto";

/// What stands in the place of a value that is not set.
pub const UNSET_TEXT: &'static str = "(unset)";

/// Why a command was refused.
#[derive(Debug, PartialEq, Eq)]
pub enum ConfigError {
    /// No setting goes by this key.
    UnknownKey { key: String },
    /// The settings could not be read, so they must not be written either.
    UnreadableSettings,
    /// The machine's zone could not be named.
    UndetectedTimezone,
    /// The tz database has no zone of this name.
    UnknownTimezone { value: String },
}

/// The contents of a [`ConfigError`].
pub ghost enum ConfigErrorView {
    UnknownKey(Seq<char>),
    UnreadableSettings,
    UndetectedTimezone,
    UnknownTimezone(Seq<char>),
}

impl View for ConfigError {
    type V = ConfigErrorView;

    open spec fn view(&self) -> ConfigErrorView {
        match self {
            ConfigError::UnknownKey { key } => ConfigErrorView::UnknownKey(key@),
            ConfigError::UnreadableSettings => ConfigErrorView::UnreadableSettings,
            ConfigError::UndetectedTimezone => ConfigErrorView::UndetectedTimezone,
            ConfigError::UnknownTimezone { value } => ConfigErrorView::UnknownTimezone(value@),
        }
    }
}

/// The settings that commands can address.
///
/// An explicit list rather than a path into the settings file, so that a typo
/// is rejected instead of writing a key that nothing reads.
pub open spec fn known_keys() -> Seq<Seq<char>> {
    seq![TIMEZONE_KEY@]
}

/// The texts of `items` with `separator` between them.
pub open spec fn joined(items: Seq<Seq<char>>, separator: Seq<char>) -> Seq<char>
    decreases items.len(),
{
    if items.len() == 0 {
        Seq::empty()
    } else if items.len() == 1 {
        items[0]
    } else {
        joined(items.drop_last(), separator) + separator + items.last()
    }
}

/// The known key that a user meant: white space around it and the case of
/// ASCII letters do not matter.
pub open spec fn normalized_key(key: Seq<char>) -> Option<Seq<char>> {
    if known_keys().contains(lowered(trimmed(key))) {
        Some(lowered(trimmed(key)))
    } else {
        None
    }
}

/// The value asks for the machine's own zone.
pub open spec fn is_auto(value: Seq<char>) -> bool {
    lowered(trimmed(value)) == lowered(AUTO_VALUE@)
}

/// The zone name that a user-supplied value stands for, when `detected` is
/// what the machine's zone was found to be.
pub open spec fn resolved_value(value: Seq<char>, detected: Option<Seq<char>>) -> Result<
    Seq<char>,
    ConfigErrorView,
> {
    if is_auto(value) {
        match detected {
            Some(name) => Ok(name),
            None => Err(ConfigErrorView::UndetectedTimezone),
        }
    } else {
        match pinned_zone(Some(value)) {
            Some(name) => Ok(name),
            None => Err(ConfigErrorView::UnknownTimezone(trimmed(value))),
        }
    }
}

/// What detection may come back with: nothing, or a zone of the database.
pub open spec fn may_be_detected(detected: Option<Seq<char>>) -> bool {
    detected matches Some(name) ==> is_known_zone(name)
}

/// The contents of a result whose value is text.
pub open spec fn text_result(res: Result<String, ConfigError>) -> Result<
    Seq<char>,
    ConfigErrorView,
> {
    match res {
        Ok(text) => Ok(text@),
        Err(error) => Err(error@),
    }
}

/// What a command that writes settings leaves to do.
#[derive(Debug, PartialEq, Eq)]
pub struct Change {
    /// The settings to save.
    pub settings: Settings,
    /// What to say once they are saved.
    pub report: Report,
}

/// The contents of a [`Change`]: the zone name then configured, and the
/// report.
pub ghost struct ChangeView {
    pub configured: Option<Seq<char>>,
    pub report: ReportView,
}

impl View for Change {
    type V = ChangeView;

    open spec fn view(&self) -> ChangeView {
        ChangeView { configured: self.settings@, report: self.report@ }
    }
}

/// The contents of what a writing command returns.
pub open spec fn change_result(res: Result<Change, ConfigError>) -> Result<
    ChangeView,
    ConfigErrorView,
> {
    match res {
        Ok(change) => Ok(change@),
        Err(error) => Err(error@),
    }
}

/// The contents of what a reading command returns.
pub open spec fn report_result(res: Result<Report, ConfigError>) -> Result<
    ReportView,
    ConfigErrorView,
> {
    match res {
        Ok(report) => Ok(report@),
        Err(error) => Err(error@),
    }
}

/// What `get` prints.
pub open spec fn get_report(configured: Option<Seq<char>>) -> ReportView {
    match configured {
        Some(zone) => ReportView {
            out: seq![(Style::Plain, zone), (Style::Plain, "\n"@)],
            err: Seq::empty(),
        },
        None => ReportView {
            out: seq![(Style::Dimmed, UNSET_TEXT@), (Style::Plain, "\n"@)],
            err: "No bucketing timezone is pinned. Day boundaries follow this machine's current timezone and will move if it changes.\n"@,
        },
    }
}

/// What `set` prints when the zone changes from `previous` to `zone`.
pub open spec fn set_report(previous: Option<Seq<char>>, zone: Seq<char>) -> ReportView {
    let head = seq![
        (Style::Done, "set"@),
        (Style::Plain, " timezone = "@),
        (Style::Strong, zone),
        (Style::Plain, "\n"@),
    ];
    match previous {
        Some(previous) if previous == zone => ReportView {
            out: head.push((Style::Plain, "(unchanged)\n"@)),
            err: Seq::empty(),
        },
        Some(previous) => ReportView {
            out: head + seq![
                (Style::Plain, "  was: "@),
                (Style::Plain, previous),
                (Style::Plain, "\n"@),
            ],
            err: "Day boundaries move to "@ + zone
                + ". The next scan re-splits history across days one final time, then stays stable.\n"@,
        },
        None => ReportView {
            out: head,
            err: "Day boundaries are now fixed to "@ + zone
                + " and no longer follow this machine's timezone.\n"@,
        },
    }
}

/// What `unset` prints when `previous` was configured.
pub open spec fn unset_report(previous: Option<Seq<char>>) -> ReportView {
    ReportView {
        out: match previous {
            Some(previous) => seq![
                (Style::Done, "unset"@),
                (Style::Plain, " timezone (was "@),
                (Style::Plain, previous),
                (Style::Plain, ")\n"@),
            ],
            None => seq![(Style::Plain, "timezone was already unset\n"@)],
        },
        err: "The next tokscale run re-pins this machine's current timezone. Use `tokscale config set timezone <zone>` to choose one explicitly.\n"@,
    }
}

/// What `list` prints: the key in a column of twelve, a space and the value.
pub open spec fn list_report(configured: Option<Seq<char>>) -> ReportView {
    ReportView {
        out: seq![
            (Style::Plain, "timezone     "@),
            (
                Style::Plain,
                match configured {
                    Some(zone) => zone,
                    None => UNSET_TEXT@,
                },
            ),
            (Style::Plain, "\n"@),
        ],
        err: Seq::empty(),
    }
}

/// The outcome of `get` on the settings as loaded.
pub open spec fn get_outcome(key: Seq<char>, configured: Option<Seq<char>>) -> Result<
    ReportView,
    ConfigErrorView,
> {
    if normalized_key(key) is None {
        Err(ConfigErrorView::UnknownKey(key))
    } else {
        Ok(get_report(configured))
    }
}

/// The outcome of `set` on the settings as loaded, when `detected` is what the
/// machine's zone was found to be. The key is judged first, then whether the
/// settings may be written, then the value.
pub open spec fn set_outcome(
    key: Seq<char>,
    value: Seq<char>,
    configured: Option<Seq<char>>,
    safe_to_overwrite: bool,
    detected: Option<Seq<char>>,
) -> Result<ChangeView, ConfigErrorView> {
    if normalized_key(key) is None {
        Err(ConfigErrorView::UnknownKey(key))
    } else if !safe_to_overwrite {
        Err(ConfigErrorView::UnreadableSettings)
    } else {
        match resolved_value(value, detected) {
            Ok(zone) => Ok(
                ChangeView { configured: Some(zone), report: set_report(configured, zone) },
            ),
            Err(error) => Err(error),
        }
    }
}

/// The outcome of `unset` on the settings as loaded.
pub open spec fn unset_outcome(
    key: Seq<char>,
    configured: Option<Seq<char>>,
    safe_to_overwrite: bool,
) -> Result<ChangeView, ConfigErrorView> {
    if normalized_key(key) is None {
        Err(ConfigErrorView::UnknownKey(key))
    } else if !safe_to_overwrite {
        Err(ConfigErrorView::UnreadableSettings)
    } else {
        Ok(ChangeView { configured: None, report: unset_report(configured) })
    }
}

/// The message that tells a user why a command was refused.
pub open spec fn error_text(error: ConfigErrorView) -> Seq<char> {
    match error {
        ConfigErrorView::UnknownKey(key) => "unknown config key `"@ + key + "` (known keys: "@
            + joined(known_keys(), ", "@) + ")"@,
        ConfigErrorView::UnreadableSettings => "could not read this machine's tokscale settings, so writing them would replace every setting with a default. Check that the config directory is readable and writable, and that settings.json in it is valid JSON."@,
        ConfigErrorView::UndetectedTimezone => "could not determine this machine's IANA timezone name — pass one explicitly, e.g. `tokscale config set timezone Asia/Seoul`"@,
        ConfigErrorView::UnknownTimezone(value) => "`"@ + value
            + "` is not a known IANA timezone name (expected something like `Asia/Seoul` or `America/New_York`). Fixed UTC offsets are not accepted: they cannot follow daylight saving time, so a pinned offset would drift off local midnight twice a year."@,
    }
}

fn known_key_list() -> (keys: Vec<&'static str>)
    ensures
        keys@.map_values(|key: &'static str| key@) == known_keys(),
{
    let keys = vec![TIMEZONE_KEY];
    assert(keys@.map_values(|key: &'static str| key@) =~= known_keys());
    keys
}

fn join(items: &Vec<&'static str>, separator: &str) -> (text: String)
    ensures
        text@ == joined(items@.map_values(|item: &'static str| item@), separator@),
{
    let ghost texts = items@.map_values(|item: &'static str| item@);
    let mut text = String::new();
    let mut i: usize = 0;
    assert(texts.take(0) =~= Seq::<Seq<char>>::empty());
    while i < items.len()
        invariant
            i <= items.len(),
            texts == items@.map_values(|item: &'static str| item@),
            text@ == joined(texts.take(i as int), separator@),
        decreases items.len() - i,
    {
        if i > 0 {
            text.append(separator);
        }
        text.append(items[i]);
        proof {
            assert(texts.take(i + 1).drop_last() =~= texts.take(i as int));
            assert(texts.take(i + 1).last() == items@[i as int]@);
            if i == 0 {
                assert(text@ =~= items@[0]@);
            }
        }
        i = i + 1;
    }
    assert(texts.take(items.len() as int) =~= texts);
    text
}

impl ConfigError {
    /// The message for the user.
    pub fn message(&self) -> (text: String)
        ensures
            text@ == error_text(self@),
    {
        let mut text = String::new();
        match self {
            ConfigError::UnknownKey { key } => {
                text.append("unknown config key `");
                text.append(key.as_str());
                text.append("` (known keys: ");
                text.append(join(&known_key_list(), ", ").as_str());
                text.append(")");
                assert(text@ =~= error_text(self@));
            },
            ConfigError::UnreadableSettings => {
                text.append(
                    "could not read this machine's tokscale settings, so writing them would replace every setting with a default. Check that the config directory is readable and writable, and that settings.json in it is valid JSON.",
                );
                assert(text@ =~= error_text(self@));
            },
            ConfigError::UndetectedTimezone => {
                text.append(
                    "could not determine this machine's IANA timezone name — pass one explicitly, e.g. `tokscale config set timezone Asia/Seoul`",
                );
                assert(text@ =~= error_text(self@));
            },
            ConfigError::UnknownTimezone { value } => {
                text.append("`");
                text.append(value.as_str());
                text.append(
                    "` is not a known IANA timezone name (expected something like `Asia/Seoul` or `America/New_York`). Fixed UTC offsets are not accepted: they cannot follow daylight saving time, so a pinned offset would drift off local midnight twice a year.",
                );
                assert(text@ =~= error_text(self@));
            },
        }
        text
    }
}

/// Finds the key that a user meant.
pub fn normalize_key(key: &str) -> (res: Result<&'static str, ConfigError>)
    ensures
        match res {
            Ok(known) => normalized_key(key@) == Some(known@),
            Err(error) => normalized_key(key@) is None && error@ == ConfigErrorView::UnknownKey(
                key@,
            ),
        },
{
    let candidate = key.trim().to_ascii_lowercase();
    let keys = known_key_list();
    let ghost texts = keys@.map_values(|key: &'static str| key@);
    let mut i: usize = 0;
    while i < keys.len()
        invariant
            i <= keys.len(),
            candidate@ == lowered(trimmed(key@)),
            texts == keys@.map_values(|key: &'static str| key@),
            texts == known_keys(),
            forall|j: int| 0 <= j < i ==> #[trigger] texts[j] != candidate@,
        decreases keys.len() - i,
    {
        let known = keys[i];
        assert(texts[i as int] == known@);
        if known.to_string() == candidate {
            return Ok(known);
        }
        i = i + 1;
    }
    Err(ConfigError::UnknownKey { key: key.to_string() })
}

/// Admits settings, as loaded, for a command that writes them straight back.
///
/// Settings that could not be read are loaded as defaults. Saving those would
/// replace a file that could not be read with invented values, so the command
/// stops instead.
pub fn load_for_write(settings: Settings, safe_to_overwrite: bool) -> (res: Result<
    Settings,
    ConfigError,
>)
    ensures
        match res {
            Ok(admitted) => safe_to_overwrite && admitted == settings,
            Err(error) => !safe_to_overwrite && error@ == ConfigErrorView::UnreadableSettings,
        },
{
    if safe_to_overwrite {
        Ok(settings)
    } else {
        Err(ConfigError::UnreadableSettings)
    }
}

/// Whether the value asks for the machine's own zone.
fn is_auto_value(value: &str) -> (auto: bool)
    ensures
        auto == is_auto(value@),
{
    value.trim().eq_ignore_ascii_case(AUTO_VALUE)
}

/// Resolves a user-supplied timezone value to a canonical IANA name, given
/// what the machine's zone was found to be.
pub fn resolve_timezone_value_with(value: &str, detected: Option<String>) -> (res: Result<
    String,
    ConfigError,
>)
    ensures
        text_result(res) == resolved_value(value@, string_view(detected)),
{
    if is_auto_value(value) {
        match detected {
            Some(name) => Ok(name),
            None => Err(ConfigError::UndetectedTimezone),
        }
    } else {
        let trimmed_value = value.trim();
        proof {
            law_trim_is_idempotent(value@);
        }
        match BucketTimezone::from_pinned_name(Some(trimmed_value)).pinned_name() {
            Some(name) => Ok(name.to_string()),
            None => Err(ConfigError::UnknownTimezone { value: trimmed_value.to_string() }),
        }
    }
}

/// Resolves a user-supplied timezone value to a canonical IANA name.
///
/// `auto` asks the machine. Anything else must be a name that the tz database
/// knows: a raw UTC offset is rejected, because it cannot follow daylight
/// saving time and would drift off local midnight twice a year.
pub fn resolve_timezone_value(value: &str) -> (res: Result<String, ConfigError>)
    ensures
        !is_auto(value@) ==> text_result(res) == resolved_value(value@, None),
        exists|detected: Option<Seq<char>>| #[trigger]
            may_be_detected(detected) && text_result(res) == resolved_value(value@, detected),
        res matches Ok(name) ==> is_known_zone(name@),
        is_auto(value@) ==> exists|found: Result<String, iana_time_zone::GetTimezoneError>|
            #[trigger] call_ensures(iana_time_zone::get_timezone, (), found) && match found {
                Ok(found) => if has_zone_form(found@) && tz_table_has(found@) {
                    res matches Ok(name) && name@ == found@
                } else {
                    res matches Err(error) && error is UndetectedTimezone
                },
                Err(_) => res matches Err(error) && error is UndetectedTimezone,
            },
{
    let detected = if is_auto_value(value) {
        detect_local_iana_name()
    } else {
        None
    };
    assert(may_be_detected(string_view(detected)));
    resolve_timezone_value_with(value, detected)
}

/// Reads a key.
pub fn run_get(key: &str, settings: &Settings) -> (res: Result<Report, ConfigError>)
    ensures
        report_result(res) == get_outcome(key@, settings@),
{
    match normalize_key(key) {
        Ok(_) => {},
        Err(error) => return Err(error),
    }
    let mut report = Report::new();
    match &settings.scanner.bucket_timezone {
        Some(zone) => {
            report.say(Style::Plain, zone.as_str());
            report.say(Style::Plain, "\n");
        },
        None => {
            report.say(Style::Dimmed, UNSET_TEXT);
            report.say(Style::Plain, "\n");
            report.note(
                "No bucketing timezone is pinned. Day boundaries follow this machine's current timezone and will move if it changes.\n",
            );
        },
    }
    proof {
        let wanted = get_report(settings@);
        assert(report@.out =~= wanted.out);
        assert(report@.err =~= wanted.err);
    }
    Ok(report)
}

/// Records `zone` as the pinned zone.
pub fn pin_zone(settings: Settings, zone: String) -> (change: Change)
    ensures
        change@.configured == Some(zone@),
        change@.report == set_report(settings@, zone@),
{
    let mut settings = settings;
    let ghost configured = settings@;
    let previous = settings.scanner.bucket_timezone.take();
    settings.scanner.bucket_timezone = Some(zone.clone());
    let mut report = Report::new();
    report.say(Style::Done, "set");
    report.say(Style::Plain, " timezone = ");
    report.say(Style::Strong, zone.as_str());
    report.say(Style::Plain, "\n");
    match previous {
        Some(previous) => {
            if previous == zone {
                report.say(Style::Plain, "(unchanged)\n");
            } else {
                report.say(Style::Plain, "  was: ");
                report.say(Style::Plain, previous.as_str());
                report.say(Style::Plain, "\n");
                report.note("Day boundaries move to ");
                report.note(zone.as_str());
                report.note(
                    ". The next scan re-splits history across days one final time, then stays stable.\n",
                );
            }
        },
        None => {
            report.note("Day boundaries are now fixed to ");
            report.note(zone.as_str());
            report.note(" and no longer follow this machine's timezone.\n");
        },
    }
    proof {
        let wanted = set_report(configured, zone@);
        assert(report@.out =~= wanted.out);
        assert(report@.err =~= wanted.err);
    }
    Change { settings, report }
}

/// Sets a key.
pub fn run_set(key: &str, value: &str, settings: Settings, safe_to_overwrite: bool) -> (res: Result<
    Change,
    ConfigError,
>)
    ensures
        !is_auto(value@) ==> change_result(res) == set_outcome(
            key@,
            value@,
            settings@,
            safe_to_overwrite,
            None,
        ),
        exists|detected: Option<Seq<char>>| #[trigger]
            may_be_detected(detected) && change_result(res) == set_outcome(
                key@,
                value@,
                settings@,
                safe_to_overwrite,
                detected,
            ),
        is_auto(value@) && normalized_key(key@) is Some && safe_to_overwrite ==> exists|
            found: Result<String, iana_time_zone::GetTimezoneError>,
        | #[trigger]
            call_ensures(iana_time_zone::get_timezone, (), found) && match found {
                Ok(found) => if has_zone_form(found@) && tz_table_has(found@) {
                    &&& res matches Ok(change)
                    &&& change@.configured == Some(found@)
                    &&& change@.report == set_report(settings@, found@)
                } else {
                    res matches Err(error) && error is UndetectedTimezone
                },
                Err(_) => res matches Err(error) && error is UndetectedTimezone,
            },
{
    assert(may_be_detected(None));
    match normalize_key(key) {
        Ok(_) => {},
        Err(error) => return Err(error),
    }
    let settings = match load_for_write(settings, safe_to_overwrite) {
        Ok(settings) => settings,
        Err(error) => return Err(error),
    };
    match resolve_timezone_value(value) {
        Ok(zone) => Ok(pin_zone(settings, zone)),
        Err(error) => Err(error),
    }
}

/// Unsets a key.
///
/// Unset means to detect anew, not to stop pinning: the next run pins the
/// machine's zone of that time.
pub fn run_unset(key: &str, settings: Settings, safe_to_overwrite: bool) -> (res: Result<
    Change,
    ConfigError,
>)
    ensures
        change_result(res) == unset_outcome(key@, settings@, safe_to_overwrite),
{
    match normalize_key(key) {
        Ok(_) => {},
        Err(error) => return Err(error),
    }
    let mut settings = match load_for_write(settings, safe_to_overwrite) {
        Ok(settings) => settings,
        Err(error) => return Err(error),
    };
    let ghost configured = settings@;
    let previous = settings.scanner.bucket_timezone.take();
    let mut report = Report::new();
    match previous {
        Some(previous) => {
            report.say(Style::Done, "unset");
            report.say(Style::Plain, " timezone (was ");
            report.say(Style::Plain, previous.as_str());
            report.say(Style::Plain, ")\n");
        },
        None => {
            report.say(Style::Plain, "timezone was already unset\n");
        },
    }
    report.note(
        "The next tokscale run re-pins this machine's current timezone. Use `tokscale config set timezone <zone>` to choose one explicitly.\n",
    );
    proof {
        let wanted = unset_report(configured);
        assert(report@.out =~= wanted.out);
        assert(report@.err =~= wanted.err);
    }
    Ok(Change { settings, report })
}

/// Lists every key with its value.
pub fn run_list(settings: &Settings) -> (report: Report)
    ensures
        report@ == list_report(settings@),
{
    let mut report = Report::new();
    report.say(Style::Plain, "timezone     ");
    match &settings.scanner.bucket_timezone {
        Some(zone) => report.say(Style::Plain, zone.as_str()),
        None => report.say(Style::Plain, UNSET_TEXT),
    }
    report.say(Style::Plain, "\n");
    proof {
        let wanted = list_report(settings@);
        assert(report@.out =~= wanted.out);
        assert(report@.err =~= wanted.err);
    }
    report
}

/// White space around a key and the case of its ASCII letters do not matter.
pub proof fn law_keys_ignore_case_and_padding(
    before: Seq<char>,
    key: Seq<char>,
    after: Seq<char>,
    other: Seq<char>,
)
    requires
        is_blank(before),
        is_blank(after),
        lowered(key) == lowered(other),
    ensures
        normalized_key(before + key + after) == normalized_key(other),
{
    law_padding_is_ignored(before, key, after);
    lemma_trim_lowered(key);
    lemma_trim_lowered(other);
}

/// The only key that is ever accepted is `timezone`.
pub proof fn law_accepted_keys_are_known(key: Seq<char>)
    ensures
        normalized_key(key) matches Some(known) ==> known == TIMEZONE_KEY@,
{
}

/// Every zone of the database can be chosen by its name.
pub proof fn law_every_zone_can_be_chosen(name: Seq<char>, detected: Option<Seq<char>>)
    requires
        is_known_zone(name),
    ensures
        resolved_value(name, detected) == Ok::<Seq<char>, ConfigErrorView>(name),
{
    law_known_names_pin_themselves(name);
}

/// A value resolves to a zone of the database, which resolves to itself.
pub proof fn law_resolved_values_are_canonical(
    value: Seq<char>,
    detected: Option<Seq<char>>,
    detected_later: Option<Seq<char>>,
)
    requires
        may_be_detected(detected),
    ensures
        resolved_value(value, detected) matches Ok(name) ==> {
            &&& is_known_zone(name)
            &&& resolved_value(name, detected_later) == Ok::<Seq<char>, ConfigErrorView>(name)
        },
{
    if let Ok(name) = resolved_value(value, detected) {
        law_every_zone_can_be_chosen(name, detected_later);
    }
}

/// A value that reads like a fixed offset is refused as a zone, and so cannot
/// be pinned.
pub proof fn law_offsets_are_refused(value: Seq<char>, detected: Option<Seq<char>>)
    requires
        is_offset_like(trimmed(value)),
    ensures
        resolved_value(value, detected) == Err::<Seq<char>, ConfigErrorView>(
            ConfigErrorView::UnknownTimezone(trimmed(value)),
        ),
{
    law_offsets_pin_nothing(value);
    reveal_strlit("auto");
    let t = trimmed(value);
    if is_auto(value) {
        let auto = lowered(AUTO_VALUE@);
        assert(lowered(t).len() == t.len());
        assert(lowered(t)[0] == auto[0]);
        if t.contains(':') {
            let i = choose|i: int| 0 <= i < t.len() && t[i] == ':';
            assert(lowered(t)[i] == ':');
            assert(auto[i] == ':');
        }
    }
}

/// After a successful `set`, `get` prints the zone that was set, and a scan
/// buckets into exactly that zone.
pub proof fn law_get_after_set(
    key: Seq<char>,
    value: Seq<char>,
    configured: Option<Seq<char>>,
    safe_to_overwrite: bool,
    detected: Option<Seq<char>>,
)
    requires
        may_be_detected(detected),
    ensures
        set_outcome(key, value, configured, safe_to_overwrite, detected) matches Ok(change) ==> {
            &&& resolved_value(value, detected) matches Ok(zone)
            &&& change.configured == Some(zone)
            &&& get_outcome(key, change.configured) == Ok::<ReportView, ConfigErrorView>(
                get_report(Some(zone)),
            )
            &&& pinned_zone(change.configured) == Some(zone)
        },
{
    if let Ok(zone) = resolved_value(value, detected) {
        law_resolved_values_are_canonical(value, detected, detected);
        law_known_names_pin_themselves(zone);
    }
}

/// Setting the same zone again leaves the settings as they are, says so, and
/// warns of nothing.
pub proof fn law_set_again_changes_nothing(
    key: Seq<char>,
    value: Seq<char>,
    configured: Option<Seq<char>>,
    detected: Option<Seq<char>>,
)
    ensures
        set_outcome(key, value, configured, true, detected) matches Ok(first) ==> {
            &&& set_outcome(key, value, first.configured, true, detected) matches Ok(second)
            &&& second.configured == first.configured
            &&& second.report.out.last() == (Style::Plain, "(unchanged)\n"@)
            &&& second.report.err == Seq::<char>::empty()
        },
{
}

/// After a successful `unset`, `get` reports that nothing is set, and a scan
/// follows the machine's zone.
pub proof fn law_get_after_unset(
    key: Seq<char>,
    configured: Option<Seq<char>>,
    safe_to_overwrite: bool,
)
    ensures
        unset_outcome(key, configured, safe_to_overwrite) matches Ok(change) ==> {
            &&& change.configured is None
            &&& get_outcome(key, change.configured) == Ok::<ReportView, ConfigErrorView>(
                get_report(None),
            )
            &&& pinned_zone(change.configured) is None
        },
{
}

/// Settings that could not be read are never written over.
pub proof fn law_unreadable_settings_are_never_rewritten(
    key: Seq<char>,
    value: Seq<char>,
    configured: Option<Seq<char>>,
    detected: Option<Seq<char>>,
)
    ensures
        set_outcome(key, value, configured, false, detected) is Err,
        unset_outcome(key, configured, false) is Err,
{
}

/// A key that is not known is refused by every command, whatever else holds.
pub proof fn law_unknown_keys_are_refused(
    key: Seq<char>,
    value: Seq<char>,
    configured: Option<Seq<char>>,
    safe_to_overwrite: bool,
    detected: Option<Seq<char>>,
)
    requires
        normalized_key(key) is None,
    ensures
        get_outcome(key, configured) == Err::<ReportView, ConfigErrorView>(
            ConfigErrorView::UnknownKey(key),
        ),
        set_outcome(key, value, configured, safe_to_overwrite, detected) == Err::<
            ChangeView,
            ConfigErrorView,
        >(ConfigErrorView::UnknownKey(key)),
        unset_outcome(key, configured, safe_to_overwrite) == Err::<ChangeView, ConfigErrorView>(
            ConfigErrorView::UnknownKey(key),
        ),
{
}

} // verus!
