//! The timezone a scan buckets usage days into, and the settings commands that
//! pin it.
//!
//! Which calendar day a unit of usage lands in must not depend on where the
//! machine happens to be when it scans. A pinned IANA zone makes the day key a
//! function of the instant and the zone alone; [`bucket_tz`] states and proves
//! that. [`config`] holds the rules by which the pin is read, written and
//! removed.

pub mod bucket_tz;
pub mod calendar;
pub mod config;
pub mod laws;
pub mod report;
pub mod settings;
pub mod text;
pub mod zone;
