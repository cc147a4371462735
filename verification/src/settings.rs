//! The settings that say which zone is pinned.

use vstd::prelude::*;

use crate::text::string_view;

verus! {

/// The scanner's section of the settings.
#[derive(Debug, PartialEq, Eq)]
pub struct ScannerSettings {
    /// The name of the pinned zone, as configured.
    pub bucket_timezone: Option<String>,
}

impl View for ScannerSettings {
    type V = Option<Seq<char>>;

    /// The configured zone name.
    open spec fn view(&self) -> Option<Seq<char>> {
        string_view(self.bucket_timezone)
    }
}

/// The settings of this machine.
#[derive(Debug, PartialEq, Eq)]
pub struct Settings {
    pub scanner: ScannerSettings,
}

impl View for Settings {
    type V = Option<Seq<char>>;

    /// The configured zone name.
    open spec fn view(&self) -> Option<Seq<char>> {
        self.scanner@
    }
}

} // verus!
