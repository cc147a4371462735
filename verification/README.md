# tokscale_bucket_tz

Which calendar day a unit of usage belongs to, decided by a pinned IANA zone
rather than by the machine's zone at the time of a scan. Verified with Verus.

- `src/text.rs`: trimming and ASCII case folding.
- `src/calendar.rs`: dates, day numbers and `YYYY-MM-DD` text.
- `src/zone.rs`: zones of the tz database and instants on a local clock. All
  calls into `chrono` and `chrono-tz` are here.
- `src/bucket_tz.rs`: the bucketing zone, its day keys and detection of the
  machine's zone.
- `src/settings.rs`, `src/report.rs`: what the commands read and what they say.
- `src/config.rs`: the rules of `tokscale config get`, `set`, `unset`, `list`.
- `app/`: the settings store, the terminal and the log around the library.

What is believed rather than proved stands in the functions marked
`external_body` and the `assume_specification` items; each says which outside
function it stands for and what it claims of it.
