use vstd::prelude::*;

use crate::text::{decimal, push_decimal, trim, trimmed};

verus! {

// ── Instants and the calls into chrono ──────────────────────────────────────

/// Whether chrono accepts `seconds` since the Unix epoch and `nanos` past
/// that second as a UTC instant (`DateTime::from_timestamp` gives `Some`):
/// the second lies between -262143-01-01 00:00:00 and 262142-12-31 23:59:59
/// (chrono's first and last dates), and the nanoseconds stay under one
/// second, or under two in the last second of a minute (a leap second).
pub open spec fn chrono_accepts(seconds: i64, nanos: u32) -> bool {
    &&& -8_334_601_228_800 <= seconds <= 8_210_266_876_799
    &&& (nanos < 1_000_000_000 || (nanos < 2_000_000_000 && seconds % 60 == 59))
}

/// The whole seconds from the instant `last` to the instant `now`, the
/// fraction dropped toward zero, for instants outside leap seconds.
pub open spec fn whole_seconds_between(
    now_seconds: i64,
    now_nanos: u32,
    last_seconds: i64,
    last_nanos: u32,
) -> int {
    let span = (now_seconds * 1_000_000_000 + now_nanos) - (last_seconds * 1_000_000_000
        + last_nanos);
    if span >= 0 {
        span / 1_000_000_000
    } else {
        -((-span) / 1_000_000_000)
    }
}

/// The instant written as `YYYY-MM-DD HH:MM:SS UTC`, as chrono formats it.
pub uninterp spec fn utc_time_text(seconds: i64, nanos: u32) -> Seq<char>;

/// The instant in the named time zone, written as `YYYY-MM-DD HH:MM:SS`
/// followed by the zone's abbreviation, as chrono and chrono-tz format it.
pub uninterp spec fn local_time_text(seconds: i64, nanos: u32, zone: Seq<char>) -> Seq<char>;

/// What chrono-tz makes of a time zone name.
pub uninterp spec fn zone_status_of(name: Seq<char>) -> TimeZoneStatus;

/// The whole seconds from the second instant to the first, as chrono counts
/// them (`signed_duration_since`, then `num_seconds`).
pub uninterp spec fn elapsed_whole_seconds(
    now_seconds: i64,
    now_nanos: u32,
    last_seconds: i64,
    last_nanos: u32,
) -> i64;

/// How a time zone name parses.
#[derive(Debug, Clone, Copy, PartialEq, Eq, Structural)]
pub enum TimeZoneStatus {
    /// Not a time zone name chrono-tz knows.
    Unknown,
    /// The zone named exactly "UTC".
    Utc,
    /// Any other known zone.
    Named,
}

/// `DateTime::<Utc>::from_timestamp(seconds, nanos).is_some()`: `None`
/// exactly for seconds outside chrono's date range or an invalid nanosecond
/// part (chrono's `NaiveDate` and `NaiveTime` constructors).
#[verifier::external_body]
fn chrono_accepts_timestamp(seconds: i64, nanos: u32) -> (ok: bool)
    ensures
        ok == chrono_accepts(seconds, nanos),
{
    chrono::DateTime::from_timestamp(seconds, nanos).is_some()
}

/// `Utc::now()`, taken apart into `timestamp()` and
/// `timestamp_subsec_nanos()`. Which instant comes back depends on the clock
/// and is not stated. chrono builds it with `DateTime::from_timestamp` from
/// the system time's `Duration` since the Unix epoch (`as_secs`,
/// `subsec_nanos`), so every outcome is an instant chrono accepts, at or
/// after the epoch, and never inside a leap second.
#[verifier::external_body]
fn clock_now() -> (t: (i64, u32))
    ensures
        chrono_accepts(t.0, t.1),
        t.0 >= 0,
        t.1 < 1_000_000_000,
{
    let now = chrono::Utc::now();
    (now.timestamp(), now.timestamp_subsec_nanos())
}

/// `DateTime::format` with `%Y-%m-%d %H:%M:%S UTC` on the instant, as a
/// `String`. The text is taken to depend on the instant alone.
#[verifier::external_body]
fn format_utc(seconds: i64, nanos: u32) -> (s: String)
    requires
        chrono_accepts(seconds, nanos),
    ensures
        s@ == utc_time_text(seconds, nanos),
{
    match chrono::DateTime::from_timestamp(seconds, nanos) {
        Some(instant) => instant.format("%Y-%m-%d %H:%M:%S UTC").to_string(),
        None => String::new(),
    }
}

/// `str::parse::<chrono_tz::Tz>()` on a zone name, telling apart a failed
/// parse, the `UTC` zone and any other zone. chrono-tz looks the name up in a
/// fixed table, so the result depends on the name alone; in that table only
/// the name "UTC" gives `Tz::UTC`, and no name is empty. Which other names
/// the table holds is not stated here.
#[verifier::external_body]
fn parse_time_zone(name: &str) -> (status: TimeZoneStatus)
    ensures
        status == zone_status_of(name@),
        status == TimeZoneStatus::Utc <==> name@ == "UTC"@,
        name@.len() == 0 ==> status == TimeZoneStatus::Unknown,
{
    match name.parse::<chrono_tz::Tz>() {
        Err(_) => TimeZoneStatus::Unknown,
        Ok(chrono_tz::Tz::UTC) => TimeZoneStatus::Utc,
        Ok(_) => TimeZoneStatus::Named,
    }
}

/// `DateTime::with_timezone` into the named zone, then `DateTime::format`
/// with `%Y-%m-%d %H:%M:%S %Z`, as a `String`. The text is taken to depend on
/// the instant and the zone name alone.
#[verifier::external_body]
fn format_local(seconds: i64, nanos: u32, zone: &str) -> (s: String)
    requires
        chrono_accepts(seconds, nanos),
        zone_status_of(zone@) != TimeZoneStatus::Unknown,
    ensures
        s@ == local_time_text(seconds, nanos, zone@),
{
    match (chrono::DateTime::from_timestamp(seconds, nanos), zone.parse::<chrono_tz::Tz>()) {
        (Some(instant), Ok(tz)) => instant.with_timezone(&tz).format(
            "%Y-%m-%d %H:%M:%S %Z",
        ).to_string(),
        _ => String::new(),
    }
}

/// `DateTime::signed_duration_since`, then `TimeDelta::num_seconds`: the
/// whole seconds from `last` to `now` (negative when `last` is later), the
/// fraction dropped toward zero. The result depends on the two instants
/// alone; how chrono counts across a leap second is not stated here.
#[verifier::external_body]
fn seconds_between(now_seconds: i64, now_nanos: u32, last_seconds: i64, last_nanos: u32) -> (e:
    i64)
    requires
        chrono_accepts(now_seconds, now_nanos),
        chrono_accepts(last_seconds, last_nanos),
    ensures
        e == elapsed_whole_seconds(now_seconds, now_nanos, last_seconds, last_nanos),
        now_nanos < 1_000_000_000 && last_nanos < 1_000_000_000 ==> e == whole_seconds_between(
            now_seconds,
            now_nanos,
            last_seconds,
            last_nanos,
        ),
{
    match (
        chrono::DateTime::from_timestamp(now_seconds, now_nanos),
        chrono::DateTime::from_timestamp(last_seconds, last_nanos),
    ) {
        (Some(now), Some(last)) => now.signed_duration_since(last).num_seconds(),
        _ => 0,
    }
}

/// An instant in UTC: whole seconds since the Unix epoch and nanoseconds
/// past that second, always one that chrono accepts.
#[derive(Debug, Clone, Copy, PartialEq, Eq, Structural)]
pub struct UtcTimestamp {
    seconds: i64,
    nanos: u32,
}

impl UtcTimestamp {
    #[verifier::type_invariant]
    spec fn accepted(self) -> bool {
        chrono_accepts(self.seconds, self.nanos)
    }

    /// Seconds since the Unix epoch.
    pub closed spec fn seconds_spec(self) -> i64 {
        self.seconds
    }

    /// Nanoseconds past the second.
    pub closed spec fn nanos_spec(self) -> u32 {
        self.nanos
    }

    /// The instant `seconds` after the Unix epoch plus `nanos`, when chrono
    /// accepts it.
    pub fn from_unix(seconds: i64, nanos: u32) -> (t: Option<Self>)
        ensures
            t is Some <==> chrono_accepts(seconds, nanos),
            t matches Some(t) ==> t.seconds_spec() == seconds && t.nanos_spec() == nanos,
    {
        if chrono_accepts_timestamp(seconds, nanos) {
            Some(UtcTimestamp { seconds, nanos })
        } else {
            None
        }
    }

    /// The current instant, read from the system clock: which instant is up
    /// to the clock, but it is never before the Unix epoch and never inside a
    /// leap second.
    pub fn now() -> (t: Self)
        ensures
            t.seconds_spec() >= 0,
            t.nanos_spec() < 1_000_000_000,
    {
        let (seconds, nanos) = clock_now();
        UtcTimestamp { seconds, nanos }
    }

    /// Seconds since the Unix epoch.
    pub fn seconds(&self) -> (s: i64)
        ensures
            s == self.seconds_spec(),
            chrono_accepts(self.seconds_spec(), self.nanos_spec()),
    {
        proof {
            use_type_invariant(self);
        }
        self.seconds
    }

    /// Nanoseconds past the second.
    pub fn subsec_nanos(&self) -> (n: u32)
        ensures
            n == self.nanos_spec(),
    {
        self.nanos
    }
}

// ── Time context ────────────────────────────────────────────────────────────

/// The note on how long ago the last interaction was, from the whole seconds
/// elapsed (a negative span counts as none): whole days from two days on,
/// one day, whole hours from two hours on, one hour, or less than an hour.
pub open spec fn elapsed_time_note(elapsed_seconds: int) -> Seq<char> {
    let total = if elapsed_seconds < 0 {
        0
    } else {
        elapsed_seconds
    };
    let hours = total / 3600;
    let days = hours / 24;
    if days >= 2 {
        "Time since last interaction: "@ + decimal(days as nat) + " days"@
    } else if days == 1 {
        "Time since last interaction: 1 day"@
    } else if hours >= 2 {
        "Time since last interaction: "@ + decimal(hours as nat) + " hours"@
    } else if hours == 1 {
        "Time since last interaction: 1 hour"@
    } else {
        "Time since last interaction: less than an hour"@
    }
}

/// The elapsed-time note for the whole seconds elapsed.
pub(crate) fn format_elapsed_time_note(elapsed_seconds: i64) -> (note: String)
    ensures
        note@ == elapsed_time_note(elapsed_seconds as int),
{
    let total: i64 = if elapsed_seconds < 0 {
        0
    } else {
        elapsed_seconds
    };
    let hours: i64 = total / 3600;
    let days: i64 = hours / 24;
    if days >= 2 {
        let mut note = String::from_str("Time since last interaction: ");
        push_decimal(&mut note, days as u64);
        note.append(" days");
        note
    } else if days == 1 {
        String::from_str("Time since last interaction: 1 day")
    } else if hours >= 2 {
        let mut note = String::from_str("Time since last interaction: ");
        push_decimal(&mut note, hours as u64);
        note.append(" hours");
        note
    } else if hours == 1 {
        String::from_str("Time since last interaction: 1 hour")
    } else {
        String::from_str("Time since last interaction: less than an hour")
    }
}

/// The current-time text handed to prompts, and the instant it was made
/// from when there is one.
pub struct PromptTimeContext {
    current_time: String,
    now: Option<UtcTimestamp>,
}

/// The current-time text for an instant in UTC.
pub open spec fn utc_context_text(now: UtcTimestamp) -> Seq<char> {
    "UTC: "@ + utc_time_text(now.seconds_spec(), now.nanos_spec()) + "; user timezone: UTC"@
}

/// The current-time text for an instant and a time zone name: the UTC text
/// when the trimmed name is unknown or is "UTC", otherwise the UTC time, the
/// local time and the trimmed zone name on three lines.
pub open spec fn zoned_context_text(now: UtcTimestamp, time_zone: Seq<char>) -> Seq<char> {
    let zone = trim(time_zone);
    if zone_status_of(zone) != TimeZoneStatus::Named {
        utc_context_text(now)
    } else {
        "UTC: "@ + utc_time_text(now.seconds_spec(), now.nanos_spec()) + "\nUser local time: "@
            + local_time_text(now.seconds_spec(), now.nanos_spec(), zone) + "\nUser timezone: "@
            + zone
    }
}

impl PromptTimeContext {
    /// The current-time text.
    pub closed spec fn text(&self) -> Seq<char> {
        self.current_time@
    }

    /// The instant the text was made from, if any.
    pub closed spec fn instant(&self) -> Option<UtcTimestamp> {
        self.now
    }

    /// A context holding the given text and no instant.
    pub fn new(current_time: &str) -> (c: Self)
        ensures
            c.text() == current_time@,
            c.instant() is None,
    {
        Self { current_time: String::from_str(current_time), now: None }
    }

    fn with_datetime(current_time: String, now: UtcTimestamp) -> (c: Self)
        ensures
            c.text() == current_time@,
            c.instant() == Some(now),
    {
        Self { current_time, now: Some(now) }
    }

    /// The context for the current instant in UTC.
    pub fn now_utc() -> (c: Self)
        ensures
            c.instant() matches Some(now) && c.text() == utc_context_text(now)
                && now.seconds_spec() >= 0 && now.nanos_spec() < 1_000_000_000,
    {
        Self::from_utc_datetime(UtcTimestamp::now())
    }

    /// The context for an instant in UTC.
    pub fn from_utc_datetime(now: UtcTimestamp) -> (c: Self)
        ensures
            c.text() == utc_context_text(now),
            c.instant() == Some(now),
    {
        let mut text = String::from_str("UTC: ");
        let utc = format_utc(now.seconds(), now.subsec_nanos());
        text.append(utc.as_str());
        text.append("; user timezone: UTC");
        Self::with_datetime(text, now)
    }

    /// The context for the current instant, with local time in the named zone.
    pub fn now_for_timezone(time_zone: &str) -> (c: Self)
        ensures
            c.instant() matches Some(now) && c.text() == zoned_context_text(now, time_zone@)
                && now.seconds_spec() >= 0 && now.nanos_spec() < 1_000_000_000,
    {
        Self::from_utc_datetime_and_timezone(UtcTimestamp::now(), time_zone)
    }

    /// The context for an instant, with local time in the named zone; an
    /// unknown zone name, or "UTC", gives the plain UTC context.
    pub fn from_utc_datetime_and_timezone(now: UtcTimestamp, time_zone: &str) -> (c: Self)
        ensures
            c.text() == zoned_context_text(now, time_zone@),
            c.instant() == Some(now),
            trim(time_zone@) == "UTC"@ || trim(time_zone@).len() == 0 ==> c.text()
                == utc_context_text(now),
    {
        let zone = trimmed(time_zone);
        let status = parse_time_zone(zone.as_str());
        if status != TimeZoneStatus::Named {
            return Self::from_utc_datetime(now);
        }
        let mut text = String::from_str("UTC: ");
        let utc = format_utc(now.seconds(), now.subsec_nanos());
        text.append(utc.as_str());
        text.append("\nUser local time: ");
        let local = format_local(now.seconds(), now.subsec_nanos(), zone.as_str());
        text.append(local.as_str());
        text.append("\nUser timezone: ");
        text.append(zone.as_str());
        Self::with_datetime(text, now)
    }

    /// Adds the elapsed-time note on its own line when both this context's
    /// instant and the last interaction are known; otherwise the context is
    /// unchanged. The note counts the whole seconds between the two instants
    /// as chrono does; outside leap seconds that is the exact span with its
    /// fraction dropped toward zero.
    pub fn with_last_interaction_at(self, last_interaction_at: Option<UtcTimestamp>) -> (c: Self)
        ensures
            c.instant() == self.instant(),
            match (self.instant(), last_interaction_at) {
                (Some(now), Some(last)) => c.text() == self.text() + "\n"@ + elapsed_time_note(
                    elapsed_whole_seconds(
                        now.seconds_spec(),
                        now.nanos_spec(),
                        last.seconds_spec(),
                        last.nanos_spec(),
                    ) as int,
                ),
                _ => c.text() == self.text(),
            },
            match (self.instant(), last_interaction_at) {
                (Some(now), Some(last)) => now.nanos_spec() < 1_000_000_000 && last.nanos_spec()
                    < 1_000_000_000 ==> c.text() == self.text() + "\n"@ + elapsed_time_note(
                    whole_seconds_between(
                        now.seconds_spec(),
                        now.nanos_spec(),
                        last.seconds_spec(),
                        last.nanos_spec(),
                    ),
                ),
                _ => true,
            },
    {
        let mut this = self;
        match (this.now, last_interaction_at) {
            (Some(now), Some(last)) => {
                let elapsed = seconds_between(
                    now.seconds(),
                    now.subsec_nanos(),
                    last.seconds(),
                    last.subsec_nanos(),
                );
                let note = format_elapsed_time_note(elapsed);
                this.current_time.append("\n");
                this.current_time.append(note.as_str());
            },
            _ => {},
        }
        this
    }

    /// The current-time text.
    pub fn current_time(&self) -> (t: &str)
        ensures
            t@ == self.text(),
    {
        self.current_time.as_str()
    }
}

} // verus!
