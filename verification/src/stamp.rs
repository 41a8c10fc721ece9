//! Points in time and fresh identifiers.

use vstd::prelude::*;

verus! {

/// Whether `chrono` can represent, as a UTC date and time, the instant that
/// lies `secs` whole seconds and `nanos` nanoseconds after the Unix epoch
/// (`DateTime::from_timestamp` returns a value for it).
pub uninterp spec fn utc_representable(secs: i64, nanos: u32) -> bool;

/// The text that `chrono` displays for a representable UTC instant, such as
/// `2015-05-15 00:00:00 UTC`.
pub uninterp spec fn utc_display(secs: i64, nanos: u32) -> Seq<char>;

/// The text of a representable UTC instant in the layout of a table export:
/// date, time with milliseconds, and the word `UTC`.
pub uninterp spec fn utc_table_text(secs: i64, nanos: u32) -> Seq<char>;

/// A UTC instant with nanosecond resolution, held as the seconds since the
/// Unix epoch and the nanoseconds within that second.
#[derive(Clone, Copy, Debug, PartialEq, Eq)]
pub struct Timestamp {
    secs: i64,
    nanos: u32,
}

impl Timestamp {
    #[verifier::type_invariant]
    closed spec fn representable(self) -> bool {
        utc_representable(self.secs, self.nanos)
    }

    /// Seconds since the Unix epoch.
    pub closed spec fn spec_secs(&self) -> i64 {
        self.secs
    }

    /// Nanoseconds since the last whole second.
    pub closed spec fn spec_nanos(&self) -> u32 {
        self.nanos
    }

    /// The displayed text of this instant.
    pub open spec fn display_text(&self) -> Seq<char> {
        utc_display(self.spec_secs(), self.spec_nanos())
    }

    /// The text of this instant in a table export.
    pub open spec fn table_text(&self) -> Seq<char> {
        utc_table_text(self.spec_secs(), self.spec_nanos())
    }

    /// The instant `secs` seconds and `nanos` nanoseconds after the Unix
    /// epoch, if it can be represented.
    pub fn new(secs: i64, nanos: u32) -> (r: Option<Timestamp>)
        ensures
            r.is_some() == utc_representable(secs, nanos),
            r.is_some() ==> r.unwrap().spec_secs() == secs && r.unwrap().spec_nanos() == nanos,
    {
        if check_representable(secs, nanos) {
            Some(Timestamp { secs, nanos })
        } else {
            None
        }
    }

    /// The current instant, as the system clock gives it. Whatever the clock
    /// says, the instant is one that can be represented, so that it can be
    /// displayed and built again from its two parts.
    pub fn now() -> (r: Timestamp)
        ensures
            utc_representable(r.spec_secs(), r.spec_nanos()),
    {
        let (secs, nanos) = current_utc();
        Timestamp { secs, nanos }
    }

    #[verifier::when_used_as_spec(spec_secs)]
    pub fn secs(&self) -> (r: i64)
        ensures
            r == self.spec_secs(),
    {
        self.secs
    }

    #[verifier::when_used_as_spec(spec_nanos)]
    pub fn nanos(&self) -> (r: u32)
        ensures
            r == self.spec_nanos(),
    {
        self.nanos
    }

    /// The instant as `chrono` displays it.
    pub fn display(&self) -> (r: String)
        ensures
            r@ == self.display_text(),
    {
        proof {
            use_type_invariant(self);
        }
        display_utc(self.secs, self.nanos)
    }

    /// The instant as a table export writes it.
    pub fn table_string(&self) -> (r: String)
        ensures
            r@ == self.table_text(),
    {
        proof {
            use_type_invariant(self);
        }
        table_utc(self.secs, self.nanos)
    }
}

/// Calls `chrono::DateTime::from_timestamp` and reports whether it returned
/// a value.
#[verifier::external_body]
fn check_representable(secs: i64, nanos: u32) -> (r: bool)
    ensures
        r == utc_representable(secs, nanos),
{
    chrono::DateTime::from_timestamp(secs, nanos).is_some()
}

/// Calls `chrono::Utc::now` and takes the result apart with `timestamp` and
/// `timestamp_subsec_nanos`. `chrono` documents that these two parts build
/// the same instant again, so the pair is representable whatever the clock
/// says. `chrono` gives up where the system clock stands before 1970.
#[verifier::external_body]
fn current_utc() -> (r: (i64, u32))
    ensures
        utc_representable(r.0, r.1),
{
    let t = chrono::Utc::now();
    (t.timestamp(), t.timestamp_subsec_nanos())
}

/// Displays a representable instant through `chrono`'s `Display` for
/// `DateTime<Utc>`.
#[verifier::external_body]
fn display_utc(secs: i64, nanos: u32) -> (r: String)
    requires
        utc_representable(secs, nanos),
    ensures
        r@ == utc_display(secs, nanos),
{
    match chrono::DateTime::from_timestamp(secs, nanos) {
        Some(t) => t.to_string(),
        None => String::new(),
    }
}

/// Formats a representable instant with `chrono::DateTime::format` and the
/// pattern `%Y-%m-%d %H:%M:%S%.3f UTC`.
#[verifier::external_body]
fn table_utc(secs: i64, nanos: u32) -> (r: String)
    requires
        utc_representable(secs, nanos),
    ensures
        r@ == utc_table_text(secs, nanos),
{
    match chrono::DateTime::from_timestamp(secs, nanos) {
        Some(t) => t.format("%Y-%m-%d %H:%M:%S%.3f UTC").to_string(),
        None => String::new(),
    }
}

/// Calls `uuid::Uuid::new_v4` and writes the identifier in its hyphenated
/// form, which has 36 characters. Nothing else is known of a random
/// identifier.
#[verifier::external_body]
pub(crate) fn fresh_id() -> (r: String)
    ensures
        r@.len() == 36,
{
    uuid::Uuid::new_v4().to_string()
}

} // verus!
