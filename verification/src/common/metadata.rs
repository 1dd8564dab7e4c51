//! The version and the timestamps of a stored resource.

use vstd::prelude::*;

verus! {

/// A point in time in UTC: the seconds since the Unix epoch and the nanoseconds past
/// that second.
#[derive(Debug, Clone, Copy, PartialEq, Eq, Structural)]
pub struct Timestamp {
    /// the seconds since 1970-01-01T00:00:00Z
    pub seconds: i64,
    /// the nanoseconds past the second
    pub nanoseconds: u32,
}

impl Timestamp {
    /// The point in time `seconds` and `nanoseconds` after the Unix epoch.
    pub fn new(seconds: i64, nanoseconds: u32) -> (t: Self)
        ensures
            t == (Timestamp { seconds, nanoseconds }),
    {
        Timestamp { seconds, nanoseconds }
    }
}

/// Reads the clock with `chrono::Utc::now` and returns its seconds and nanoseconds since
/// the Unix epoch; nothing is stated of the time it returns.
#[verifier::external_body]
fn utc_now() -> (r: Timestamp) {
    let now = chrono::Utc::now();
    Timestamp { seconds: now.timestamp(), nanoseconds: now.timestamp_subsec_nanos() }
}

/// The metadata information for the current resource
#[derive(Debug, Clone, Copy, Eq, PartialEq, Structural)]
pub struct Metadata {
    version: u8,
    created: Timestamp,
    last_modified: Option<Timestamp>,
}

impl View for Metadata {
    type V = (u8, Timestamp, Option<Timestamp>);

    /// The version, the creation timestamp and the last update timestamp.
    closed spec fn view(&self) -> Self::V {
        (self.version, self.created, self.last_modified)
    }
}

impl Metadata {
    /// Creates a new metadata value
    pub fn new(version: u8, created: Timestamp, last_modified: Option<Timestamp>) -> (m: Self)
        ensures
            m@ == (version, created, last_modified),
    {
        Metadata { version, created, last_modified }
    }

    /// Creates metadata for a newly created resource: version 1, never modified.
    pub fn created_at(created: Timestamp) -> (m: Self)
        ensures
            m@ == (1u8, created, None::<Timestamp>),
    {
        Metadata { version: 1u8, created, last_modified: None }
    }

    /// Updates this metadata after an update: the next version, modified at `last_modified`.
    pub fn updated_at(self, last_modified: Timestamp) -> (m: Self)
        requires
            self@.0 < 255,
        ensures
            m@ == ((self@.0 + 1) as u8, self@.1, Some(last_modified)),
    {
        Metadata { version: self.version + 1, created: self.created, last_modified: Some(last_modified) }
    }

    /// The resource version
    pub fn version(&self) -> (r: u8)
        ensures
            r == self@.0,
    {
        self.version
    }

    /// The resource creation timestamp
    pub fn created(&self) -> (r: &Timestamp)
        ensures
            *r == self@.1,
    {
        &self.created
    }

    /// The resource last update timestamp
    pub fn last_modified(&self) -> (r: Option<&Timestamp>)
        ensures
            r == match self@.2 {
                Some(t) => Some(&t),
                None => None::<&Timestamp>,
            },
    {
        match &self.last_modified {
            Some(t) => Some(t),
            None => None,
        }
    }
}

impl Default for Metadata {
    /// Metadata for a resource created now.
    fn default() -> (m: Self)
        ensures
            m@.0 == 1,
            m@.2 is None,
    {
        let now: Timestamp = utc_now();
        Metadata::created_at(now)
    }
}

} // verus!
