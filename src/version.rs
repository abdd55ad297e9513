use vstd::prelude::*;
use crate::build_info::{BuildInfo, version_text};

verus! {

/// Nanoseconds in one second.
pub const NANOS_PER_SEC: u32 = 1_000_000_000;

/// A UTC instant: whole seconds since the Unix epoch and the nanoseconds past
/// that second.
#[derive(PartialEq, Eq, Structural, Clone, Copy, Debug)]
pub struct Timestamp {
    pub secs: i64,
    pub nanos: u32,
}

impl Timestamp {
    /// The sub-second part is below one second.
    pub open spec fn wf(self) -> bool {
        self.nanos < NANOS_PER_SEC
    }
}

/// The body of a successful `/version` response.
pub struct Info {
    pub version: String,
    pub current_timestamp: Timestamp,
}

/// Relies on chrono's `From<std::time::SystemTime> for DateTime<Utc>`, applied
/// to `SystemTime::now()`, and read back through `DateTime::timestamp` and
/// `DateTime::timestamp_subsec_nanos`. The conversion takes a clock set before
/// 1970 to negative seconds instead of failing, and always builds its value
/// from a sub-second part below one second, so no leap second is reported.
#[verifier::external_body]
fn utc_now() -> (r: Timestamp)
    ensures
        r.wf(),
{
    let now = chrono::DateTime::<chrono::Utc>::from(std::time::SystemTime::now());
    Timestamp { secs: now.timestamp(), nanos: now.timestamp_subsec_nanos() }
}

/// The version body for the given build, stamped with `now`.
pub fn version_info(build: &BuildInfo, now: Timestamp) -> (r: Info)
    ensures
        r.version@ == version_text(*build),
        r.current_timestamp == now,
{
    Info { version: build.app_version(), current_timestamp: now }
}

/// Answers `/version`: the version text of the build, stamped with the
/// wall-clock time at which the handler ran.
pub fn info_handler(build: &BuildInfo) -> (r: Info)
    ensures
        r.version@ == version_text(*build),
        r.current_timestamp.wf(),
{
    let now = utc_now();
    version_info(build, now)
}

} // verus!
