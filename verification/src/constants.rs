//! The tokens that go out as payloads, and the freshness window.
use vstd::prelude::*;

verus! {

/// Payload of an availability topic whose subject is reachable.
pub const ONLINE: &'static str = "online";

/// Payload of an availability topic whose subject is not reachable.
pub const OFFLINE: &'static str = "offline";

/// Payload of a binary sensor that is on.
pub const ON: &'static str = "on";

/// Payload of a binary sensor that is off.
pub const OFF: &'static str = "off";

/// A device whose telemetry log is younger than this many minutes counts as
/// online even without a temperature reading.
pub const FIREBOARD_DEVICELOG_UPDATE_INTERVAL_MINUTES: i64 = 5;

/// The seconds between two polls while a device is online. The cloud takes
/// 200 requests an hour, one every 18 seconds; this leaves a margin.
pub const BASE_INTERVAL_SECONDS: u64 = 20;

/// The seconds between two polls while no device is online.
pub const IDLE_INTERVAL_SECONDS: u64 = 60;

} // verus!
