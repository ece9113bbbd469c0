pub mod disk;
pub mod matcher;
pub mod paths;
pub mod pending;
pub mod scan;
pub mod session;

use vstd::prelude::*;

verus! {

/// Upper bound on enumeration/match cycles for one pending label.
pub const MAX_SCANS: u8 = 50;

/// Seconds slept between two consecutive enumeration attempts.
pub const SLEEP_SECS: u64 = 1;

} // verus!
