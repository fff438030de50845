//! Wire vocabulary of the display / screen-state module (`amos.<group>.<leaf>`).
use vstd::prelude::*;

verus! {

/// The screen-state contract path is not configured.
pub const CONTRACT_MISSING: &'static str = "amos.display.contract_missing";

/// Writing the screen-state file failed.
pub const WRITE_FAILED: &'static str = "amos.display.write_failed";

/// The screen-state file did not hold `on` / `off`.
pub const READ_MALFORMED: &'static str = "amos.display.read_malformed";

} // verus!
