//! The single verbosity knob of the diagnostic log.

use vstd::prelude::*;

verus! {

/// Environment variable that overrides the log filter.
pub const LEVEL_VARIABLE: &'static str = "LOG_LEVEL";

/// Filter used where the variable is unset or does not hold a usable
/// filter.
pub const DEFAULT_DIRECTIVE: &'static str = "info";

} // verus!
