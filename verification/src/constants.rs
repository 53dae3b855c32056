//! Range limits for the timing settings, in milliseconds.

use vstd::prelude::*;

verus! {

/// Smallest accepted input debounce time, and the default when none is given.
pub const MIN_DEBOUNCE_TIME: u16 = 10;

/// Largest accepted input debounce time.
pub const MAX_DEBOUNCE_TIME: u16 = 500;

/// Smallest accepted combo window, and the default when none is given.
pub const MIN_COMBO_WINDOW: u16 = 100;

/// Largest accepted combo window.
pub const MAX_COMBO_WINDOW: u16 = 5000;

} // verus!
