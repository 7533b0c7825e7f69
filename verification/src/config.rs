//! The translated input to a run: the configuration layer hands the core a
//! selected driver mode and an ordered list of already-resolved operations.

use vstd::prelude::*;

use crate::domain::DriverTypes;
use crate::domain::Operation;

verus! {

/// Everything a run needs, with all paths already resolved; the core never
/// sees the configuration file itself.
pub struct Config {
    pub driver: DriverTypes,
    pub operations: Vec<Operation>,
}

} // verus!
