//! The presets above the settings. There are none yet.

use vstd::prelude::*;

verus! {

#[derive(Clone, Copy, Debug, PartialEq, Eq, Structural)]
pub struct Presets;

} // verus!
