//! The installation tab. It keeps no state of its own.

use vstd::prelude::*;

verus! {

/// The state of the installation tab.
#[derive(Debug, PartialEq, Eq)]
pub struct InstallationTab {}

impl InstallationTab {
    pub fn new() -> (tab: Self)
        ensures
            tab == (InstallationTab {  }),
    {
        Self {  }
    }
}

} // verus!
