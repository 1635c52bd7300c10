use vstd::prelude::*;

use crate::event::System;

verus! {

/// Owns one system.
pub struct SystemStorage {
    system: Box<dyn System>,
}

impl SystemStorage {
    /// A storage that owns `system`.
    pub fn new(system: Box<dyn System>) -> SystemStorage {
        SystemStorage { system }
    }
}

} // verus!
