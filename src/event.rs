pub mod system;

use vstd::prelude::*;

use crate::app::Context;

verus! {

/// A unit of per-frame logic that works on the context.
pub trait System {
    fn run(&mut self, ctx: &mut Context);
}

} // verus!
