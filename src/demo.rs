//! The demo entry point.

use vstd::prelude::*;

verus! {

/// Placeholder entry point of the demo.
pub struct Demo;

impl Demo {
    /// Runs the demo: it does nothing, prints nothing and always returns.
    pub fn run() {
    }
}

} // verus!
