//! Running the tracer directly on this machine.

use vstd::prelude::*;

verus! {

/// The choice to run the tracer directly.
#[derive(Debug, Clone, Copy)]
pub struct NativeArgs {}

/// This machine as host.
#[derive(Debug, Clone, Copy)]
pub struct Native {}

impl NativeArgs {
    /// Makes the host ready. There is nothing to set up: the files are
    /// where they are.
    pub fn start(self) -> Native {
        Native {}
    }
}

impl Native {
    /// The name under which the tracer reaches the analysis.
    pub fn localhost(&self) -> (name: &'static str)
        ensures
            name@ == "localhost"@,
    {
        "localhost"
    }
}

} // verus!
