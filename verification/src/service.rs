//! What every use case has in common: an input that knows its output.

use vstd::prelude::*;

verus! {

/// The input of a use case; `Output` is what the use case answers.
pub trait ServiceArgs {
    type Output;
}

/// A use case, ready to run on its input.
pub trait Service<Args: ServiceArgs> {
    fn execute(&self, input: Args) -> Args::Output;
}

} // verus!
