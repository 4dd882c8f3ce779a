//! Configuration values shared by the generator.

use vstd::prelude::*;

verus! {

/// Whether a maximum batch size counts examples or tokens.
#[derive(Clone, Copy, Debug, PartialEq, Eq, Structural)]
pub enum BatchType {
    /// The batch size is a number of examples.
    Examples,
    /// The batch size is a number of tokens.
    Tokens,
}

impl Default for BatchType {
    /// A batch size counts examples unless told otherwise.
    fn default() -> (batch_type: Self)
        ensures
            batch_type == BatchType::Examples,
    {
        BatchType::Examples
    }
}

} // verus!
