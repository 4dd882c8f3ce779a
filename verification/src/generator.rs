//! Generation options, the step callback and generation results.

mod callback;
mod options;
mod result;

pub use crate::types::GenerationStepResult;
pub use callback::{execute_generation_callback, GenerationCallback, GenerationCallbackBox};
pub use options::{GenerationOptions, ONE_BITS, ZERO_BITS};
pub use result::GenerationResult;
