//! Where lines of user input come from.

use vstd::prelude::*;
use crate::errors::AgentError;

verus! {

/// A source of user input, one line per call. A failure to read is reported
/// as `AgentError::UserInputError`.
pub trait InputReader {
    fn read(&self) -> Result<String, AgentError>;
}

} // verus!
