//! What the user is shown while a step runs, and how a step ends.

pub mod step;
pub mod prompt;
