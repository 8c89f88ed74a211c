//! Orchestration rules of a lockfile comparison tool: where the two lockfile
//! texts come from, how a surrounding workspace is looked for, and which
//! failures end the run.

pub mod input;
pub mod lockfile;
pub mod resolve;
pub mod workspace;

pub use input::{parse_input, Input, InputView};
