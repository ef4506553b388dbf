//! Running a child process inside an existing jail.
//!
//! A process builder is given a pre-exec step that attaches the duplicated
//! process to a jail before its program image is replaced. The decisions of
//! that step are verified here: how the outcome of the attach is turned into
//! the builder's error channel, and in what order the registered jails are
//! attached during one spawn.
use vstd::prelude::*;

pub mod jail;
pub mod process;
pub mod lemmas;
