//! Repository hosting and build orchestration, written as a core that decides
//! and a host that acts. Every operation here is a function from what the host
//! has observed so far to the next thing it should do: probe a path, run a
//! command, initialise or clone a repository. The host performs that step,
//! reports what happened, and asks again until the operation is done.

pub mod error;
pub mod util;
pub mod api;
pub mod build;
pub mod git;
