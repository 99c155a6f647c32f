//! Supervisor core of an operating-system service that runs one external
//! command as its managed child process.
//!
//! The crate holds the decisions of such a service and none of its effects:
//! the bridge that turns control requests into queued events, the status
//! reports owed to the service control manager, and the run loop as a state
//! machine that is told what happened and answers with what to do next.

pub mod config;
pub mod control;
pub mod status;
pub mod supervisor;
pub mod laws;
pub mod registry;
