//! A single-shot launcher that runs one external command inside a private
//! hostname, process-id and mount namespace.
//!
//! The crate verifies the decisions of the launch sequence: parsing the
//! invocation, the order of the isolation steps, and how the command's
//! termination status becomes the program's exit code.  The kernel calls
//! themselves (unshare, fork, sethostname, mount, wait) are performed by an
//! unverified driver that executes the actions this library prescribes and
//! feeds their outcomes back as events.

pub mod args;
pub mod launch;
pub mod outcome;
