//! Decisions of a rootless container launch: which privileged operations run,
//! in which order and with which arguments, to move a command into fresh
//! namespaces under a supplied root filesystem.
pub mod decimal;
pub mod options;
pub mod launch;
pub mod guarantees;
