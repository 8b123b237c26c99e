//! A minimal process-isolation bootstrapper, verified.
//!
//! Given a command and a prepared root filesystem directory, the launcher
//! splits into a supervisor and a worker; the worker enters fresh PID and
//! mount namespaces, switches its filesystem root to the prepared directory,
//! makes `/proc` usable inside it, and replaces itself with the command.
//!
//! The library holds the decision logic: the mount-table scan that guards
//! against a duplicate `/proc` mount, the ordered isolation sequence, the
//! launch sequencing, and the deploy path computation. The unverified
//! binary around it performs the system calls the decisions ask for and
//! hands the outcomes back as events.

pub mod deploy;
pub mod isolation;
pub mod launcher;
pub mod mount_table;
