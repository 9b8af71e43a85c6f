//! Provisioning logic for installing the synconf server application on a
//! host: copying the running executable to a system path, cloning a
//! configuration repository (installing the version-control tool on demand),
//! ensuring a language runtime is present, and fetching the application
//! artifact.
//!
//! Every decision in the install sequence is made here, as a step of an
//! explicit state machine; the surrounding process is expected to perform
//! each requested action (spawn a process, copy a file, issue an HTTP GET)
//! and report its outcome back as an event.

pub mod config;
pub mod deps;
pub mod events;
pub mod fetch;
pub mod installer;
pub mod outcome;
pub mod platform;
pub mod repo;
pub mod selfcopy;
pub mod service;
pub mod urltext;
