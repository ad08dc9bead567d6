//! The decisions of a controller that keeps a proxy edge running: which machine a
//! deployment uses, what is done and undone on the way, whom an agent is trusted
//! as, and when a change at a provider counts as made.
//!
//! Nothing here reads a file, asks a provider or waits. A function takes what was
//! seen and says what is to be done next; the program around the library does it
//! and comes back with what it saw. Each change that must not be made twice is a
//! small machine over [`once`]: one request, a bounded number of looks, and
//! success only where a look proves it.

pub mod access;
pub mod adapter;
pub mod agent;
pub mod application;
pub mod authority;
pub mod bootstrap;
pub mod catalog;
pub mod cleanup;
pub mod cli;
pub mod controller_command;
pub mod deploy;
pub mod destroy;
pub mod digest;
pub mod dns;
pub mod doctor;
pub mod error;
pub mod firewall;
pub mod ipv4;
pub mod json;
pub mod lifecycle;
pub mod lists;
pub mod local_runtime;
pub mod machine;
pub mod mesh;
pub mod once;
pub mod order;
pub mod provider;
pub mod reconcile;
pub mod records;
pub mod requests;
pub mod secrets;
pub mod selector;
pub mod ssh_access;
pub mod status;
pub mod substrate;
pub mod support;
pub mod target;
pub mod text;
pub mod trust;
pub mod vpc_command;
pub mod vultr_command;
pub mod zero_trust;
