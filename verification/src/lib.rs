//! Touch-prompt logic for a hardware security key.
//!
//! The crate turns a polled "signing in progress" signal into touch lifecycle
//! events and decides which host actions raise and withdraw the prompt. It does
//! no I/O itself: the host samples the signal, sleeps and performs the actions.

pub mod config;
pub mod detector;
pub mod host;
pub mod icon;
pub mod launch_agent;
pub mod notifier;
pub mod path;
pub mod probe;
pub mod request;
pub mod runner;
