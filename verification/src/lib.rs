//! Core of a first-boot setup wizard for a Linux distribution.
//!
//! The crate collects the pieces of a first-boot configuration — locale,
//! user account, hostname, clock mode, timezone and swap-file size — into a
//! [`config::OobeConfig`], gates what may enter it through character-level
//! validators, recommends a swap-file size from the machine's memory, and
//! turns one submitted configuration into the exact ordered sequence of
//! system-mutation actions that a front end must perform.
//!
//! The actual OS mutations (setting the hostname, creating the user, and so
//! on) are irreversible side effects performed outside this crate; here they
//! are planned, ordered and short-circuited on failure, and those guarantees
//! are stated in contracts and proved.

pub mod catalog;
pub mod config;
pub mod pipeline;
pub mod swap_size;
pub mod validate;
