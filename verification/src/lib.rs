//! Transactional provisioning of a game server host.
//!
//! A setup is a plan: an ordered list of actions, each of which creates one
//! thing on the host and can take it back. [`plan::ServerSetupManager`]
//! executes a plan front to back and, when an action fails, reverts what
//! lies before it back to front.
//!
//! The library decides; it never touches the host. What the host looks like
//! comes in as plain values, the probes of [`host`] and of the actions under
//! [`action::base`], and what is to be done to it goes out as plain values,
//! the operations of [`action::lib`] and [`cache`]. Whoever drives the
//! library implements [`action::Action`] for a host of its own and performs
//! there what the actions ask for.
//!
//! What the functions return is stated in their contracts, and the contracts
//! are proved. The few places that rest on other crates say so: [`version`]
//! reads version numbers, [`fabric`] forms addresses, and [`fingerprint`]
//! hashes.

pub mod action;
pub mod cache;
pub mod cli;
pub mod config;
pub mod fabric;
pub mod fingerprint;
pub mod host;
pub mod installer;
pub mod java;
pub mod minecraft;
pub mod modpack;
pub mod network;
pub mod plan;
pub mod text;
pub mod text_map;
pub mod version;
