//! Moderation logic of a community chat bot: timed suspensions whose roles
//! are kept aside and given back, their reconciliation when a suspended
//! member rejoins, automatic closing of forum threads, and message cleanup.
pub mod cleanup;
pub mod config;
pub mod dunce;
pub mod forum;
pub mod rejoin;
pub mod time;
