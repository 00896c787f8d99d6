//! Core of an interactive terminal application: a cooperative loop that
//! multiplexes terminal input, periodic timers and lifecycle signals into an
//! ordered stream of actions, drained against a set of components, while a
//! terminal session state machine owns the raw-mode/alternate-screen toggles.
//!
//! The asynchronous plumbing (channels, tasks, the actual terminal handle)
//! lives outside; this crate holds the decisions: what each polled input
//! becomes, how the action queue is drained, and when the loop suspends,
//! resumes or quits.

pub mod action;
pub mod config;
pub mod event;
pub mod home;
pub mod keys;
pub mod runner;
pub mod terminal;
