//! State core of a terminal dashboard for a home-automation hub.
//!
//! The crate holds the shared interface state, the cursor arithmetic of its
//! three browsable collections, and the decisions taken by the three actors
//! that work on that state: the input listener, the poller and the renderer.
//! Every actor is written as a step function from the state and an event to
//! the next state and an action, so that the loops around them only perform
//! the blocking work.

pub mod actors;
pub mod connection;
pub mod fetcher;
pub mod key_handler;
pub mod outside;
pub mod selection;
pub mod types;
pub mod ui;
pub mod ui_types;
