//! Lifecycle orchestration for a streaming pipeline process: a topology of
//! sources, transforms and sinks that runs under one configuration at a time.
//!
//! The library decides; it does no work of its own. It is made of two state
//! machines and the data they decide on:
//!
//! - [`config`], [`diff`] and [`topology`] describe configurations, the
//!   difference between two of them, and the running topology with the
//!   reconciliation that leads it from one configuration to the next;
//! - [`control`] is the control loop: reload, shutdown, escalation to an
//!   immediate quit, crash handling;
//! - [`bootstrap`], [`logging`] and [`options`] prepare the application before
//!   the control loop begins, and [`application`] hands it over;
//! - [`laws`] states what holds of the two machines whatever they are given;
//! - [`host`] holds what is taken on trust from the platform.
//!
//! Whoever runs the machines performs the action that each step asks for and
//! hands back its result as the next input.

pub mod application;
pub mod bootstrap;
pub mod config;
pub mod control;
pub mod diff;
pub mod event;
pub mod host;
pub mod laws;
pub mod logging;
pub mod options;
pub mod signal;
pub mod topology;
