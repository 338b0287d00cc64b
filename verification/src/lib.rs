//! Supervision core for an always-on-top overlay: the rules that decide when
//! the overlay windows are created and closed, how the outline helper process
//! is started, updated and torn down, and what travels over its control
//! channel.
//!
//! Nothing here touches the operating system. Every operation takes what the
//! caller observed (which windows exist, which paths exist, how a step ended)
//! and answers with the next state and the steps to perform, in order.

pub mod decimal;
pub mod json;
pub mod protocol;
pub mod error;
pub mod locate;
pub mod windows;
pub mod supervisor;
pub mod controller;
pub mod auth;
pub mod system;
