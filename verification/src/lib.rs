//! A terminal roguelike split into model, view and controller threads.
//!
//! The heart of the crate is [`ecs_access_point`]: the layer that arbitrates
//! concurrent read and write access of those threads to one shared
//! entity-component store, one reader/writer protocol per resource key.
//!
//! - [`ecs_access_point`]: keys, the per-key state machine and its laws, the
//!   accessors behind their locks, guards, and the access point that hands
//!   guards out.
//! - [`sync`]: the locks and condition variables of the standard library that
//!   the crate builds on, taken on trust.
//! - [`common`]: coordinates, directions, the messages between the threads,
//!   and command queues.
//! - [`gameworld`]: the map, how it is built and drawn, and the model's
//!   reaction to a command.
//! - [`user_input`], [`controller`], [`tui`]: what a key means, and how the
//!   controller and the view react to an input.
//! - [`error`]: the error type.

pub mod common;
pub mod controller;
pub mod ecs_access_point;
pub mod error;
pub mod gameworld;
pub mod sync;
pub mod tui;
pub mod user_input;
