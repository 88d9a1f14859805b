//! What the three threads send each other through their channels.

use crate::common::Dir;
use vstd::prelude::*;

verus! {

/// Sent by the controller to the view: one user input, translated.
#[derive(Clone, Copy, PartialEq, Eq, Debug, Structural)]
pub enum InputEvent {
    Hjkl(Dir),
    Wasd(Dir),
    Cancel,
    Confirm,
    Tab,
    BackTab,
    Delete,
    Menu,
    Null,
    /// Ends the program.
    Exit,
}

/// Sent by the view to the model: a change to make in the game world.
#[derive(PartialEq, Eq, Debug, Structural)]
pub enum MutateCommand {
    Test,
    Exit,
}

/// Sent by the model to the view: what has changed in the game world.
#[derive(PartialEq, Eq, Debug, Structural)]
pub enum DeltaNotification {
    MapDirty,
}

} // verus!
