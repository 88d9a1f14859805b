//! The view: what it does with one input event from the controller.

pub mod observer;

use crate::common::{InputEvent, MutateCommand, Ticker};
use vstd::prelude::*;

verus! {

/// What the view does about one input event: the command that it sends to the
/// model, if any, and whether its loop goes on.
pub struct Reaction {
    pub to_model: Option<MutateCommand>,
    pub ticker: Ticker,
}

/// A confirmation has the model run its test, the end of the program is
/// passed on to the model and ends the view's loop, and nothing else is acted
/// upon yet.
pub open spec fn reaction_to(message: InputEvent) -> Reaction {
    match message {
        InputEvent::Confirm => Reaction {
            to_model: Some(MutateCommand::Test),
            ticker: Ticker::Continue,
        },
        InputEvent::Exit => Reaction {
            to_model: Some(MutateCommand::Exit),
            ticker: Ticker::ExitProgram,
        },
        _ => Reaction { to_model: None, ticker: Ticker::Continue },
    }
}

/// Decides what to do about one input event.
pub fn react(message: InputEvent) -> (reaction: Reaction)
    ensures
        reaction == reaction_to(message),
{
    match message {
        InputEvent::Confirm => Reaction {
            to_model: Some(MutateCommand::Test),
            ticker: Ticker::Continue,
        },
        InputEvent::Exit => Reaction {
            to_model: Some(MutateCommand::Exit),
            ticker: Ticker::ExitProgram,
        },
        _ => Reaction { to_model: None, ticker: Ticker::Continue },
    }
}

} // verus!
