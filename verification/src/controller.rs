//! The controller: what it does with one translated input.

use crate::common::{InputEvent, Ticker};
use vstd::prelude::*;

verus! {

/// The phase that the program is in.
#[derive(Debug)]
pub enum RunState {
    AwaitingInput { previous: Box<RunState> },
    GameOver,
    GameWorld,
    Tui,
    MainMenu,
    MapGeneration,
    NextLevel,
    PreRun,
}

impl Clone for RunState {
    fn clone(&self) -> (copy: Self)
        ensures
            copy == *self,
        decreases *self,
    {
        match self {
            RunState::AwaitingInput { previous } => {
                let inner: RunState = (**previous).clone();
                RunState::AwaitingInput { previous: Box::new(inner) }
            },
            RunState::GameOver => RunState::GameOver,
            RunState::GameWorld => RunState::GameWorld,
            RunState::Tui => RunState::Tui,
            RunState::MainMenu => RunState::MainMenu,
            RunState::MapGeneration => RunState::MapGeneration,
            RunState::NextLevel => RunState::NextLevel,
            RunState::PreRun => RunState::PreRun,
        }
    }
}

/// What the controller does about one input: the event that it sends on to the
/// view, and whether its loop goes on.
pub struct Forward {
    pub to_view: InputEvent,
    pub ticker: Ticker,
}

/// Every input goes on to the view as it is. The input that ends the program
/// ends the controller's loop too.
pub open spec fn forwarding(user_input: InputEvent) -> Forward {
    Forward {
        to_view: user_input,
        ticker: if user_input == InputEvent::Exit {
            Ticker::ExitProgram
        } else {
            Ticker::Continue
        },
    }
}

/// Decides what to do about one input, whatever phase the program is in.
pub fn react(user_input: InputEvent) -> (forward: Forward)
    ensures
        forward == forwarding(user_input),
{
    match user_input {
        InputEvent::Exit => Forward { to_view: InputEvent::Exit, ticker: Ticker::ExitProgram },
        other => Forward { to_view: other, ticker: Ticker::Continue },
    }
}

} // verus!
