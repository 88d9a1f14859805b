//! The model: the game world and what it keeps in the shared store.

pub mod resources;

use crate::common::{MutateCommand, Ticker};
use vstd::prelude::*;

verus! {

/// What the model does about one command from the view: whether it shows the
/// map, and whether its loop goes on.
pub struct Response {
    pub show_map: bool,
    pub ticker: Ticker,
}

/// The test command shows the map, the exit command ends the model's loop.
pub open spec fn response_to(cmd: MutateCommand) -> Response {
    match cmd {
        MutateCommand::Test => Response { show_map: true, ticker: Ticker::Continue },
        MutateCommand::Exit => Response { show_map: false, ticker: Ticker::ExitProgram },
    }
}

/// Decides what to do about one command.
pub fn react(cmd: MutateCommand) -> (response: Response)
    ensures
        response == response_to(cmd),
{
    match cmd {
        MutateCommand::Test => Response { show_map: true, ticker: Ticker::Continue },
        MutateCommand::Exit => Response { show_map: false, ticker: Ticker::ExitProgram },
    }
}

} // verus!
