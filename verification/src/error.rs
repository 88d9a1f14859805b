//! The crate's error type.

use vstd::prelude::*;

verus! {

/// What can go wrong in the model, the view or the controller.
#[derive(Clone, Copy, Debug, PartialEq, Eq, Structural)]
pub enum Gremlin {
    /// An argument that the function cannot work on.
    InvalidInput,
    /// A position outside the map, or a step that would leave it.
    OutOfMapBounds,
    /// Reading from or writing to the terminal failed.
    IOError,
    /// The receiving end of a channel is gone.
    SendError,
    /// The sending end of a channel is gone, or nothing was waiting in it.
    TryRecvErr,
}

impl Gremlin {
    /// The variant's name, as the error is shown to the user.
    pub fn name(&self) -> (name: &'static str)
        ensures
            name@ == (match *self {
                Gremlin::InvalidInput => "InvalidInput"@,
                Gremlin::OutOfMapBounds => "OutOfMapBounds"@,
                Gremlin::IOError => "IOError"@,
                Gremlin::SendError => "SendError"@,
                Gremlin::TryRecvErr => "TryRecvErr"@,
            }),
    {
        match self {
            Gremlin::InvalidInput => "InvalidInput",
            Gremlin::OutOfMapBounds => "OutOfMapBounds",
            Gremlin::IOError => "IOError",
            Gremlin::SendError => "SendError",
            Gremlin::TryRecvErr => "TryRecvErr",
        }
    }
}

} // verus!
