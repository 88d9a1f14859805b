//! Types that the model, the view and the controller share.

pub mod command;
pub mod transmittables;

use crate::error::Gremlin;
use vstd::prelude::*;

pub use transmittables::{DeltaNotification, InputEvent, MutateCommand};

verus! {

/// What a thread's `tick` tells its loop to do next.
#[derive(Copy, Clone, PartialEq, Eq, Debug, Structural)]
pub enum Ticker {
    ExitProgram,
    Continue,
}

/// The eight directions of the compass.
#[derive(PartialEq, Eq, Copy, Clone, Debug, Structural)]
pub enum Dir {
    N,
    NE,
    E,
    SE,
    S,
    SW,
    W,
    NW,
}

/// A tile's position on a square map: `x` counts columns from the west edge,
/// `y` counts rows from the north edge.
#[derive(PartialEq, Eq, Copy, Clone, Hash, Debug, Structural)]
pub struct Coords {
    pub x: u16,
    pub y: u16,
}

impl Coords {
    /// The position with the given column and row, each converted to `u16` as
    /// the standard library converts it.
    pub fn new<T: Into<u16>>(x: T, y: T) -> (c: Self)
        ensures
            call_ensures(T::into, (x,), c.x),
            call_ensures(T::into, (y,), c.y),
    {
        Coords { x: x.into(), y: y.into() }
    }

    /// The neighbour to the north, if `c` is not in the northernmost row.
    pub fn north_of(c: Coords) -> (r: Result<Coords, Gremlin>)
        ensures
            c.y > 0 ==> r == Ok::<Coords, Gremlin>(Coords { x: c.x, y: (c.y - 1) as u16 }),
            c.y == 0 ==> r == Err::<Coords, Gremlin>(Gremlin::OutOfMapBounds),
    {
        if c.y > 0 {
            return Ok(Coords { x: c.x, y: c.y - 1 });
        }
        Err(Gremlin::OutOfMapBounds)
    }

    /// The neighbour to the east, if `c` is west of the last column of a map
    /// that is `square_map_width` tiles wide.
    pub fn east_of(c: Coords, square_map_width: u16) -> (r: Result<Coords, Gremlin>)
        ensures
            c.x + 1 < square_map_width ==> r == Ok::<Coords, Gremlin>(
                Coords { x: (c.x + 1) as u16, y: c.y },
            ),
            c.x + 1 >= square_map_width ==> r == Err::<Coords, Gremlin>(Gremlin::OutOfMapBounds),
    {
        if square_map_width > 0 && c.x < square_map_width - 1 {
            return Ok(Coords { x: c.x + 1, y: c.y });
        }
        Err(Gremlin::OutOfMapBounds)
    }

    /// The neighbour to the south, if `c` is north of the last row of a map
    /// that is `square_map_width` tiles high.
    pub fn south_of(c: Coords, square_map_width: u16) -> (r: Result<Coords, Gremlin>)
        ensures
            c.y + 1 < square_map_width ==> r == Ok::<Coords, Gremlin>(
                Coords { x: c.x, y: (c.y + 1) as u16 },
            ),
            c.y + 1 >= square_map_width ==> r == Err::<Coords, Gremlin>(Gremlin::OutOfMapBounds),
    {
        if square_map_width > 0 && c.y < square_map_width - 1 {
            return Ok(Coords { x: c.x, y: c.y + 1 });
        }
        Err(Gremlin::OutOfMapBounds)
    }

    /// The neighbour to the west, if `c` is not in the westernmost column.
    pub fn west_of(c: Coords) -> (r: Result<Coords, Gremlin>)
        ensures
            c.x > 0 ==> r == Ok::<Coords, Gremlin>(Coords { x: (c.x - 1) as u16, y: c.y }),
            c.x == 0 ==> r == Err::<Coords, Gremlin>(Gremlin::OutOfMapBounds),
    {
        if c.x > 0 {
            return Ok(Coords { x: c.x - 1, y: c.y });
        }
        Err(Gremlin::OutOfMapBounds)
    }
}

} // verus!
