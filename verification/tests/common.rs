use roguelike::common::Coords;
use roguelike::error::Gremlin;

#[test]
fn test_north_of() {
    let c_ok = Coords::new(1u16, 1u16);
    let c_err = Coords::new(1u16, 0u16);

    assert_eq!(Coords::north_of(c_ok).unwrap(), Coords::new(1u16, 0u16));
    assert!(Coords::north_of(c_err).is_err());
}

#[test]
fn test_east_of() {
    let c_ok = Coords::new(0u16, 0u16);
    let c_ok2 = Coords::new(0u16, 1u16);
    let c_err = Coords::new(1u16, 0u16);
    let c_err2 = Coords::new(1u16, 1u16);

    assert_eq!(Coords::east_of(c_ok, 2).unwrap(), Coords::new(1u16, 0u16));
    assert_eq!(Coords::east_of(c_ok2, 2).unwrap(), Coords::new(1u16, 1u16));
    assert!(Coords::east_of(c_err, 2).is_err());
    assert!(Coords::east_of(c_err2, 2).is_err());
}

#[test]
fn test_south_of() {
    let c_ok = Coords::new(0u16, 0u16);
    let c_ok2 = Coords::new(1u16, 0u16);
    let c_err = Coords::new(0u16, 1u16);
    let c_err2 = Coords::new(1u16, 1u16);

    assert_eq!(Coords::south_of(c_ok, 2).unwrap(), Coords::new(0u16, 1u16));
    assert_eq!(Coords::south_of(c_ok2, 2).unwrap(), Coords::new(1u16, 1u16));
    assert!(Coords::south_of(c_err, 2).is_err());
    assert!(Coords::south_of(c_err2, 2).is_err());
}

#[test]
fn test_west_of() {
    let c_ok = Coords::new(1u16, 0u16);
    let c_err = Coords::new(0u16, 0u16);

    assert_eq!(Coords::west_of(c_ok).unwrap(), Coords::new(0u16, 0u16));
    assert!(Coords::west_of(c_err).is_err());
}

#[test]
fn coords_new_converts_narrower_integers() {
    let c = Coords::new(3u8, 250u8);
    assert_eq!(c, Coords { x: 3, y: 250 });
}

#[test]
fn steps_off_the_map_are_out_of_bounds() {
    let corner = Coords { x: 0, y: 0 };
    assert_eq!(Coords::north_of(corner), Err(Gremlin::OutOfMapBounds));
    assert_eq!(Coords::west_of(corner), Err(Gremlin::OutOfMapBounds));
    assert_eq!(Coords::east_of(corner, 1), Err(Gremlin::OutOfMapBounds));
    assert_eq!(Coords::south_of(corner, 1), Err(Gremlin::OutOfMapBounds));
}

#[test]
fn a_map_without_tiles_has_no_neighbours() {
    let c = Coords { x: 0, y: 0 };
    assert_eq!(Coords::east_of(c, 0), Err(Gremlin::OutOfMapBounds));
    assert_eq!(Coords::south_of(c, 0), Err(Gremlin::OutOfMapBounds));
}

#[test]
fn steps_at_the_far_edge_of_the_widest_map() {
    let last = Coords { x: u16::MAX - 1, y: u16::MAX - 1 };
    assert_eq!(Coords::east_of(last, u16::MAX), Err(Gremlin::OutOfMapBounds));
    assert_eq!(Coords::south_of(last, u16::MAX), Err(Gremlin::OutOfMapBounds));
    let inner = Coords { x: u16::MAX - 2, y: 7 };
    assert_eq!(Coords::east_of(inner, u16::MAX), Ok(Coords { x: u16::MAX - 1, y: 7 }));
    assert_eq!(Coords::north_of(inner), Ok(Coords { x: u16::MAX - 2, y: 6 }));
}

#[test]
fn error_names() {
    assert_eq!(Gremlin::InvalidInput.name(), "InvalidInput");
    assert_eq!(Gremlin::OutOfMapBounds.name(), "OutOfMapBounds");
    assert_eq!(Gremlin::IOError.name(), "IOError");
    assert_eq!(Gremlin::SendError.name(), "SendError");
    assert_eq!(Gremlin::TryRecvErr.name(), "TryRecvErr");
}
