//! Conversion of a plain, owned data model — scalars, tuples, boxes,
//! sequences, maps, and user aggregates — into an isomorphic
//! reflection structure in which every nested value sits in its own
//! independently mutable reactive cell, so a reactive layer can
//! observe and update nested data at field granularity without
//! hand-written wiring.
//!
//! The conversion protocol is the [`Observable`] trait: a forward
//! conversion that consumes a value and builds its cell-granular
//! mirror, and a reverse conversion that snapshots every cell and
//! rebuilds the value. The `generator` and `emit` modules hold the
//! build-time generator that produces, from the shape of a user
//! aggregate, the mirror type and the protocol implementation for it;
//! the `mirror` module shows that output, one example per supported
//! shape.
//!
//! Reverse conversion reads each cell as an instantaneous snapshot.
//! Mutating a cell concurrently with a reverse conversion of the same
//! reflection is not supported; the cells themselves come from the
//! reactive runtime and carry no locking here.

mod cell;
mod containers;
pub mod emit;
pub mod generator;
pub mod mirror;
mod observable;
mod primitives;
mod tuples;

pub use cell::ReactiveCell;
pub use observable::Observable;
pub use observable::ReverseError;
pub use observable::reverse_error_message;
pub use observable::round_trip;
