//! A toroidal Game of Life grid that several participants keep in step by
//! exchanging cell events over a publish/subscribe channel.
//!
//! The library holds the simulation engine and the rules for merging events
//! into a grid. The mathematical model of a grid is [`board::Board`]; every
//! contract of [`universe::Universe`] is stated over it.

pub mod board;
pub mod cell;
pub mod event;
pub mod seed;
pub mod transport;
pub mod universe;

pub use board::Board;
pub use cell::Cell;
pub use event::apply;
pub use event::ApplyError;
pub use event::Event;
pub use seed::SeedPolicy;
pub use transport::publish_url;
pub use transport::subscribe_url;
pub use transport::Endpoint;
pub use universe::Universe;
