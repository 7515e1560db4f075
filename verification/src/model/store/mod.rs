//! The two stores an entity lives in, seen from the core.

pub mod bootstrap;
pub mod bootstrap_laws;
pub mod collection_laws;
pub mod collections;
pub mod db_store;
pub mod error;
pub mod point_laws;
pub mod points;
pub mod vec_store;
pub mod vec_wire;

pub use self::error::{Error, Result};
pub use self::vec_store::VecStore;
