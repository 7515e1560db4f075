//! Core of a service whose entities live in two stores at once: their fields
//! in a relational table, their embeddings in a vector index.
//!
//! Nothing in this crate performs I/O. Every operation that needs one of the
//! outside services is an [`model::op::Operation`]: a small state machine
//! that names the request to perform and, handed the reply, decides what
//! comes next. Whoever embeds the crate performs the requests.
//!
//! - [`config`] and [`ctx`] hold what an operation is given: the settings and
//!   the actor.
//! - [`model::store`] is the vector store manager: collections and points.
//! - [`model::embedder`] asks for embeddings.
//! - [`model::task`] coordinates the two stores for the entity `Task`.
//! - [`model::world`] states, as mathematics, how the outside services
//!   answer. The modules whose names end in `laws` prove what the operations
//!   achieve against services that answer so: what is written is read back,
//!   what is deleted is gone, a collection is created once, the relational
//!   store is changed before the vector index, and more.

pub mod config;
pub mod ctx;
pub mod model;
