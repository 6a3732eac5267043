//! A transactional session manager for a relational-database access layer.
//!
//! The crate tracks nested, propagated transactions over one logical
//! connection, coordinates savepoints for nested rollback, and shapes
//! loosely-typed query results (scalars, collections, records) for typed
//! materialization.  The SQL driver itself is a collaborator behind the
//! narrow [`conn::Connection`] interface; everything the session decides —
//! propagation, savepoint bookkeeping, which statements reach the driver —
//! is stated in contracts and verified.

pub mod conn;
pub mod decode;
pub mod errors;
pub mod local_session;
pub mod propagation;
pub mod recording;
pub mod save_point_stack;
pub mod text;
pub mod tx_stack;
pub mod value;
