//! A small event-sourcing kernel for a patient record: an aggregate that
//! turns commands into events and folds events into state, an append-only
//! event store with an optimistic-concurrency check, the pipeline that
//! runs a command through both, and a projector that folds events onto a
//! read-model snapshot.

pub mod aggregate;
pub mod handler;
mod ids;
pub mod projector;
pub mod store;
pub mod types;
