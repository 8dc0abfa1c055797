//! A minimal on-chain-style project-funding registry, verified.
//!
//! A project record owns a fungible token allocation, progresses through a
//! small lifecycle (`Active`, `Completed`, `Cancelled`), and emits auditable
//! events on creation and on every state change. The host runtime (signature
//! verification, storage allocation, the real asset ledger, the clock) is a
//! collaborator: its decisions arrive as plain values, and its ledger is
//! modelled explicitly so that custody and supply can be reasoned about.

pub mod events;
pub mod keys;
pub mod ledger;
pub mod lifecycle;
pub mod project;
pub mod state;
pub mod table;
