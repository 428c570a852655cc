//! Blueprint orchestration for NemoClaw sandboxes: the decisions of the
//! `plan`, `apply`, `status` and `rollback` actions, verified with Verus.
pub mod text;
pub mod error;
pub mod blueprint;
pub mod clock;
pub mod protocol;
pub mod state;
pub mod shell;
pub mod plan;
pub mod apply;
pub mod rollback;
pub mod status;
