//! Supervision of a backend sidecar process: where its executable is looked
//! for, how it is launched, how its readiness is awaited, and how the handle
//! of the running child is kept and given up again.

pub mod boot;
pub mod error;
pub mod handshake;
pub mod health;
pub mod launch;
pub mod paths;
pub mod poll;
pub mod supervisor;
pub mod text;
