//! A PID control loop evaluator, generic over the quantity it controls.
//!
//! `mode` says which terms a run mode uses, `timing` gates cycles to a minimum
//! interval, `law` evaluates one cycle, and `sync` keeps the state carried between
//! cycles and decides each tick of a streaming loop.

pub mod error;
pub mod law;
pub mod mode;
pub mod sync;
pub mod timing;
