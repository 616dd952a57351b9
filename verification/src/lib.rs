//! Lifecycle engine of an asymmetric, stackful coroutine.
//!
//! A coroutine and its resumer take turns: exactly one of them runs while the
//! other is parked inside a context switch. Everything they exchange passes
//! through one slot of the coroutine's record, written by the side that is
//! about to give control away and emptied by the side that receives it.
//!
//! The context switch itself moves the stack pointer and cannot be expressed
//! here. Each operation of the engine is therefore given as the part that runs
//! before the switch and the part that runs after it; the caller performs the
//! switch in between. What each part does to the record is stated and proved.
//!
//! - `record`: the record as a mathematical value, and the steps on it
//! - `asymmetric`: the coroutine itself, whose operations are those steps
//! - `protocol`: what the steps add up to over whole runs
//! - `raw`: a context paired with the stack it runs on
//! - `stack`: stack segments and the pool that keeps idle ones
//! - `options`, `error`: what a coroutine is made with, and how it fails

pub mod asymmetric;
pub mod error;
pub mod options;
pub mod protocol;
pub mod raw;
pub mod record;
pub mod stack;
