//! Execution events for elliptic-curve precompiles of a virtual machine.
//!
//! A handler validates its operands, reads them from the executor's memory,
//! lets the curve arithmetic compute, writes the result back and returns a
//! record of everything that happened.
//!
//! - `records`: what the memory notes of each access.
//! - `memory`: the executor's state, a word-addressed memory with a clock.
//! - `bignum`: big integers, for the tests on operands.
//! - `curve`: the curves, what their arithmetic accepts and what it returns.
//! - `events`: the three events and their handlers.

pub mod bignum;
pub mod curve;
pub mod events;
pub mod memory;
pub mod records;
