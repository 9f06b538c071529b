//! A verifiable-computation pipeline around a deterministic guest program.
//!
//! A guest program reads private inputs, computes a Fibonacci value, checks it
//! against a claimed value, and commits public outputs; a host-side workflow
//! executes the guest, produces a compressed proof bound to the circuit
//! identity and to the committed public values, and serializes the proof
//! artifacts; a verification workflow decodes the artifacts and checks the
//! proof against a verifying key.

pub mod artifacts;
pub mod backend;
pub mod bytes;
pub mod channels;
pub mod digest;
pub mod fib;
pub mod guest;
pub mod pipeline;
