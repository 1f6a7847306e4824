//! Supporting building blocks for a zero-knowledge virtual-machine prover:
//! the column schema of the execution-trace tables, and a BLAKE3-backed
//! sponge permutation and hashing backend over field elements.

pub mod columns;
pub mod field;
pub mod hashing;
pub mod sponge;
