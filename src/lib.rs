//! A zero-knowledge proof that public values are the sum, product and
//! difference of two private field elements, over halo2 on the Pallas curve.
//!
//! - `field`: elements of the Pallas base field as canonical encodings.
//! - `arith`: private inputs and the relation the circuit proves.
//! - `circuit`: the rows the arithmetic chip lays out.
//! - `encoding`: the byte encoding of a public instance.
//! - `lifecycle`: keys, proof creation and verification.

pub mod arith;
pub mod circuit;
pub mod encoding;
pub mod field;
pub mod lifecycle;
