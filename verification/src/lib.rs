//! Return values for a boundary that carries one double per call.
//!
//! Every value that leaves a call is a [`Wasm`]: the 64 bits of one IEEE-754
//! double. Numbers travel as the double of the same value, small tuples are
//! packed into the 64 bits, and strings and arrays travel as a pair of
//! address and length into an [`Arena`] that keeps them alive until it is
//! cleared. An [`Info`] tells the caller how to read the bits, and
//! [`reading`] says what the caller then has in hand.
//!
//! Floats never occur as such: the library computes on bit patterns, and
//! what surrounds it turns a bit pattern into a float and back.

pub mod double;
pub mod dynamic;
pub mod errorstring;
pub mod json;
pub mod keepalive;
pub mod naming;
pub mod niche;
pub mod number;
pub mod packed;
pub mod pointer;
pub mod reading;
pub mod stash;
pub mod string;
pub mod typedarray;
pub mod typeinfo;
pub mod wasm;
pub mod wrappers;

pub use dynamic::Dynamic;
pub use json::Json;
pub use keepalive::{clear_keepalive, KeepAlive};
pub use packed::{F32Pair, I16Quartet, I32Pair, I8Octet, U16Quartet, U32Pair, U8Octet};
pub use stash::{clear_stash, Arena, Stash};
pub use typeinfo::{ArrayType, Info, Transform, TypeInfo};
pub use wasm::{IntoWasm, ToWasm, Wasm};
