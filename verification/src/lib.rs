//! A bridge library for exposing a game domain to a logic-programming host
//! engine. The host enumerates results through backtracking: a native call
//! can produce one value, suspend as an opaque continuation, and later be
//! resumed for the next value or be discarded. This crate holds the verified
//! core of that protocol: the continuation state, the call-phase dispatcher,
//! the continuation token transport, and the result unifier, together with
//! the pure computations behind the deterministic calls (identifier listing,
//! readiness filtering, planet naming, case folding) and the registration
//! table. The host engine's side — term handles, the game controller, the
//! actual foreign-call entry points — lives outside this crate and hands
//! these functions plain values.

pub mod continuation;
pub mod domain;
pub mod protocol;
pub mod registry;
pub mod slot;
pub mod text;
