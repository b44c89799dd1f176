//! An adapter between a host runtime and a source transform.
//!
//! A host hands over one value that describes what to transform. The adapter
//! decodes it into a typed configuration ([`decode`]), calls the transform
//! once ([`invoke`]), and encodes what came back as a host value
//! ([`encode`]). How the call ended ([`outcome`]) is then signalled the way
//! the host expects: a native host gets adapter errors raised ([`native`]), a
//! WebAssembly host gets them in the error arm of a two-arm value
//! ([`wasm`]). Diagnostics about the source are an ordinary answer on both.
//!
//! The host's values are modelled by [`value::HostValue`], the typed schema
//! stands in [`schema`], and [`read`] is the host's side of the result
//! encoding. What holds of the whole is proved in [`laws`].

pub mod decode;
pub mod encode;
pub mod error;
pub mod invoke;
pub mod laws;
pub mod native;
pub mod outcome;
pub mod read;
pub mod schema;
pub mod value;
pub mod wasm;
