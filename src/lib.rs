//! Resolution of `did:web` identifiers: derivation of the location of an
//! identifier's document, and the outcome of fetching and parsing it.
use vstd::prelude::*;

pub mod error;
pub mod metadata;
pub mod resolver;
pub mod text;
pub mod url;

pub use error::Error;
pub use resolver::DIDWeb;

verus! {

} // verus!
