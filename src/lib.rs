//! Connectors between the `rettle` batch pipeline and an Elasticsearch index.
//!
//! - `client`: the shared, immutable connection handle.
//! - `fill`: extraction settings and the pagination state machine that decides
//!   which windowed searches are issued and which pages are handed on.
//! - `pour`: load settings and the rules that turn a bulk write's outcome into
//!   what is reported, while the batch itself is always handed back.
use vstd::prelude::*;

pub mod client;
pub mod fill;
pub mod pour;

pub use self::client::EsClient;
pub use self::fill::{FillEsArg, FillEsTea};
pub use self::pour::{PourEsArg, PourEsTea};

verus! {

/// A stage was run without the settings object it needs.
#[derive(Clone, Copy, Debug, PartialEq, Eq, Structural)]
pub enum ConfigurationError {
    MissingArgument,
}

} // verus!
