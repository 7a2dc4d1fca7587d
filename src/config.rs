//! The persisted settings of the tool.
use vstd::prelude::*;

verus! {

/// Where the store is reached.
#[derive(Clone, Debug, Default, PartialEq, Eq, Hash)]
pub struct Config {
    pub postgres_url: String,
}

} // verus!
