//! The compact DORAM configuration record of the context layer, and its
//! error type. The record carries both stash sizes and the choice between
//! them; it has no constructor of its own.
use vstd::prelude::*;

verus! {

#[derive(Clone, Debug, PartialEq)]
pub struct GigaDoramConfig {
    pub log_address_space_size: u32,
    pub num_levels: usize,
    pub log_amp_factor: u32,
    pub use_proven_cht_bounds: bool,
    pub empirical_stash_size: usize,
    pub proven_stash_size: usize,
}

#[derive(Clone, Debug, PartialEq, Eq, Structural)]
pub enum DoramError {
    RebuildRequired,
    MissingShare,
    InvalidLevel,
    NotWriteable,
}

} // verus!
