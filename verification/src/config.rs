//! Network-wide configuration parameters.

use vstd::prelude::*;

use crate::ELDER_SIZE;
use crate::SAFE_SECTION_SIZE;

verus! {

/// Network parameters: number of elders, safe section size.
#[derive(Clone, Copy, Debug)]
pub struct NetworkParams {
    /// The number of elders per section.
    pub elder_size: usize,
    /// Minimum number of nodes we consider safe in a section.
    pub safe_section_size: usize,
}

impl NetworkParams {
    /// Builds the parameters from optional overrides — typically values the
    /// embedding program read from its environment — falling back to the
    /// hard-coded defaults where an override is absent.
    pub fn with_overrides(elder_size: Option<usize>, section_size: Option<usize>) -> (r: NetworkParams)
        ensures
            r.elder_size == (match elder_size {
                Some(n) => n,
                None => ELDER_SIZE,
            }),
            r.safe_section_size == (match section_size {
                Some(n) => n,
                None => SAFE_SECTION_SIZE,
            }),
    {
        NetworkParams {
            elder_size: match elder_size {
                Some(n) => n,
                None => ELDER_SIZE,
            },
            safe_section_size: match section_size {
                Some(n) => n,
                None => SAFE_SECTION_SIZE,
            },
        }
    }
}

impl Default for NetworkParams {
    /// The hard-coded defaults.
    fn default() -> (r: Self)
        ensures
            r.elder_size == ELDER_SIZE,
            r.safe_section_size == SAFE_SECTION_SIZE,
    {
        NetworkParams { elder_size: ELDER_SIZE, safe_section_size: SAFE_SECTION_SIZE }
    }
}

} // verus!
