//! Membership and consensus core of a peer-to-peer node in a sharded overlay
//! network.
//!
//! Sections of nodes are indexed by name prefixes over a fixed-width
//! identifier space. A dynamic set of "elder" nodes agrees on section
//! membership changes through vote accumulation, and a section proof chain
//! lets any party verify a claimed elder set's signing authority from a
//! trusted anchor. A bootstrap state machine drives a new node's discovery
//! of, and attachment to, a section.

use vstd::prelude::*;

pub mod bootstrapping;
pub mod chain;
pub mod chain_accumulator;
pub mod config;
pub mod crypto;
pub mod elders_info;
pub mod error;
pub mod get_group_key;
pub mod id;
pub mod member_info;
pub mod messages;
pub mod network_event;
pub mod relocation;
pub mod rng;
pub mod shared_state;
pub mod utils;
pub mod xor_name;

verus! {

/// Default number of elders per section.
pub const ELDER_SIZE: usize = 7;

/// Default minimum number of nodes a section must hold to be considered safe
/// against churn.
pub const SAFE_SECTION_SIZE: usize = 100;

} // verus!
