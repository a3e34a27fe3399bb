//! Per-member state of a section.

use vstd::prelude::*;

use crate::id::P2pNode;

verus! {

/// The minimum age a joining peer starts with.
pub const MIN_AGE: u8 = 4;

/// Counts a member's age. Age only ever increases, through churn events, and
/// gates eligibility for relocation and promotion.
#[verifier::ext_equal]
#[derive(Clone, Copy, Debug, PartialEq, Eq, Structural)]
pub struct AgeCounter(pub u8);

impl AgeCounter {
    /// The counter starting at `age`, but never below the minimum age.
    pub fn from_age(age: u8) -> (r: AgeCounter)
        ensures
            r.0 == (if age >= MIN_AGE {
                age as int
            } else {
                MIN_AGE as int
            }),
    {
        if age >= MIN_AGE {
            AgeCounter(age)
        } else {
            AgeCounter(MIN_AGE)
        }
    }

    /// The age the counter stands at.
    pub fn age(&self) -> (r: u8)
        ensures
            r == self.0,
    {
        self.0
    }

    /// Advances the age by one churn event, saturating at the counter's
    /// width.
    pub fn increment(&mut self)
        ensures
            final(self).0 == (if old(self).0 < 255 {
                old(self).0 + 1
            } else {
                255int
            }),
    {
        if self.0 < 255 {
            self.0 = self.0 + 1;
        }
    }
}

/// The lifecycle state of one member.
#[derive(Clone, Copy, Debug, PartialEq, Eq, Structural)]
pub enum MemberState {
    /// The member is present in the section.
    Joined,
    /// The member has left the section.
    Left,
    /// The member has been relocated to another section.
    Relocated,
}

/// What the section knows of one of its members.
#[verifier::ext_equal]
#[derive(Clone, Copy, Debug)]
pub struct MemberInfo {
    /// The member's identity and address.
    pub p2p_node: P2pNode,
    /// The member's age.
    pub age_counter: AgeCounter,
    /// Where the member stands in its lifecycle.
    pub state: MemberState,
}

impl MemberInfo {
    /// A newly joined member of the given age, never below the minimum.
    pub fn new(p2p_node: P2pNode, age: u8) -> (r: MemberInfo)
        ensures
            r.p2p_node == p2p_node,
            r.state == MemberState::Joined,
            r.age_counter.0 == (if age >= MIN_AGE {
                age as int
            } else {
                MIN_AGE as int
            }),
    {
        MemberInfo { p2p_node, age_counter: AgeCounter::from_age(age), state: MemberState::Joined }
    }
}

} // verus!
