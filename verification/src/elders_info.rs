//! Immutable snapshots of one section's elder membership.

use vstd::prelude::*;

use crate::error::RoutingError;
use crate::id::P2pNode;
use crate::id::PublicId;
use crate::xor_name::Prefix;
use crate::xor_name::XorName;

verus! {

/// The quorum policy: the smallest count strictly greater than two thirds of
/// `n` voters.
pub open spec fn spec_quorum_count(n: int) -> int {
    2 * n / 3 + 1
}

/// Returns the number of votes needed to accept a fact in an elder set of
/// `elder_size` members: the smallest count strictly greater than two thirds
/// of it.
pub fn quorum_count(elder_size: usize) -> (r: usize)
    requires
        elder_size <= usize::MAX / 2,
    ensures
        r == spec_quorum_count(elder_size as int),
{
    elder_size * 2 / 3 + 1
}

/// Whether all member names in the sequence are pairwise distinct.
pub open spec fn names_distinct_in(s: Seq<P2pNode>) -> bool {
    forall|i: int, j: int|
        0 <= i < j < s.len() ==> (#[trigger] s[i]).public_id.name != (#[trigger] s[j]).public_id.name
}

/// Checks that all member names are pairwise distinct.
fn names_distinct(members: &Vec<P2pNode>) -> (r: bool)
    ensures
        r == names_distinct_in(members@),
{
    let n = members.len();
    if n <= 1 {
        return true;
    }
    let mut i: usize = 1;
    while i < n
        invariant
            n == members@.len(),
            1 <= i <= n,
            forall|a: int, b: int|
                0 <= a < b < i ==> (#[trigger] members@[a]).public_id.name != (
                #[trigger] members@[b]).public_id.name,
        decreases n - i,
    {
        let mut j: usize = 0;
        while j < i
            invariant
                n == members@.len(),
                j <= i < n,
                forall|a: int|
                    0 <= a < j ==> (#[trigger] members@[a]).public_id.name != members@[
                        i as int].public_id.name,
            decreases i - j,
        {
            if members[j].public_id.name == members[i].public_id.name {
                return false;
            }
            j += 1;
        }
        i += 1;
    }
    true
}

/// An immutable description of one section's elder membership at one
/// version. A new elder set is always a new snapshot whose version is the
/// previous one plus one.
#[verifier::ext_equal]
#[derive(Clone, Debug)]
pub struct EldersInfo {
    /// The elders, with pairwise distinct names.
    pub members: Vec<P2pNode>,
    /// The section's prefix.
    pub prefix: Prefix,
    /// The snapshot's version, increasing by one with every elder change.
    pub version: u64,
}

impl EldersInfo {
    /// What every constructed snapshot satisfies: a canonical prefix, at
    /// least one elder and pairwise distinct names.
    pub open spec fn wf(self) -> bool {
        &&& self.prefix.wf()
        &&& self.members@.len() > 0
        &&& names_distinct_in(self.members@)
    }

    /// Whether an elder of the given name is in the snapshot.
    pub open spec fn spec_contains(self, name: XorName) -> bool {
        exists|i: int| 0 <= i < self.members@.len() && (#[trigger] self.members@[i]).public_id.name == name
    }

    /// Creates the snapshot that succeeds `prev` (or a genesis snapshot at
    /// version zero) with the given members. Fails on an empty or repeating
    /// member list, and on a version that cannot grow further.
    pub fn new(members: Vec<P2pNode>, prefix: Prefix, prev: Option<&EldersInfo>) -> (r: Result<
        EldersInfo,
        RoutingError,
    >)
        requires
            prefix.wf(),
        ensures
            match r {
                Ok(info) => {
                    &&& info.wf()
                    &&& info.members == members
                    &&& info.prefix == prefix
                    &&& info.version == (match prev {
                        Some(p) => p.version + 1,
                        None => 0int,
                    })
                },
                Err(e) => {
                    &&& (e == RoutingError::InvalidElderSet || e == RoutingError::InvalidElderVersion)
                    &&& (e == RoutingError::InvalidElderSet <==> (members@.len() == 0
                        || !names_distinct_in(members@)))
                },
            },
            r is Ok <==> (members@.len() > 0 && names_distinct_in(members@) && (match prev {
                Some(p) => p.version < u64::MAX,
                None => true,
            })),
    {
        if members.len() == 0 || !names_distinct(&members) {
            return Err(RoutingError::InvalidElderSet);
        }
        let version: u64 = match prev {
            Some(p) => {
                if p.version == u64::MAX {
                    return Err(RoutingError::InvalidElderVersion);
                }
                p.version + 1
            },
            None => 0,
        };
        Ok(EldersInfo { members, prefix, version })
    }

    /// Creates a snapshot at an arbitrary version, for seeding test states.
    pub fn new_for_test(members: Vec<P2pNode>, prefix: Prefix, version: u64) -> (r: Result<
        EldersInfo,
        RoutingError,
    >)
        requires
            prefix.wf(),
        ensures
            match r {
                Ok(info) => {
                    &&& info.wf()
                    &&& info.members == members
                    &&& info.prefix == prefix
                    &&& info.version == version
                },
                Err(e) => e == RoutingError::InvalidElderSet,
            },
            r is Ok <==> (members@.len() > 0 && names_distinct_in(members@)),
    {
        if members.len() == 0 || !names_distinct(&members) {
            return Err(RoutingError::InvalidElderSet);
        }
        Ok(EldersInfo { members, prefix, version })
    }

    /// The number of elders in the snapshot.
    pub fn len(&self) -> (r: usize)
        ensures
            r == self.members@.len(),
    {
        self.members.len()
    }

    /// The section's prefix.
    pub fn prefix(&self) -> (r: &Prefix)
        ensures
            r == self.prefix,
    {
        &self.prefix
    }

    /// The snapshot's version.
    pub fn version(&self) -> (r: u64)
        ensures
            r == self.version,
    {
        self.version
    }

    /// The elders of the snapshot.
    pub fn member_nodes(&self) -> (r: &Vec<P2pNode>)
        ensures
            r == self.members,
    {
        &self.members
    }

    /// Where the elder of the given name stands in the member list.
    pub fn position_of_name(&self, name: &XorName) -> (r: Option<usize>)
        ensures
            match r {
                Some(i) => i < self.members@.len() && self.members@[i as int].public_id.name
                    == name,
                None => !self.spec_contains(*name),
            },
    {
        let n = self.members.len();
        let mut i: usize = 0;
        while i < n
            invariant
                n == self.members@.len(),
                i <= n,
                forall|j: int|
                    0 <= j < i ==> (#[trigger] self.members@[j]).public_id.name != name,
            decreases n - i,
        {
            if self.members[i].public_id.name == *name {
                return Some(i);
            }
            i += 1;
        }
        None
    }

    /// Whether an elder of the given name is in the snapshot.
    pub fn contains(&self, name: &XorName) -> (r: bool)
        ensures
            r == self.spec_contains(*name),
    {
        self.position_of_name(name).is_some()
    }

    /// Whether the given identity is one of the elders.
    pub fn contains_id(&self, id: &PublicId) -> (r: bool)
        ensures
            r == self.spec_contains(id.name),
    {
        self.contains(&id.name)
    }
}

/// Checks element-wise equality of two member lists.
fn same_members(a: &Vec<P2pNode>, b: &Vec<P2pNode>) -> (r: bool)
    ensures
        r == (a@ == b@),
{
    if a.len() != b.len() {
        return false;
    }
    let n = a.len();
    let mut i: usize = 0;
    while i < n
        invariant
            n == a@.len(),
            n == b@.len(),
            i <= n,
            forall|j: int| 0 <= j < i ==> a@[j] == b@[j],
        decreases n - i,
    {
        if !(a[i] == b[i]) {
            return false;
        }
        i += 1;
    }
    proof {
        assert(a@ =~= b@);
    }
    true
}

impl EldersInfo {
    /// Whether two snapshots describe the same elder set: same members in
    /// the same order, same prefix and same version.
    pub open spec fn equiv(self, other: EldersInfo) -> bool {
        &&& self.members@ == other.members@
        &&& self.prefix == other.prefix
        &&& self.version == other.version
    }

    /// A content-equal copy of the snapshot.
    pub fn duplicate(&self) -> (r: EldersInfo)
        ensures
            r.equiv(*self),
    {
        let n = self.members.len();
        let mut members: Vec<P2pNode> = Vec::new();
        let mut i: usize = 0;
        while i < n
            invariant
                n == self.members@.len(),
                i <= n,
                members@ == self.members@.subrange(0, i as int),
            decreases n - i,
        {
            members.push(self.members[i]);
            proof {
                assert(members@ =~= self.members@.subrange(0, i + 1));
            }
            i += 1;
        }
        proof {
            assert(self.members@.subrange(0, n as int) =~= self.members@);
        }
        EldersInfo { members, prefix: self.prefix, version: self.version }
    }
}

impl PartialEq for EldersInfo {
    fn eq(&self, other: &Self) -> (r: bool) {
        same_members(&self.members, &other.members) && self.prefix == other.prefix && self.version
            == other.version
    }
}

impl vstd::std_specs::cmp::PartialEqSpecImpl for EldersInfo {
    open spec fn obeys_eq_spec() -> bool {
        true
    }

    open spec fn eq_spec(&self, other: &EldersInfo) -> bool {
        self.equiv(*other)
    }
}

/// Test helper to create an arbitrary elder-set snapshot.
pub fn elders_info_for_test(members: Vec<P2pNode>, prefix: Prefix, version: u64) -> (r: Result<
    EldersInfo,
    RoutingError,
>)
    requires
        prefix.wf(),
    ensures
        match r {
            Ok(info) => {
                &&& info.wf()
                &&& info.members == members
                &&& info.prefix == prefix
                &&& info.version == version
            },
            Err(e) => e == RoutingError::InvalidElderSet,
        },
        r is Ok <==> (members@.len() > 0 && names_distinct_in(members@)),
{
    EldersInfo::new_for_test(members, prefix, version)
}

} // verus!
