//! Node identities.

use vstd::prelude::*;

use crate::rng::random_name_bytes;
use crate::xor_name::Prefix;
use crate::xor_name::XorName;

verus! {

/// The public identity of a node, carrying its name in the shared name
/// space.
#[verifier::ext_equal]
#[derive(Clone, Copy, Debug)]
pub struct PublicId {
    /// The node's name.
    pub name: XorName,
}

impl PublicId {
    /// The node's name.
    pub fn name(&self) -> (r: &XorName)
        ensures
            r == self.name,
    {
        &self.name
    }
}

impl PartialEq for PublicId {
    fn eq(&self, other: &Self) -> (r: bool) {
        let r = self.name == other.name;
        proof {
            if self.name == other.name {
                assert(*self =~= *other);
            }
        }
        r
    }
}

impl vstd::std_specs::cmp::PartialEqSpecImpl for PublicId {
    open spec fn obeys_eq_spec() -> bool {
        true
    }

    open spec fn eq_spec(&self, other: &PublicId) -> bool {
        self == other
    }
}

/// A node's own identity. The secret key material backing it lives with the
/// embedding program; the protocol logic only ever reads the public part.
#[verifier::ext_equal]
#[derive(Clone, Copy, Debug)]
pub struct FullId {
    /// The public part of the identity.
    pub public_id: PublicId,
}

impl FullId {
    /// The public part of the identity.
    pub fn public_id(&self) -> (r: &PublicId)
        ensures
            r == self.public_id,
    {
        &self.public_id
    }

    /// A fresh identity under the given name.
    pub fn with_name(name: XorName) -> (r: FullId)
        ensures
            r.public_id.name == name,
    {
        FullId { public_id: PublicId { name } }
    }

    /// A fresh identity with a randomly drawn name.
    pub fn gen() -> FullId {
        FullId { public_id: PublicId { name: XorName(random_name_bytes()) } }
    }

    /// A fresh identity whose name is drawn at random and then forced under
    /// `prefix`, so that it always lies in the wanted range.
    pub fn within_range(prefix: &Prefix) -> (r: FullId)
        requires
            prefix.wf(),
        ensures
            prefix.spec_matches(r.public_id.name@),
    {
        let draw = XorName(random_name_bytes());
        FullId { public_id: PublicId { name: prefix.substituted_in(&draw) } }
    }
}

/// A node's identity together with the address it can be reached at. The
/// address is an opaque token handed out by the transport.
#[verifier::ext_equal]
#[derive(Clone, Copy, Debug)]
pub struct P2pNode {
    /// The node's public identity.
    pub public_id: PublicId,
    /// The transport address token of the node.
    pub peer_addr: u64,
}

impl P2pNode {
    /// Creates the pairing of an identity with its address.
    pub fn new(public_id: PublicId, peer_addr: u64) -> (r: P2pNode)
        ensures
            r.public_id == public_id,
            r.peer_addr == peer_addr,
    {
        P2pNode { public_id, peer_addr }
    }

    /// The node's public identity.
    pub fn public_id(&self) -> (r: &PublicId)
        ensures
            r == self.public_id,
    {
        &self.public_id
    }

    /// The node's name.
    pub fn name(&self) -> (r: &XorName)
        ensures
            r == self.public_id.name,
    {
        &self.public_id.name
    }

    /// The node's transport address token.
    pub fn peer_addr(&self) -> (r: u64)
        ensures
            r == self.peer_addr,
    {
        self.peer_addr
    }
}

impl PartialEq for P2pNode {
    fn eq(&self, other: &Self) -> (r: bool) {
        let r = self.public_id == other.public_id && self.peer_addr == other.peer_addr;
        proof {
            if self.public_id == other.public_id && self.peer_addr == other.peer_addr {
                assert(*self =~= *other);
            }
        }
        r
    }
}

impl vstd::std_specs::cmp::PartialEqSpecImpl for P2pNode {
    open spec fn obeys_eq_spec() -> bool {
        true
    }

    open spec fn eq_spec(&self, other: &P2pNode) -> bool {
        self == other
    }
}

} // verus!
