//! The section proof chain: a verifiable history of section signing keys.
//!
//! Each link attests the next key with a threshold signature by the previous
//! key set, so any party holding a trusted anchor can establish trust in a
//! later key by walking the links. The genesis key is trusted out of band.

use vstd::prelude::*;

use crate::crypto::bls_sig_valid;
use crate::crypto::bls_verify;
use crate::elders_info::EldersInfo;
use crate::error::RoutingError;
use crate::utils::bytes_eq;
use crate::utils::copy_bytes;
use crate::xor_name::Prefix;
use crate::xor_name::XOR_NAME_LEN;

verus! {

broadcast use vstd::array::group_array_axioms;

/// One section signing key, with the prefix and version it signs for.
#[verifier::ext_equal]
#[derive(Clone, Debug)]
pub struct SectionKeyInfo {
    /// The version of the elder set holding the key.
    pub version: u64,
    /// The prefix of the section the key signs for.
    pub prefix: Prefix,
    /// The public key, as bytes.
    pub key: Vec<u8>,
}

/// Whether two key infos carry the same version, prefix and key bytes.
pub open spec fn key_info_equiv(a: SectionKeyInfo, b: SectionKeyInfo) -> bool {
    &&& a.version == b.version
    &&& a.prefix == b.prefix
    &&& a.key@ == b.key@
}

/// The canonical byte encoding of a key info, the payload its attesting
/// signature covers: version, prefix bit count, prefix base name, key bytes.
pub open spec fn spec_signable(k: SectionKeyInfo) -> Seq<u8> {
    vstd::bytes::spec_u64_to_le_bytes(k.version) + vstd::bytes::spec_u64_to_le_bytes(
        k.prefix.bit_count as u64,
    ) + k.prefix.name@ + k.key@
}

impl SectionKeyInfo {
    /// Creates a key info from its parts.
    pub fn new(version: u64, prefix: Prefix, key: Vec<u8>) -> (r: SectionKeyInfo)
        ensures
            r.version == version,
            r.prefix == prefix,
            r.key == key,
    {
        SectionKeyInfo { version, prefix, key }
    }

    /// The key info an elder-set snapshot would be attested under.
    pub fn from_elders_info(info: &EldersInfo, key: Vec<u8>) -> (r: SectionKeyInfo)
        ensures
            r.version == info.version,
            r.prefix == info.prefix,
            r.key == key,
    {
        SectionKeyInfo { version: info.version, prefix: info.prefix, key }
    }

    /// The version of the elder set holding the key.
    pub fn version(&self) -> (r: u64)
        ensures
            r == self.version,
    {
        self.version
    }

    /// The prefix the key signs for.
    pub fn prefix(&self) -> (r: &Prefix)
        ensures
            r == self.prefix,
    {
        &self.prefix
    }

    /// The public key bytes.
    pub fn key_bytes(&self) -> (r: &Vec<u8>)
        ensures
            r == self.key,
    {
        &self.key
    }

    /// A content-equal copy.
    pub fn duplicate(&self) -> (r: SectionKeyInfo)
        ensures
            key_info_equiv(r, *self),
    {
        SectionKeyInfo { version: self.version, prefix: self.prefix, key: copy_bytes(&self.key) }
    }

    /// The canonical byte encoding of the key info: the payload an attesting
    /// signature covers.
    pub fn signable_bytes(&self) -> (r: Vec<u8>)
        ensures
            r@ == spec_signable(*self),
    {
        let mut out = vstd::bytes::u64_to_le_bytes(self.version);
        let mut bc = vstd::bytes::u64_to_le_bytes(self.prefix.bit_count as u64);
        out.append(&mut bc);
        let ghost head = vstd::bytes::spec_u64_to_le_bytes(self.version)
            + vstd::bytes::spec_u64_to_le_bytes(self.prefix.bit_count as u64);
        let mut i: usize = 0;
        while i < XOR_NAME_LEN
            invariant
                i <= 32,
                self.prefix.name@.len() == 32,
                out@ == head + self.prefix.name@.subrange(0, i as int),
            decreases 32 - i,
        {
            out.push(self.prefix.name.0[i]);
            proof {
                assert(head + self.prefix.name@.subrange(0, i + 1) =~= (head
                    + self.prefix.name@.subrange(0, i as int)).push(self.prefix.name@[i as int]));
            }
            i += 1;
        }
        proof {
            assert(self.prefix.name@.subrange(0, 32) =~= self.prefix.name@);
        }
        let ghost head2 = head + self.prefix.name@;
        let n = self.key.len();
        let mut j: usize = 0;
        while j < n
            invariant
                j <= n,
                n == self.key@.len(),
                out@ == head2 + self.key@.subrange(0, j as int),
            decreases n - j,
        {
            out.push(self.key[j]);
            proof {
                assert(head2 + self.key@.subrange(0, j + 1) =~= (head2 + self.key@.subrange(
                    0,
                    j as int,
                )).push(self.key@[j as int]));
            }
            j += 1;
        }
        proof {
            assert(self.key@.subrange(0, n as int) =~= self.key@);
            assert(out@ =~= spec_signable(*self));
        }
        out
    }
}

impl PartialEq for SectionKeyInfo {
    fn eq(&self, other: &Self) -> (r: bool) {
        self.version == other.version && self.prefix == other.prefix && bytes_eq(
            &self.key,
            &other.key,
        )
    }
}

impl vstd::std_specs::cmp::PartialEqSpecImpl for SectionKeyInfo {
    open spec fn obeys_eq_spec() -> bool {
        true
    }

    open spec fn eq_spec(&self, other: &SectionKeyInfo) -> bool {
        key_info_equiv(*self, *other)
    }
}

/// One link of the proof chain: a key info together with the threshold
/// signature over its encoding by the preceding key set.
#[verifier::ext_equal]
#[derive(Clone, Debug)]
pub struct SectionProofBlock {
    /// The attested key info.
    pub key_info: SectionKeyInfo,
    /// The attesting signature, by the preceding key set.
    pub sig: Vec<u8>,
}

/// Whether two proof blocks carry the same key info and signature bytes.
pub open spec fn block_equiv(a: SectionProofBlock, b: SectionProofBlock) -> bool {
    &&& key_info_equiv(a.key_info, b.key_info)
    &&& a.sig@ == b.sig@
}

/// Whether `blk` validly extends the key `prev`: its version is the next
/// one, and its signature over its encoding validates against `prev`.
pub open spec fn link_valid(prev: SectionKeyInfo, blk: SectionProofBlock) -> bool {
    &&& blk.key_info.version == prev.version + 1
    &&& bls_sig_valid(prev.key@, blk.sig@, spec_signable(blk.key_info))
}

/// The outcome of verifying a target key against a trusted anchor.
#[derive(Clone, Copy, Debug, PartialEq, Eq, Structural)]
pub enum TrustStatus {
    /// The target is attested by a valid walk from the anchor.
    Trusted,
    /// The target's version predates the anchor; the information is stale.
    ProofTooOld,
    /// No valid walk from the anchor attests the target.
    ProofInvalid,
}

/// An ordered chain of section key transitions: a genesis key and the links
/// appended after it.
#[verifier::ext_equal]
#[derive(Clone, Debug)]
pub struct SectionProofSlice {
    /// The first key of the slice, trusted out of band or by the receiver's
    /// own anchor.
    pub genesis: SectionKeyInfo,
    /// The links appended after the genesis key, oldest first.
    pub blocks: Vec<SectionProofBlock>,
}

impl SectionProofSlice {
    /// How many keys the slice holds (the genesis key plus one per link).
    pub open spec fn num_keys(self) -> int {
        self.blocks@.len() as int + 1
    }

    /// The key at position `i`: the genesis key, or the key of link `i - 1`.
    pub open spec fn spec_key_at(self, i: int) -> SectionKeyInfo {
        if i == 0 {
            self.genesis
        } else {
            self.blocks@[i - 1].key_info
        }
    }

    /// The newest key of the slice.
    pub open spec fn spec_tip(self) -> SectionKeyInfo {
        self.spec_key_at(self.num_keys() - 1)
    }

    /// Whether every link with block index in `[lo, hi)` validly extends the
    /// key before it.
    pub open spec fn links_valid(self, lo: int, hi: int) -> bool {
        forall|j: int| lo <= j < hi ==> link_valid(self.spec_key_at(j), #[trigger] self.blocks@[j])
    }

    /// Whether the whole slice is valid link by link.
    pub open spec fn wf(self) -> bool {
        self.links_valid(0, self.blocks@.len() as int)
    }

    /// Whether the slice attests `target` from `anchor`: the anchor appears
    /// in the slice, every link after it is valid, and the newest key is the
    /// target.
    pub open spec fn spec_trust(self, anchor: SectionKeyInfo, target: SectionKeyInfo) -> bool {
        exists|i: int|
            0 <= i < self.num_keys() && key_info_equiv(#[trigger] self.spec_key_at(i), anchor)
                && self.links_valid(i, self.blocks@.len() as int) && key_info_equiv(
                self.spec_tip(),
                target,
            )
    }

    /// The slice holding a single trusted key.
    pub fn from_genesis(key_info: SectionKeyInfo) -> (r: SectionProofSlice)
        ensures
            r.genesis == key_info,
            r.blocks@.len() == 0,
            r.wf(),
    {
        SectionProofSlice { genesis: key_info, blocks: Vec::new() }
    }

    /// The key at position `i`.
    pub fn key_info_at(&self, i: usize) -> (r: &SectionKeyInfo)
        requires
            i < self.num_keys(),
        ensures
            r == self.spec_key_at(i as int),
    {
        if i == 0 {
            &self.genesis
        } else {
            &self.blocks[i - 1].key_info
        }
    }

    /// The newest key of the slice.
    pub fn last_key_info(&self) -> (r: &SectionKeyInfo)
        ensures
            r == self.spec_tip(),
    {
        if self.blocks.len() == 0 {
            &self.genesis
        } else {
            &self.blocks[self.blocks.len() - 1].key_info
        }
    }

    /// Whether `key_info` may extend the slice: its version must follow the
    /// tip's by exactly one and `sig` must validate against the tip's key.
    pub open spec fn spec_can_extend(self, key_info: SectionKeyInfo, sig: Seq<u8>) -> bool {
        &&& key_info.version == self.spec_tip().version + 1
        &&& bls_sig_valid(self.spec_tip().key@, sig, spec_signable(key_info))
    }

    /// Appends a new key to the slice, provided it extends the current tip
    /// by exactly one version and its signature validates against the tip's
    /// key set. Rejected extensions leave the slice unchanged.
    pub fn extend(&mut self, key_info: SectionKeyInfo, sig: Vec<u8>) -> (r: Result<
        (),
        RoutingError,
    >)
        ensures
            r is Ok <==> old(self).spec_can_extend(key_info, sig@),
            match r {
                Ok(()) => {
                    &&& final(self).genesis == old(self).genesis
                    &&& final(self).blocks@ == old(self).blocks@.push(
                        SectionProofBlock { key_info, sig },
                    )
                    &&& old(self).wf() ==> final(self).wf()
                },
                Err(e) => {
                    &&& *final(self) == *old(self)
                    &&& (e == RoutingError::InvalidElderVersion <==> key_info.version != old(
                        self,
                    ).spec_tip().version + 1)
                    &&& (e == RoutingError::InvalidElderVersion || e
                        == RoutingError::FailedSignature)
                },
            },
    {
        let tip_version = self.last_key_info().version;
        if !(tip_version < u64::MAX && key_info.version == tip_version + 1) {
            return Err(RoutingError::InvalidElderVersion);
        }
        let msg = key_info.signable_bytes();
        let tip_key_ok = {
            let tip = self.last_key_info();
            bls_verify(&tip.key, &sig, &msg)
        };
        if !tip_key_ok {
            return Err(RoutingError::FailedSignature);
        }
        let ghost old_self = *self;
        self.blocks.push(SectionProofBlock { key_info, sig });
        proof {
            assert forall|j: int| 0 <= j < self.blocks@.len() implies (self.spec_key_at(j)
                == old_self.spec_key_at(j)) by {}
            if old_self.wf() {
                assert(self.wf());
            }
        }
        Ok(())
    }

    /// Verifies `target` against the trusted `anchor`: walks the slice from
    /// the anchor's position forward, checking every link, and demands that
    /// the newest key be the target. Fails closed: a stale target is
    /// reported as too old, everything else that does not check out as
    /// invalid.
    pub fn verify(&self, target: &SectionKeyInfo, anchor: &SectionKeyInfo) -> (r: TrustStatus)
        ensures
            r == TrustStatus::ProofTooOld <==> target.version < anchor.version,
            target.version >= anchor.version ==> (r == TrustStatus::Trusted <==> self.spec_trust(
                *anchor,
                *target,
            )),
    {
        if target.version < anchor.version {
            return TrustStatus::ProofTooOld;
        }
        // Find the last position carrying the anchor key; a valid suffix
        // from any earlier position is also valid from the last one.
        let mut found: Option<usize> = None;
        if *self.key_info_at(0) == *anchor {
            found = Some(0);
        }
        let n = self.blocks.len();
        let mut i: usize = 0;
        while i < n
            invariant
                n == self.blocks@.len(),
                i <= n,
                match found {
                    Some(f) => f <= i && key_info_equiv(self.spec_key_at(f as int), *anchor)
                        && forall|j: int|
                        f < j <= i ==> !key_info_equiv(self.spec_key_at(j), *anchor),
                    None => forall|j: int|
                        0 <= j <= i ==> !key_info_equiv(self.spec_key_at(j), *anchor),
                },
            decreases n - i,
        {
            if self.blocks[i].key_info == *anchor {
                found = Some(i + 1);
            }
            i += 1;
        }
        let start = match found {
            Some(f) => f,
            None => {
                proof {
                    assert forall|k: int|
                        0 <= k < self.num_keys() implies !key_info_equiv(
                        self.spec_key_at(k),
                        *anchor,
                    ) by {}
                }
                return TrustStatus::ProofInvalid;
            },
        };
        // Check every link from the anchor's position to the tip.
        let mut j: usize = start;
        while j < n
            invariant
                n == self.blocks@.len(),
                start <= j <= n,
                target.version >= anchor.version,
                key_info_equiv(self.spec_key_at(start as int), *anchor),
                forall|k: int| start < k < self.num_keys() ==> !key_info_equiv(self.spec_key_at(k), *anchor),
                self.links_valid(start as int, j as int),
            decreases n - j,
        {
            let prev = self.key_info_at(j);
            let blk = &self.blocks[j];
            let version_ok = prev.version < u64::MAX && blk.key_info.version == prev.version + 1;
            if !version_ok {
                proof {
                    lemma_broken_link_blocks_trust(*self, *anchor, start as int, j as int);
                }
                return TrustStatus::ProofInvalid;
            }
            let msg = blk.key_info.signable_bytes();
            if !bls_verify(&prev.key, &blk.sig, &msg) {
                proof {
                    lemma_broken_link_blocks_trust(*self, *anchor, start as int, j as int);
                }
                return TrustStatus::ProofInvalid;
            }
            j += 1;
        }
        if !(*self.last_key_info() == *target) {
            proof {
                assert forall|i0: int|
                    0 <= i0 < self.num_keys() && key_info_equiv(
                        self.spec_key_at(i0),
                        *anchor,
                    ) implies !(self.links_valid(i0, self.blocks@.len() as int) && key_info_equiv(
                    self.spec_tip(),
                    *target,
                )) by {}
            }
            return TrustStatus::ProofInvalid;
        }
        proof {
            assert(self.spec_trust(*anchor, *target)) by {
                assert(0 <= start < self.num_keys() && key_info_equiv(
                    self.spec_key_at(start as int),
                    *anchor,
                ) && self.links_valid(start as int, self.blocks@.len() as int) && key_info_equiv(
                    self.spec_tip(),
                    *target,
                ));
            }
        }
        TrustStatus::Trusted
    }

    /// The prefix and version of every key in the slice, oldest first.
    pub fn all_prefix_version(&self) -> (r: Vec<(Prefix, u64)>)
        ensures
            r@.len() == self.num_keys(),
            forall|i: int|
                0 <= i < self.num_keys() ==> #[trigger] r@[i] == (
                self.spec_key_at(i).prefix,
                self.spec_key_at(i).version,
            ),
    {
        let mut out: Vec<(Prefix, u64)> = Vec::new();
        out.push((self.genesis.prefix, self.genesis.version));
        let n = self.blocks.len();
        let mut i: usize = 0;
        while i < n
            invariant
                n == self.blocks@.len(),
                i <= n,
                out@.len() == i + 1,
                forall|k: int|
                    0 <= k < i + 1 ==> #[trigger] out@[k] == (
                    self.spec_key_at(k).prefix,
                    self.spec_key_at(k).version,
                ),
            decreases n - i,
        {
            out.push((self.blocks[i].prefix_of_key(), self.blocks[i].key_info.version));
            i += 1;
        }
        out
    }
}

impl SectionProofBlock {
    /// The prefix of the attested key.
    pub fn prefix_of_key(&self) -> (r: Prefix)
        ensures
            r == self.key_info.prefix,
    {
        self.key_info.prefix
    }

    /// A content-equal copy.
    pub fn duplicate(&self) -> (r: SectionProofBlock)
        ensures
            block_equiv(r, *self),
    {
        SectionProofBlock { key_info: self.key_info.duplicate(), sig: copy_bytes(&self.sig) }
    }
}

/// Whether `r` is the suffix of `chain` that starts at the first key of the
/// given version — or a full copy, where no key has that version.
pub open spec fn trimmed_spec(chain: SectionProofSlice, version: u64, r: SectionProofSlice) -> bool {
    if exists|i: int|
        0 <= i < chain.num_keys() && #[trigger] chain.spec_key_at(i).version == version {
        exists|i: int|
            #![trigger chain.spec_key_at(i)]
            {
                &&& 0 <= i < chain.num_keys()
                &&& chain.spec_key_at(i).version == version
                &&& forall|j: int| 0 <= j < i ==> #[trigger] chain.spec_key_at(j).version != version
                &&& r.num_keys() == chain.num_keys() - i
                &&& forall|k: int|
                    0 <= k < r.num_keys() ==> key_info_equiv(
                        #[trigger] r.spec_key_at(k),
                        chain.spec_key_at(i + k),
                    )
                &&& forall|k: int|
                    0 <= k < r.blocks@.len() ==> block_equiv(
                        #[trigger] r.blocks@[k],
                        chain.blocks@[i + k],
                    )
            }
    } else {
        &&& r.num_keys() == chain.num_keys()
        &&& forall|k: int|
            0 <= k < r.num_keys() ==> key_info_equiv(
                #[trigger] r.spec_key_at(k),
                chain.spec_key_at(k),
            )
        &&& forall|k: int|
            0 <= k < r.blocks@.len() ==> block_equiv(#[trigger] r.blocks@[k], chain.blocks@[k])
    }
}

impl SectionProofSlice {
    /// Copies the suffix of the slice whose blocks have indices in
    /// `[from, len)`, keyed from the key at position `from`.
    fn copy_suffix(&self, from: usize) -> (r: SectionProofSlice)
        requires
            from < self.num_keys(),
        ensures
            r.num_keys() == self.num_keys() - from,
            forall|k: int|
                0 <= k < r.num_keys() ==> key_info_equiv(
                    #[trigger] r.spec_key_at(k),
                    self.spec_key_at(from + k),
                ),
            forall|k: int|
                0 <= k < r.blocks@.len() ==> block_equiv(
                    #[trigger] r.blocks@[k],
                    self.blocks@[from + k],
                ),
    {
        let genesis = self.key_info_at(from).duplicate();
        let mut blocks: Vec<SectionProofBlock> = Vec::new();
        let n = self.blocks.len();
        let mut j: usize = from;
        while j < n
            invariant
                from <= j <= n,
                n == self.blocks@.len(),
                blocks@.len() == j - from,
                forall|k: int|
                    0 <= k < blocks@.len() ==> block_equiv(
                        #[trigger] blocks@[k],
                        self.blocks@[from + k],
                    ),
            decreases n - j,
        {
            blocks.push(self.blocks[j].duplicate());
            j += 1;
        }
        let r = SectionProofSlice { genesis, blocks };
        proof {
            assert forall|k: int|
                0 <= k < r.num_keys() implies key_info_equiv(
                #[trigger] r.spec_key_at(k),
                self.spec_key_at(from + k),
            ) by {
                if k == 0 {
                } else {
                    assert(block_equiv(r.blocks@[k - 1], self.blocks@[from + k - 1]));
                }
            }
        }
        r
    }

    /// A content-equal copy of the whole slice.
    pub fn duplicate(&self) -> (r: SectionProofSlice)
        ensures
            r.num_keys() == self.num_keys(),
            forall|k: int|
                0 <= k < r.num_keys() ==> key_info_equiv(
                    #[trigger] r.spec_key_at(k),
                    self.spec_key_at(k),
                ),
            forall|k: int|
                0 <= k < r.blocks@.len() ==> block_equiv(#[trigger] r.blocks@[k], self.blocks@[k]),
            self.wf() ==> r.wf(),
    {
        let r = self.copy_suffix(0);
        proof {
            if self.wf() {
                lemma_equiv_links_wf(*self, r, 0);
            }
        }
        r
    }

    /// The suffix of the slice starting at the first key of the given
    /// version, for a reader known to hold that version — or a full copy
    /// where no key has it. A valid slice stays valid.
    pub fn trimmed_from(&self, version: u64) -> (r: SectionProofSlice)
        ensures
            trimmed_spec(*self, version, r),
            self.wf() ==> r.wf(),
    {
        let mut idx: usize = 0;
        let mut found = false;
        if self.genesis.version == version {
            found = true;
        }
        let n = self.blocks.len();
        let mut i: usize = 0;
        while i < n && !found
            invariant
                n == self.blocks@.len(),
                i <= n,
                !found ==> idx == 0 && forall|j: int|
                    0 <= j <= i ==> #[trigger] self.spec_key_at(j).version != version,
                found ==> idx <= i && self.spec_key_at(idx as int).version == version && forall|
                    j: int,
                |
                    0 <= j < idx ==> #[trigger] self.spec_key_at(j).version != version,
            decreases n - i,
        {
            if self.blocks[i].key_info.version == version {
                found = true;
                idx = i + 1;
            }
            i += 1;
        }
        let r = if found {
            self.copy_suffix(idx)
        } else {
            self.copy_suffix(0)
        };
        proof {
            if self.wf() {
                lemma_equiv_links_wf(*self, r, if found { idx as int } else { 0 });
            }
            if found {
                assert(self.spec_key_at(idx as int).version == version);
            } else {
                assert forall|j: int|
                    0 <= j < self.num_keys() implies #[trigger] self.spec_key_at(j).version
                    != version by {}
            }
        }
        r
    }
}

/// A slice whose keys and blocks mirror a valid suffix of a valid chain,
/// link for link, is itself valid.
proof fn lemma_equiv_links_wf(chain: SectionProofSlice, r: SectionProofSlice, from: int)
    requires
        chain.wf(),
        0 <= from < chain.num_keys(),
        r.num_keys() == chain.num_keys() - from,
        forall|k: int|
            0 <= k < r.num_keys() ==> key_info_equiv(
                #[trigger] r.spec_key_at(k),
                chain.spec_key_at(from + k),
            ),
        forall|k: int|
            0 <= k < r.blocks@.len() ==> block_equiv(#[trigger] r.blocks@[k], chain.blocks@[from + k]),
    ensures
        r.wf(),
{
    assert forall|j: int| 0 <= j < r.blocks@.len() implies link_valid(
        r.spec_key_at(j),
        #[trigger] r.blocks@[j],
    ) by {
        assert(link_valid(chain.spec_key_at(from + j), chain.blocks@[from + j]));
        assert(key_info_equiv(r.spec_key_at(j), chain.spec_key_at(from + j)));
        assert(block_equiv(r.blocks@[j], chain.blocks@[from + j]));
        assert(spec_signable(r.blocks@[j].key_info) == spec_signable(
            chain.blocks@[from + j].key_info,
        ));
    }
}

/// A single broken link between the anchor's position and the tip defeats
/// every possible walk: no position carrying the anchor admits a valid
/// suffix of links.
proof fn lemma_broken_link_blocks_trust(
    s: SectionProofSlice,
    anchor: SectionKeyInfo,
    start: int,
    j: int,
)
    requires
        0 <= start <= j < s.blocks@.len(),
        key_info_equiv(s.spec_key_at(start), anchor),
        forall|k: int| start < k < s.num_keys() ==> !key_info_equiv(s.spec_key_at(k), anchor),
        !link_valid(s.spec_key_at(j), s.blocks@[j]),
    ensures
        !s.spec_trust(anchor, s.spec_tip()),
        forall|t: SectionKeyInfo| !s.spec_trust(anchor, t),
{
    assert forall|t: SectionKeyInfo| !s.spec_trust(anchor, t) by {
        assert forall|i0: int|
            0 <= i0 < s.num_keys() && key_info_equiv(s.spec_key_at(i0), anchor) implies !(
        s.links_valid(i0, s.blocks@.len() as int)) by {
            assert(i0 <= start);
            assert(i0 <= j < s.blocks@.len());
        }
    }
}

/// Test helper to create an arbitrary one-key proof slice.
pub fn section_proof_slice_for_test(version: u64, prefix: Prefix, key: Vec<u8>) -> (r:
    SectionProofSlice)
    ensures
        r.blocks@.len() == 0,
        r.genesis.version == version,
        r.genesis.prefix == prefix,
        r.genesis.key == key,
        r.wf(),
{
    SectionProofSlice::from_genesis(SectionKeyInfo::new(version, prefix, key))
}

/// Whether the proof chain holds a key of the given version.
pub fn verify_proof_chain_contains(proof_chain: &SectionProofSlice, expected_version: u64) -> (r:
    bool)
    ensures
        r == exists|i: int|
            0 <= i < proof_chain.num_keys() && #[trigger] proof_chain.spec_key_at(i).version
                == expected_version,
{
    let all = proof_chain.all_prefix_version();
    let n = all.len();
    let mut i: usize = 0;
    while i < n
        invariant
            n == all@.len(),
            i <= n,
            all@.len() == proof_chain.num_keys(),
            forall|k: int|
                0 <= k < all@.len() ==> #[trigger] all@[k] == (
                proof_chain.spec_key_at(k).prefix,
                proof_chain.spec_key_at(k).version,
            ),
            forall|k: int|
                0 <= k < i ==> #[trigger] proof_chain.spec_key_at(k).version != expected_version,
        decreases n - i,
    {
        if all[i].1 == expected_version {
            return true;
        }
        i += 1;
    }
    false
}

/// Whether the proof chain holds no key of the given version.
pub fn verify_proof_chain_does_not_contain(
    proof_chain: &SectionProofSlice,
    unexpected_version: u64,
) -> (r: bool)
    ensures
        r == forall|i: int|
            0 <= i < proof_chain.num_keys() ==> #[trigger] proof_chain.spec_key_at(i).version
                != unexpected_version,
{
    !verify_proof_chain_contains(proof_chain, unexpected_version)
}

/// Trust established along a proof chain composes: if the key at position
/// `j` is reachable from an anchor at position `i` by valid links, and the
/// links from `j` to the tip are valid as well, then the tip is trusted
/// directly from the anchor, with the intermediate key never re-supplied.
/// Together with `verify`'s exact postcondition — which makes the outcome a
/// function of the slice, anchor and target alone — this is the transitivity
/// and determinism of proof-chain verification.
pub proof fn lemma_trust_transitive(
    s: SectionProofSlice,
    g: SectionKeyInfo,
    a: SectionKeyInfo,
    i: int,
    j: int,
)
    requires
        0 <= i <= j < s.num_keys(),
        key_info_equiv(s.spec_key_at(i), g),
        key_info_equiv(s.spec_key_at(j), a),
        s.links_valid(i, j),
        s.links_valid(j, s.blocks@.len() as int),
    ensures
        s.spec_trust(g, s.spec_tip()),
{
    assert(s.links_valid(i, s.blocks@.len() as int));
    assert(key_info_equiv(s.spec_tip(), s.spec_tip()));
    assert(0 <= i < s.num_keys() && key_info_equiv(s.spec_key_at(i), g) && s.links_valid(
        i,
        s.blocks@.len() as int,
    ) && key_info_equiv(s.spec_tip(), s.spec_tip()));
}

/// A proof chain can never be accepted to hold two different keys at the
/// same version: once its tip stands at a version, any further extension
/// claiming that same version is rejected, whatever key or signature it
/// carries.
pub proof fn lemma_no_fork_at_same_version(
    s: SectionProofSlice,
    key_info: SectionKeyInfo,
    sig: Seq<u8>,
)
    requires
        key_info.version <= s.spec_tip().version,
    ensures
        !s.spec_can_extend(key_info, sig),
{
}

} // verus!
