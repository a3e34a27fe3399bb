//! A simple key-lookup request message and its canonical wire encoding.

use vstd::prelude::*;

use crate::error::RoutingError;
use crate::xor_name::XorName;
use crate::xor_name::XOR_NAME_LEN;

verus! {

broadcast use vstd::array::group_array_axioms;

/// The message's type tag on the wire.
pub const GET_GROUP_KEY_TAG: u32 = 5483001;

/// The marker byte opening a tagged message.
pub const TAG_MARKER: u8 = 0xDA;

/// A request for the group key of the section responsible for a name.
#[verifier::ext_equal]
#[derive(Clone, Copy, Debug, PartialEq)]
pub struct GetGroupKey {
    /// The name whose section's key is asked for.
    pub target_id: XorName,
}

/// The canonical encoding of the request: the tag marker, the type tag, and
/// the target name's bytes.
pub open spec fn spec_encode(m: GetGroupKey) -> Seq<u8> {
    seq![TAG_MARKER] + vstd::bytes::spec_u32_to_le_bytes(GET_GROUP_KEY_TAG) + m.target_id@
}

impl GetGroupKey {
    /// Encodes the request into its canonical bytes.
    pub fn encode(&self) -> (r: Vec<u8>)
        ensures
            r@ == spec_encode(*self),
    {
        let mut out: Vec<u8> = Vec::new();
        out.push(TAG_MARKER);
        let mut tag = vstd::bytes::u32_to_le_bytes(GET_GROUP_KEY_TAG);
        out.append(&mut tag);
        let ghost head = seq![TAG_MARKER] + vstd::bytes::spec_u32_to_le_bytes(GET_GROUP_KEY_TAG);
        proof {
            assert(out@ =~= head);
        }
        let mut i: usize = 0;
        while i < XOR_NAME_LEN
            invariant
                i <= 32,
                self.target_id@.len() == 32,
                out@ == head + self.target_id@.subrange(0, i as int),
            decreases 32 - i,
        {
            out.push(self.target_id.0[i]);
            proof {
                assert(head + self.target_id@.subrange(0, i + 1) =~= (head
                    + self.target_id@.subrange(0, i as int)).push(self.target_id@[i as int]));
            }
            i += 1;
        }
        proof {
            assert(self.target_id@.subrange(0, 32) =~= self.target_id@);
        }
        out
    }

    /// Decodes a request from its canonical bytes, rejecting anything of
    /// the wrong length, marker or tag.
    pub fn decode(bytes: &Vec<u8>) -> (r: Result<GetGroupKey, RoutingError>)
        ensures
            r is Ok <==> (bytes@.len() == 37 && bytes@[0] == TAG_MARKER && bytes@.subrange(1, 5)
                == vstd::bytes::spec_u32_to_le_bytes(GET_GROUP_KEY_TAG)),
            r matches Ok(m) ==> m.target_id@ == bytes@.subrange(5, 37),
            r matches Err(e) ==> e == RoutingError::InvalidMessage,
    {
        if bytes.len() != 37 {
            return Err(RoutingError::InvalidMessage);
        }
        if bytes[0] != TAG_MARKER {
            return Err(RoutingError::InvalidMessage);
        }
        let tag = vstd::bytes::u32_to_le_bytes(GET_GROUP_KEY_TAG);
        let mut i: usize = 0;
        while i < 4
            invariant
                bytes@.len() == 37,
                tag@ == vstd::bytes::spec_u32_to_le_bytes(GET_GROUP_KEY_TAG),
                tag@.len() == 4,
                i <= 4,
                forall|j: int| 0 <= j < i ==> bytes@[1 + j] == tag@[j],
            decreases 4 - i,
        {
            if bytes[1 + i] != tag[i] {
                proof {
                    assert(bytes@.subrange(1, 5)[i as int] != vstd::bytes::spec_u32_to_le_bytes(
                        GET_GROUP_KEY_TAG,
                    )[i as int]);
                }
                return Err(RoutingError::InvalidMessage);
            }
            i += 1;
        }
        proof {
            assert(bytes@.subrange(1, 5) =~= vstd::bytes::spec_u32_to_le_bytes(GET_GROUP_KEY_TAG));
        }
        let mut name: [u8; XOR_NAME_LEN] = [0u8; XOR_NAME_LEN];
        let mut k: usize = 0;
        while k < XOR_NAME_LEN
            invariant
                bytes@.len() == 37,
                k <= 32,
                forall|j: int| 0 <= j < k ==> name@[j] == bytes@[5 + j],
            decreases 32 - k,
        {
            name[k] = bytes[5 + k];
            k += 1;
        }
        let m = GetGroupKey { target_id: XorName(name) };
        proof {
            assert(m.target_id@ =~= bytes@.subrange(5, 37));
        }
        Ok(m)
    }
}

/// Decoding an encoded request always succeeds and yields the original
/// request: the encoding satisfies every check the decoder makes, and the
/// name bytes come back unchanged.
pub proof fn lemma_get_group_key_round_trip(m: GetGroupKey)
    ensures
        spec_encode(m).len() == 37,
        spec_encode(m)[0] == TAG_MARKER,
        spec_encode(m).subrange(1, 5) == vstd::bytes::spec_u32_to_le_bytes(GET_GROUP_KEY_TAG),
        spec_encode(m).subrange(5, 37) == m.target_id@,
{
    vstd::bytes::lemma_auto_spec_u32_to_from_le_bytes();
    assert(spec_encode(m).subrange(1, 5) =~= vstd::bytes::spec_u32_to_le_bytes(GET_GROUP_KEY_TAG));
    assert(spec_encode(m).subrange(5, 37) =~= m.target_id@);
}

} // verus!
