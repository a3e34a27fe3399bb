//! Fixed-width names and name prefixes.
//!
//! A name is both a node identity and an address in the sharded identifier
//! space. A prefix is a bit count together with a name; it stands for the set
//! of all names agreeing with it on that many high-order bits, and defines
//! one section's jurisdiction.

use vstd::prelude::*;

verus! {

broadcast use vstd::array::group_array_axioms;

/// Number of bytes in a name.
pub const XOR_NAME_LEN: usize = 32;

/// Number of bits in a name.
pub const XOR_NAME_BITS: usize = 256;

/// Bit `j` of byte `b`, counting the most significant bit as bit 0.
pub open spec fn byte_bit(b: u8, j: int) -> bool
    recommends
        0 <= j < 8,
{
    ((b >> ((7 - j) as u8)) & 1u8) == 1u8
}

/// Bit `i` of a name given as its byte sequence, counting the most
/// significant bit of the first byte as bit 0.
pub open spec fn name_bit(s: Seq<u8>, i: int) -> bool
    recommends
        0 <= i < 256,
{
    byte_bit(s[i / 8], i % 8)
}

/// A fixed-width identifier: a node's identity and its address in the
/// sharded name space.
#[verifier::ext_equal]
#[derive(Clone, Copy, Debug)]
pub struct XorName(pub [u8; XOR_NAME_LEN]);

impl View for XorName {
    type V = Seq<u8>;

    open spec fn view(&self) -> Seq<u8> {
        self.0@
    }
}

impl XorName {
    /// Bit `i` of the name, most significant first.
    pub fn bit(&self, i: usize) -> (r: bool)
        requires
            i < XOR_NAME_BITS,
        ensures
            r == name_bit(self@, i as int),
    {
        let byte: u8 = self.0[i / 8];
        let sh: u8 = (7 - (i % 8)) as u8;
        ((byte >> sh) & 1) == 1
    }
}

impl PartialEq for XorName {
    fn eq(&self, other: &Self) -> (r: bool) {
        let mut i: usize = 0;
        while i < XOR_NAME_LEN
            invariant
                i <= 32,
                forall|j: int| 0 <= j < i ==> self.0@[j] == other.0@[j],
            decreases 32 - i,
        {
            if self.0[i] != other.0[i] {
                return false;
            }
            i += 1;
        }
        proof {
            assert(self.0@ =~= other.0@);
            assert(*self =~= *other);
        }
        true
    }
}

impl vstd::std_specs::cmp::PartialEqSpecImpl for XorName {
    open spec fn obeys_eq_spec() -> bool {
        true
    }

    open spec fn eq_spec(&self, other: &XorName) -> bool {
        self == other
    }
}

/// The name with every bit zero.
pub fn zero_name() -> (r: XorName)
    ensures
        forall|i: int| 0 <= i < 256 ==> !name_bit(r@, i),
{
    let r = XorName([0u8; XOR_NAME_LEN]);
    proof {
        assert forall|i: int| 0 <= i < 256 implies !name_bit(r@, i) by {
            let sh: u8 = (7 - i % 8) as u8;
            assert(r@[i / 8] == 0u8);
            assert(((0u8 >> sh) & 1u8) != 1u8) by (bit_vector)
                requires
                    sh < 8,
            ;
        }
    }
    r
}

/// How one byte mixed from `hi` and `lo` at boundary `rem` decomposes into
/// the bits of `hi` (below `rem`) and of `lo` (at `rem` and above).
proof fn lemma_mix_byte(hi: u8, lo: u8, rem: u8, j: u8)
    requires
        1 <= rem < 8,
        j < 8,
    ensures
        byte_bit((hi & !(0xFFu8 >> rem)) | (lo & (0xFFu8 >> rem)), j as int) == (if j < rem {
            byte_bit(hi, j as int)
        } else {
            byte_bit(lo, j as int)
        }),
{
    let m: u8 = 0xFFu8 >> rem;
    let r: u8 = (hi & !m) | (lo & m);
    let sh: u8 = (7 - j) as u8;
    assert((((r >> sh) & 1u8) == 1u8) == (if j < rem {
        ((hi >> sh) & 1u8) == 1u8
    } else {
        ((lo >> sh) & 1u8) == 1u8
    })) by (bit_vector)
        requires
            j < 8,
            1 <= rem < 8,
            sh == (7 - j) as u8,
            m == 0xFFu8 >> rem,
            r == (hi & !m) | (lo & m),
    ;
}

/// Returns the name whose first `bit_count` bits are those of `hi` and whose
/// remaining bits are those of `lo`.
pub fn mix_names(bit_count: usize, hi: &XorName, lo: &XorName) -> (r: XorName)
    requires
        bit_count <= XOR_NAME_BITS,
    ensures
        forall|i: int| 0 <= i < bit_count ==> name_bit(r@, i) == name_bit(hi@, i),
        forall|i: int| bit_count <= i < 256 ==> name_bit(r@, i) == name_bit(lo@, i),
{
    let mut out: [u8; XOR_NAME_LEN] = [0u8; XOR_NAME_LEN];
    let mut k: usize = 0;
    while k < XOR_NAME_LEN
        invariant
            k <= 32,
            bit_count <= 256,
            forall|b: int, j: int|
                0 <= b < k && 0 <= j < 8 ==> #[trigger] byte_bit(out@[b], j) == (if 8 * b + j
                    < bit_count {
                    byte_bit(hi@[b], j)
                } else {
                    byte_bit(lo@[b], j)
                }),
        decreases 32 - k,
    {
        let b: u8 = if (k + 1) * 8 <= bit_count {
            hi.0[k]
        } else if k * 8 >= bit_count {
            lo.0[k]
        } else {
            let rem: usize = bit_count - k * 8;
            let m: u8 = 0xFFu8 >> (rem as u8);
            (hi.0[k] & !m) | (lo.0[k] & m)
        };
        proof {
            assert forall|j: int| 0 <= j < 8 implies byte_bit(b, j) == (if 8 * (k as int) + j
                < bit_count {
                byte_bit(hi@[k as int], j)
            } else {
                byte_bit(lo@[k as int], j)
            }) by {
                if (k + 1) * 8 <= bit_count {
                } else if k * 8 >= bit_count {
                } else {
                    let rem: u8 = (bit_count - k * 8) as u8;
                    lemma_mix_byte(hi.0@[k as int], lo.0@[k as int], rem, j as u8);
                }
            }
        }
        out[k] = b;
        k += 1;
    }
    let r = XorName(out);
    proof {
        assert forall|i: int| 0 <= i < 256 implies name_bit(r@, i) == (if i < bit_count {
            name_bit(hi@, i)
        } else {
            name_bit(lo@, i)
        }) by {
            assert(0 <= i / 8 < 32);
            assert(0 <= i % 8 < 8);
            assert(i == 8 * (i / 8) + i % 8);
        }
    }
    r
}

/// A section prefix: the set of all names whose first `bit_count` bits agree
/// with `name`. Constructors keep the bits of `name` beyond `bit_count`
/// zero, so two prefixes describe the same name set exactly when their
/// fields are equal.
#[verifier::ext_equal]
#[derive(Clone, Copy, Debug)]
pub struct Prefix {
    /// The base name carrying the prefix's bits.
    pub name: XorName,
    /// How many high-order bits of `name` the prefix fixes.
    pub bit_count: usize,
}

impl Prefix {
    /// The canonical form every constructed prefix has: the bit count is
    /// within the name width and the unfixed bits of the base name are zero.
    pub open spec fn wf(self) -> bool {
        &&& self.bit_count <= 256
        &&& forall|i: int| self.bit_count <= i < 256 ==> !name_bit(self.name@, i)
    }

    /// Whether the name given by its byte sequence lies under this prefix.
    pub open spec fn spec_matches(self, s: Seq<u8>) -> bool {
        forall|i: int| 0 <= i < self.bit_count ==> name_bit(s, i) == name_bit(self.name@, i)
    }

    /// Creates the prefix of `bit_count` bits (capped at the name width)
    /// taken from `name`.
    pub fn new(bit_count: usize, name: &XorName) -> (r: Prefix)
        ensures
            r.wf(),
            r.bit_count == (if bit_count <= 256 {
                bit_count as int
            } else {
                256
            }),
            r.spec_matches(name@),
    {
        let bc = if bit_count <= XOR_NAME_BITS {
            bit_count
        } else {
            XOR_NAME_BITS
        };
        let z = zero_name();
        let canon = mix_names(bc, name, &z);
        Prefix { name: canon, bit_count: bc }
    }

    /// The number of fixed high-order bits.
    pub fn bit_count(&self) -> (r: usize)
        ensures
            r == self.bit_count,
    {
        self.bit_count
    }

    /// The base name of the prefix.
    pub fn name(&self) -> (r: XorName)
        ensures
            r == self.name,
    {
        self.name
    }

    /// Whether `name` lies under this prefix.
    pub fn matches(&self, name: &XorName) -> (r: bool)
        requires
            self.wf(),
        ensures
            r == self.spec_matches(name@),
    {
        let mut i: usize = 0;
        while i < self.bit_count
            invariant
                self.bit_count <= 256,
                i <= self.bit_count,
                forall|j: int| 0 <= j < i ==> name_bit(name@, j) == name_bit(self.name@, j),
            decreases self.bit_count - i,
        {
            if self.name.bit(i) != name.bit(i) {
                return false;
            }
            i += 1;
        }
        true
    }

    /// Returns `name` with its first `bit_count` bits replaced by the
    /// prefix's bits. The result always matches the prefix; the remaining
    /// bits are kept, so a regenerated identity stays as close to the given
    /// one as the prefix allows.
    pub fn substituted_in(&self, name: &XorName) -> (r: XorName)
        requires
            self.wf(),
        ensures
            self.spec_matches(r@),
            forall|i: int| self.bit_count <= i < 256 ==> name_bit(r@, i) == name_bit(name@, i),
    {
        mix_names(self.bit_count, &self.name, name)
    }
}

impl PartialEq for Prefix {
    fn eq(&self, other: &Self) -> (r: bool) {
        let r = self.name == other.name && self.bit_count == other.bit_count;
        proof {
            if self.name == other.name && self.bit_count == other.bit_count {
                assert(*self =~= *other);
            }
        }
        r
    }
}

impl vstd::std_specs::cmp::PartialEqSpecImpl for Prefix {
    open spec fn obeys_eq_spec() -> bool {
        true
    }

    open spec fn eq_spec(&self, other: &Prefix) -> bool {
        self == other
    }
}

} // verus!
