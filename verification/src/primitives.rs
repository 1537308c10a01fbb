//! Plain-value building blocks shared by the whole pipeline: byte strings,
//! account addresses, 256-bit words and execution logs.

use vstd::prelude::*;

verus! {

/// Compares two byte strings for equality.
pub fn bytes_eq(a: &Vec<u8>, b: &Vec<u8>) -> (r: bool)
    ensures
        r == (a@ == b@),
{
    if a.len() != b.len() {
        assert(a@.len() != b@.len());
        return false;
    }
    let n: usize = a.len();
    for i in 0..n
        invariant
            n == a@.len(),
            n == b@.len(),
            forall|j: int| 0 <= j < i ==> a@[j] == b@[j],
    {
        if a[i] != b[i] {
            return false;
        }
    }
    proof {
        assert(a@ =~= b@);
    }
    true
}

/// Copies a byte string.
pub fn clone_bytes(v: &Vec<u8>) -> (r: Vec<u8>)
    ensures
        r@ == v@,
{
    let mut r: Vec<u8> = Vec::new();
    let n: usize = v.len();
    for i in 0..n
        invariant
            n == v@.len(),
            r@ == v@.take(i as int),
    {
        r.push(v[i]);
    }
    proof {
        assert(v@.take(n as int) =~= v@);
    }
    r
}

/// Copies a list of byte strings.
pub fn clone_byte_lists(v: &Vec<Vec<u8>>) -> (r: Vec<Vec<u8>>)
    ensures
        r.deep_view() == v.deep_view(),
{
    let mut r: Vec<Vec<u8>> = Vec::new();
    let n: usize = v.len();
    proof {
        assert(r.deep_view() =~~= v.deep_view().take(0));
    }
    for i in 0..n
        invariant
            n == v@.len(),
            r@.len() == i,
            r.deep_view() == v.deep_view().take(i as int),
    {
        r.push(clone_bytes(&v[i]));
        proof {
            let lhs = r.deep_view();
            let rhs = v.deep_view().take(i + 1);
            assert(lhs.len() == rhs.len());
            assert forall|k: int| 0 <= k < lhs.len() implies lhs[k] == rhs[k] by {
                if k < i {
                    assert(lhs[k] == v.deep_view().take(i as int)[k]);
                } else {
                    assert(lhs[k] =~~= v@[k]@);
                    assert(v.deep_view()[k] =~~= v@[k]@);
                }
            };
            assert(lhs =~= rhs);
        }
    }
    proof {
        assert(v.deep_view().take(n as int) =~= v.deep_view());
    }
    r
}

/// A 20-byte account address, held as plain bytes.
pub struct Address {
    pub bytes: Vec<u8>,
}

impl View for Address {
    type V = Seq<u8>;

    open spec fn view(&self) -> Seq<u8> {
        self.bytes@
    }
}

impl Address {
    /// An address is well formed when it holds exactly 20 bytes.
    pub open spec fn wf(self) -> bool {
        self.bytes@.len() == 20
    }

    /// The all-zero address.
    pub fn zero() -> (r: Address)
        ensures
            r@ == Seq::new(20, |i: int| 0u8),
            r.wf(),
    {
        let mut bytes: Vec<u8> = Vec::new();
        for i in 0..20usize
            invariant
                bytes@ == Seq::new(i as nat, |j: int| 0u8),
        {
            bytes.push(0u8);
            proof {
                assert(bytes@ =~= Seq::new((i + 1) as nat, |j: int| 0u8));
            }
        }
        proof {
            assert(Seq::new(20nat, |j: int| 0u8) =~= Seq::new(20, |i: int| 0u8));
        }
        Address { bytes }
    }

    /// Wraps raw bytes as an address.
    pub fn from_bytes(bytes: Vec<u8>) -> (r: Address)
        ensures
            r@ == bytes@,
    {
        Address { bytes }
    }

    /// True when both addresses hold the same bytes.
    pub fn matches(&self, other: &Address) -> (r: bool)
        ensures
            r == (self@ == other@),
    {
        bytes_eq(&self.bytes, &other.bytes)
    }

    /// Copies the address.
    pub fn duplicate(&self) -> (r: Address)
        ensures
            r@ == self@,
    {
        Address { bytes: clone_bytes(&self.bytes) }
    }
}

/// A 256-bit word split into two 128-bit halves, most significant first.
/// Transaction values are carried through the pipeline in this form.
#[derive(Clone, Copy, PartialEq, Eq, Structural, Debug)]
pub struct U256Val {
    pub hi: u128,
    pub lo: u128,
}

impl U256Val {
    /// The zero word.
    pub fn zero() -> (r: U256Val)
        ensures
            r == (U256Val { hi: 0, lo: 0 }),
    {
        U256Val { hi: 0, lo: 0 }
    }
}

/// One log record emitted by the execution engine.
pub struct Log {
    pub address: Address,
    pub topics: Vec<Vec<u8>>,
    pub data: Vec<u8>,
}

/// Mathematical image of a [`Log`].
pub ghost struct LogV {
    pub address: Seq<u8>,
    pub topics: Seq<Seq<u8>>,
    pub data: Seq<u8>,
}

impl View for Log {
    type V = LogV;

    open spec fn view(&self) -> LogV {
        LogV { address: self.address@, topics: self.topics.deep_view(), data: self.data@ }
    }
}

} // verus!
