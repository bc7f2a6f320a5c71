//! Plain value types shared across the context: fixed-width integers,
//! hashes, and account addresses.

use vstd::prelude::*;

verus! {

/// A 64-bit unsigned value kept behind a newtype so that boundary layers
/// can carry it in a decimal-string-safe form; decoding it into a native
/// floating-point or JSON-number representation would lose precision
/// above 2^53.
#[derive(Clone, Copy, Debug, PartialEq, Eq, Structural)]
pub struct U64(pub u64);

/// Identity of the chain this node follows.
#[derive(Clone, Copy, Debug, PartialEq, Eq, Structural)]
pub struct ChainId {
    pub id: u8,
}

/// A cryptographic hash, carried as its raw bytes.
#[derive(Clone, Debug, PartialEq, Eq)]
pub struct HashValue {
    pub bytes: Vec<u8>,
}

impl View for HashValue {
    type V = Seq<u8>;

    open spec fn view(&self) -> Seq<u8> {
        self.bytes@
    }
}

/// The all-zero hash: 32 zero bytes.
pub open spec fn zero_hash() -> Seq<u8> {
    Seq::new(32, |i: int| 0u8)
}

impl HashValue {
    /// A well-formed hash holds exactly 32 bytes.
    pub open spec fn wf(&self) -> bool {
        self.bytes@.len() == 32
    }

    /// The hash made of 32 zero bytes.
    pub fn zero() -> (r: HashValue)
        ensures
            r@ == zero_hash(),
            r.wf(),
    {
        let mut bytes: Vec<u8> = Vec::new();
        while bytes.len() < 32
            invariant
                bytes@.len() <= 32,
                forall|i: int| 0 <= i < bytes@.len() ==> bytes@[i] == 0u8,
            decreases 32 - bytes@.len(),
        {
            bytes.push(0u8);
        }
        proof {
            assert(bytes@ =~= zero_hash());
        }
        HashValue { bytes }
    }

    /// Byte-wise equality of two hashes.
    pub fn equals(&self, other: &HashValue) -> (r: bool)
        ensures
            r <==> self@ == other@,
    {
        bytes_equal(&self.bytes, &other.bytes)
    }
}

/// A 32-byte account address.
#[derive(Clone, Debug, PartialEq, Eq)]
pub struct AccountAddress {
    pub bytes: Vec<u8>,
}

impl View for AccountAddress {
    type V = Seq<u8>;

    open spec fn view(&self) -> Seq<u8> {
        self.bytes@
    }
}

/// The reserved system address that owns on-chain framework resources:
/// 31 zero bytes followed by a single 0x1 byte.
pub open spec fn core_code_address() -> Seq<u8> {
    Seq::new(32, |i: int| if i == 31 { 1u8 } else { 0u8 })
}

impl AccountAddress {
    /// A well-formed address holds exactly 32 bytes.
    pub open spec fn wf(&self) -> bool {
        self.bytes@.len() == 32
    }

    /// The reserved system address.
    pub fn core_code() -> (r: AccountAddress)
        ensures
            r@ == core_code_address(),
            r.wf(),
    {
        let mut bytes: Vec<u8> = Vec::new();
        while bytes.len() < 31
            invariant
                bytes@.len() <= 31,
                forall|i: int| 0 <= i < bytes@.len() ==> bytes@[i] == 0u8,
            decreases 31 - bytes@.len(),
        {
            bytes.push(0u8);
        }
        bytes.push(1u8);
        proof {
            assert(bytes@ =~= core_code_address());
        }
        AccountAddress { bytes }
    }

    /// Byte-wise equality of two addresses.
    pub fn equals(&self, other: &AccountAddress) -> (r: bool)
        ensures
            r <==> self@ == other@,
    {
        bytes_equal(&self.bytes, &other.bytes)
    }
}

/// Byte-wise equality of two byte vectors.
pub fn bytes_equal(a: &Vec<u8>, b: &Vec<u8>) -> (r: bool)
    ensures
        r <==> a@ == b@,
{
    if a.len() != b.len() {
        return false;
    }
    let mut i: usize = 0;
    while i < a.len()
        invariant
            i <= a@.len(),
            a@.len() == b@.len(),
            forall|j: int| 0 <= j < i ==> a@[j] == b@[j],
        decreases a@.len() - i,
    {
        if a[i] != b[i] {
            return false;
        }
        i += 1;
    }
    proof {
        assert(a@ =~= b@);
    }
    true
}

/// A fresh copy of a byte vector.
pub fn clone_bytes(v: &Vec<u8>) -> (r: Vec<u8>)
    ensures
        r@ == v@,
{
    let mut out: Vec<u8> = Vec::new();
    let mut i: usize = 0;
    while i < v.len()
        invariant
            i <= v@.len(),
            out@ == v@.subrange(0, i as int),
        decreases v@.len() - i,
    {
        out.push(v[i]);
        i += 1;
        proof {
            assert(out@ =~= v@.subrange(0, i as int));
        }
    }
    proof {
        assert(v@.subrange(0, v@.len() as int) =~= v@);
    }
    out
}

} // verus!
