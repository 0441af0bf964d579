use vstd::prelude::*;

verus! {

/// A 256-bit hash, the unit of storage keys and values: exactly 32 bytes.
#[derive(Debug)]
pub struct H256 {
    bytes: Vec<u8>,
}

impl View for H256 {
    type V = Seq<u8>;

    closed spec fn view(&self) -> Seq<u8> {
        self.bytes@
    }
}

impl H256 {
    #[verifier::type_invariant]
    spec fn type_inv(self) -> bool {
        self.bytes@.len() == 32
    }

    /// The all-zero hash, the value storage reports for keys never written.
    pub fn zero() -> (r: H256)
        ensures
            r@ == Seq::new(32, |i: int| 0u8),
    {
        let mut bytes: Vec<u8> = Vec::new();
        let mut i: usize = 0;
        while i < 32
            invariant
                i <= 32,
                bytes@ == Seq::new(i as nat, |j: int| 0u8),
            decreases 32 - i,
        {
            bytes.push(0u8);
            i = i + 1;
            proof {
                assert(bytes@ =~= Seq::new(i as nat, |j: int| 0u8));
            }
        }
        H256 { bytes }
    }

    /// Builds a hash from raw bytes; answers `None` unless exactly 32 bytes
    /// were given.
    pub fn from_bytes(bytes: Vec<u8>) -> (r: Option<H256>)
        ensures
            r is Some <==> bytes@.len() == 32,
            r matches Some(h) ==> h@ == bytes@,
    {
        if bytes.len() == 32 {
            Some(H256 { bytes })
        } else {
            None
        }
    }

    /// The raw bytes of the hash.
    pub fn as_slice(&self) -> (r: &[u8])
        ensures
            r@ == self@,
            r@.len() == 32,
    {
        proof {
            use_type_invariant(self);
        }
        self.bytes.as_slice()
    }

    /// An independent copy of the hash.
    pub fn duplicate(&self) -> (r: H256)
        ensures
            r@ == self@,
    {
        proof {
            use_type_invariant(self);
        }
        let bytes = self.bytes.clone();
        proof {
            assert(bytes@ =~= self.bytes@);
        }
        H256 { bytes }
    }

    /// Byte-for-byte equality of two hashes.
    pub fn equals(&self, other: &H256) -> (r: bool)
        ensures
            r == (self@ == other@),
    {
        proof {
            use_type_invariant(self);
            use_type_invariant(other);
        }
        let mut i: usize = 0;
        while i < 32
            invariant
                i <= 32,
                self@.len() == 32,
                other@.len() == 32,
                forall|j: int| 0 <= j < i ==> self@[j] == other@[j],
            decreases 32 - i,
        {
            if self.bytes[i] != other.bytes[i] {
                return false;
            }
            i = i + 1;
        }
        proof {
            assert(self@ =~= other@);
        }
        true
    }
}

/// A 160-bit account identifier: exactly 20 bytes.
#[derive(Debug)]
pub struct Address {
    bytes: Vec<u8>,
}

impl View for Address {
    type V = Seq<u8>;

    closed spec fn view(&self) -> Seq<u8> {
        self.bytes@
    }
}

impl Address {
    #[verifier::type_invariant]
    spec fn type_inv(self) -> bool {
        self.bytes@.len() == 20
    }

    /// The all-zero address.
    pub fn zero() -> (r: Address)
        ensures
            r@ == Seq::new(20, |i: int| 0u8),
    {
        let mut bytes: Vec<u8> = Vec::new();
        let mut i: usize = 0;
        while i < 20
            invariant
                i <= 20,
                bytes@ == Seq::new(i as nat, |j: int| 0u8),
            decreases 20 - i,
        {
            bytes.push(0u8);
            i = i + 1;
            proof {
                assert(bytes@ =~= Seq::new(i as nat, |j: int| 0u8));
            }
        }
        Address { bytes }
    }

    /// Builds an address from raw bytes; answers `None` unless exactly 20
    /// bytes were given.
    pub fn from_bytes(bytes: Vec<u8>) -> (r: Option<Address>)
        ensures
            r is Some <==> bytes@.len() == 20,
            r matches Some(a) ==> a@ == bytes@,
    {
        if bytes.len() == 20 {
            Some(Address { bytes })
        } else {
            None
        }
    }

    /// The raw bytes of the address.
    pub fn as_slice(&self) -> (r: &[u8])
        ensures
            r@ == self@,
            r@.len() == 20,
    {
        proof {
            use_type_invariant(self);
        }
        self.bytes.as_slice()
    }
}

/// A 256-bit unsigned integer, stored as 32 big-endian bytes. Only carried
/// through the execution context here, never computed with.
#[derive(Debug)]
pub struct U256 {
    bytes: Vec<u8>,
}

impl View for U256 {
    type V = Seq<u8>;

    closed spec fn view(&self) -> Seq<u8> {
        self.bytes@
    }
}

impl U256 {
    #[verifier::type_invariant]
    spec fn type_inv(self) -> bool {
        self.bytes@.len() == 32
    }

    /// Zero.
    pub fn zero() -> (r: U256)
        ensures
            r@ == Seq::new(32, |i: int| 0u8),
    {
        let mut bytes: Vec<u8> = Vec::new();
        let mut i: usize = 0;
        while i < 32
            invariant
                i <= 32,
                bytes@ == Seq::new(i as nat, |j: int| 0u8),
            decreases 32 - i,
        {
            bytes.push(0u8);
            i = i + 1;
            proof {
                assert(bytes@ =~= Seq::new(i as nat, |j: int| 0u8));
            }
        }
        U256 { bytes }
    }

    /// Builds a value from raw big-endian bytes; answers `None` unless
    /// exactly 32 bytes were given.
    pub fn from_bytes(bytes: Vec<u8>) -> (r: Option<U256>)
        ensures
            r is Some <==> bytes@.len() == 32,
            r matches Some(v) ==> v@ == bytes@,
    {
        if bytes.len() == 32 {
            Some(U256 { bytes })
        } else {
            None
        }
    }

    /// The raw big-endian bytes of the value.
    pub fn as_slice(&self) -> (r: &[u8])
        ensures
            r@ == self@,
            r@.len() == 32,
    {
        proof {
            use_type_invariant(self);
        }
        self.bytes.as_slice()
    }
}

/// Immutable per-call identity data, created once per contract invocation
/// and never mutated for the runtime's lifetime.
pub struct RuntimeContext {
    /// The account being executed.
    pub address: Address,
    /// The immediate caller.
    pub sender: Address,
    /// The outermost transaction initiator.
    pub origin: Address,
    /// The address whose code is executing (may differ from `address` under
    /// delegated-call semantics).
    pub code_address: Address,
    /// The amount of native currency transferred with the call.
    pub value: U256,
}

} // verus!
