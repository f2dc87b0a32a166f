use vstd::prelude::*;

verus! {

/// A 32-byte identifier of an account, a mint or a program on the ledger.
///
/// Two addresses are equal exactly when their bytes are.
#[derive(Clone, Copy, Debug, Hash)]
pub struct Address {
    pub bytes: [u8; 32],
}

impl Address {
    /// All 32 bytes are zero: the address a freshly created record holds.
    pub open spec fn is_zero(self) -> bool {
        forall|i: int| 0 <= i < 32 ==> self.bytes[i] == 0u8
    }

    /// The address made of 32 zero bytes.
    pub fn zero() -> (a: Address)
        ensures
            a.is_zero(),
    {
        Address { bytes: [0u8; 32] }
    }

    /// The address with the given bytes.
    pub fn new(bytes: [u8; 32]) -> (a: Address)
        ensures
            a.bytes == bytes,
    {
        Address { bytes }
    }
}

impl PartialEq for Address {
    fn eq(&self, other: &Address) -> (r: bool) {
        let mut i: usize = 0;
        while i < 32
            invariant
                i <= 32,
                forall|j: int| 0 <= j < i ==> self.bytes[j] == other.bytes[j],
            decreases 32 - i,
        {
            if self.bytes[i] != other.bytes[i] {
                return false;
            }
            i += 1;
        }
        assert(self.bytes =~= other.bytes);
        true
    }
}

impl Eq for Address {

}

impl vstd::std_specs::cmp::PartialEqSpecImpl for Address {
    open spec fn obeys_eq_spec() -> bool {
        true
    }

    open spec fn eq_spec(&self, other: &Address) -> bool {
        *self == *other
    }
}

impl View for Address {
    type V = Seq<u8>;

    open spec fn view(&self) -> Seq<u8> {
        self.bytes@
    }
}

/// The array whose first `n` bytes are those of `s`, and whose other bytes are zero.
pub open spec fn array_of(s: Seq<u8>, n: nat) -> [u8; 32]
    decreases n,
{
    if n == 0 {
        vstd::array::spec_array_fill_for_copy_type::<u8, 32>(0u8)
    } else {
        vstd::array::spec_array_update(array_of(s, (n - 1) as nat), n - 1, s[n - 1])
    }
}

/// The address written in the 32 bytes of `s` that start at `at`.
pub open spec fn address_at(s: Seq<u8>, at: int) -> Address {
    Address { bytes: array_of(s.subrange(at, at + 32), 32) }
}

proof fn array_of_holds(s: Seq<u8>, n: nat)
    requires
        n <= 32,
    ensures
        forall|i: int| 0 <= i < n ==> array_of(s, n)@[i] == s[i],
    decreases n,
{
    broadcast use vstd::array::axiom_spec_array_update;

    if n > 0 {
        array_of_holds(s, (n - 1) as nat);
    }
}

/// An address read from bytes holds exactly those bytes.
pub proof fn address_at_holds(s: Seq<u8>, at: int)
    requires
        0 <= at,
        at + 32 <= s.len(),
    ensures
        address_at(s, at)@ == s.subrange(at, at + 32),
{
    array_of_holds(s.subrange(at, at + 32), 32);
    assert(address_at(s, at)@ =~= s.subrange(at, at + 32));
}

/// Addresses with the same bytes are the same address.
pub proof fn same_bytes_same_address(a: Address, b: Address)
    requires
        a@ == b@,
    ensures
        a == b,
{
    assert(forall|i: int| 0 <= i < 32 ==> a.bytes[i] == a@[i]);
    assert(forall|i: int| 0 <= i < 32 ==> b.bytes[i] == b@[i]);
    assert(a.bytes =~= b.bytes);
}

} // verus!
