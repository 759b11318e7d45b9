//! Bluetooth device addresses.

use vstd::prelude::*;

verus! {

/// The six-byte hardware address of a Bluetooth device.
#[derive(Clone, Copy, Debug)]
pub struct BdAddr(pub [u8; 6]);

impl View for BdAddr {
    type V = Seq<u8>;

    /// The six bytes, first byte first.
    open spec fn view(&self) -> Seq<u8> {
        self.0@
    }
}

impl BdAddr {
    /// The six bytes of the address.
    pub fn raw(&self) -> (bytes: [u8; 6])
        ensures
            bytes == self.0,
    {
        self.0
    }

    /// Two addresses with the same bytes are the same address.
    pub proof fn lemma_same_bytes(a: BdAddr, b: BdAddr)
        ensures
            a@.len() == 6,
            a@ == b@ <==> a == b,
    {
        if a@ == b@ {
            assert(a.0 =~= b.0);
        }
    }
}

impl PartialEq for BdAddr {
    fn eq(&self, other: &BdAddr) -> (r: bool) {
        let mut i: usize = 0;
        while i < 6
            invariant
                i <= 6,
                forall|k: int| 0 <= k < i ==> self.0@[k] == other.0@[k],
            decreases 6 - i,
        {
            if self.0[i] != other.0[i] {
                return false;
            }
            i = i + 1;
        }
        assert(self.0@ =~= other.0@);
        true
    }
}

impl Eq for BdAddr {

}

impl vstd::std_specs::cmp::PartialEqSpecImpl for BdAddr {
    open spec fn obeys_eq_spec() -> bool {
        true
    }

    open spec fn eq_spec(&self, other: &BdAddr) -> bool {
        self@ == other@
    }
}

impl From<[u8; 6]> for BdAddr {
    fn from(value: [u8; 6]) -> (addr: BdAddr) {
        BdAddr(value)
    }
}

impl vstd::std_specs::convert::FromSpecImpl<[u8; 6]> for BdAddr {
    open spec fn obeys_from_spec() -> bool {
        true
    }

    open spec fn from_spec(value: [u8; 6]) -> BdAddr {
        BdAddr(value)
    }
}

} // verus!
