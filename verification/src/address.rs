use vstd::prelude::*;

verus! {

/// A 32-byte identity on the external ledger: an owner's public key, a
/// token-account address, or a program-derived custody address.
#[derive(Clone, Copy, Debug, PartialEq, Eq)]
pub struct Address {
    pub bytes: [u8; 32],
}

impl View for Address {
    type V = Seq<u8>;

    open spec fn view(&self) -> Seq<u8> {
        self.bytes@
    }
}

/// Byte-for-byte equality of two addresses.
pub fn address_eq(a: &Address, b: &Address) -> (r: bool)
    ensures
        r == (a@ == b@),
{
    let mut i: usize = 0;
    while i < 32
        invariant
            i <= 32,
            forall|j: int| 0 <= j < i ==> a.bytes@[j] == b.bytes@[j],
        decreases 32 - i,
    {
        if a.bytes[i] != b.bytes[i] {
            assert(a@[i as int] != b@[i as int]);
            return false;
        }
        i += 1;
    }
    proof {
        assert(a@ =~= b@);
    }
    true
}

} // verus!
