//! Account identity: a 20-byte address, compared byte by byte.

use vstd::prelude::*;

verus! {

/// A 20-byte account address.
#[derive(Clone, Copy, Debug, PartialEq, Eq, Hash)]
pub struct Address {
    pub bytes: [u8; 20],
}

impl View for Address {
    type V = Seq<u8>;

    open spec fn view(&self) -> Seq<u8> {
        self.bytes@
    }
}

impl Address {
    /// The address made of the given bytes.
    pub fn new(bytes: [u8; 20]) -> (res: Address)
        ensures
            res.bytes == bytes,
            res@ == bytes@,
    {
        Address { bytes }
    }

    /// The all-zero address.
    pub fn zero() -> (res: Address)
        ensures
            res@ == Seq::new(20, |i: int| 0u8),
    {
        let res = Address { bytes: [0u8; 20] };
        assert(res@ =~= Seq::new(20, |i: int| 0u8));
        res
    }

    /// Whether two addresses hold the same twenty bytes.
    pub fn same(&self, other: &Address) -> (res: bool)
        ensures
            res == (self@ == other@),
            res == (*self == *other),
    {
        let mut i: usize = 0;
        while i < 20
            invariant
                i <= 20,
                forall|j: int| 0 <= j < i ==> self.bytes[j] == other.bytes[j],
            decreases 20 - i,
        {
            if self.bytes[i] != other.bytes[i] {
                assert(self@[i as int] != other@[i as int]);
                return false;
            }
            i += 1;
        }
        assert(self@ =~= other@);
        assert(self.bytes@ == other.bytes@);
        assert(self.bytes == other.bytes);
        true
    }

    /// The twenty bytes, as a vector.
    pub fn to_vec(&self) -> (res: Vec<u8>)
        ensures
            res@ == self@,
    {
        let mut out: Vec<u8> = Vec::new();
        let mut i: usize = 0;
        while i < 20
            invariant
                i <= 20,
                out@ == self@.take(i as int),
            decreases 20 - i,
        {
            out.push(self.bytes[i]);
            assert(out@ =~= self@.take(i as int + 1));
            i += 1;
        }
        assert(self@.take(20) =~= self@);
        out
    }
}

} // verus!
