use vstd::prelude::*;

verus! {

/// The address of an account: 32 bytes.
#[derive(Clone, Copy, Debug, PartialEq, Eq, Hash)]
pub struct Address {
    pub bytes: [u8; 32],
}

impl View for Address {
    type V = Seq<u8>;

    open spec fn view(&self) -> Seq<u8> {
        self.bytes@
    }
}

impl Address {
    /// The address with the given bytes.
    pub fn new(bytes: [u8; 32]) -> (r: Address)
        ensures
            r.bytes == bytes,
            r@ == bytes@,
    {
        Address { bytes }
    }

    /// The bytes of the address.
    pub fn to_bytes(&self) -> (r: [u8; 32])
        ensures
            r == self.bytes,
    {
        self.bytes
    }

    /// Whether two addresses hold the same bytes. Every byte is looked at,
    /// wherever the first difference lies.
    pub fn same(&self, other: &Address) -> (r: bool)
        ensures
            r == (self@ == other@),
    {
        let mut equal = true;
        let mut i: usize = 0;
        while i < 32
            invariant
                i <= 32,
                equal == (forall|j: int| 0 <= j < i ==> self@[j] == other@[j]),
            decreases 32 - i,
        {
            if self.bytes[i] != other.bytes[i] {
                assert(self@[i as int] != other@[i as int]);
                equal = false;
            }
            i += 1;
        }
        if equal {
            assert(self@ =~= other@);
        }
        equal
    }

    /// The address stored in the 32 bytes of `data` that start at `start`.
    pub fn from_slice(data: &[u8], start: usize) -> (r: Address)
        requires
            start + 32 <= data@.len(),
        ensures
            r@ == data@.subrange(start as int, start + 32),
    {
        let mut bytes = [0u8; 32];
        let n: usize = data.len();
        let mut i: usize = 0;
        while i < 32
            invariant
                i <= 32,
                n == data@.len(),
                start + 32 <= n,
                forall|j: int| 0 <= j < i ==> bytes@[j] == data@[start + j],
            decreases 32 - i,
        {
            bytes[i] = data[start + i];
            i += 1;
        }
        assert(bytes@ =~= data@.subrange(start as int, start + 32));
        Address { bytes }
    }

    /// The bytes as a vector, as a seed of a derivation takes them.
    pub fn to_vec(&self) -> (r: Vec<u8>)
        ensures
            r@ == self@,
    {
        let mut out: Vec<u8> = Vec::new();
        let mut i: usize = 0;
        while i < 32
            invariant
                i <= 32,
                out@.len() == i,
                forall|j: int| 0 <= j < i ==> out@[j] == self@[j],
            decreases 32 - i,
        {
            out.push(self.bytes[i]);
            i += 1;
        }
        assert(out@ =~= self@);
        out
    }
}

} // verus!
