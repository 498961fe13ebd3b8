use vstd::prelude::*;

verus! {

/// A 128-bit block, stored as its 16 little-endian bytes.
#[derive(Clone, Copy, Debug, PartialEq, Eq)]
pub struct Block {
    pub bytes: [u8; 16],
}

/// The bytewise exclusive or of two byte sequences of equal length.
pub open spec fn xor_bytes(a: Seq<u8>, b: Seq<u8>) -> Seq<u8> {
    Seq::new(a.len(), |i: int| a[i] ^ b[i])
}

impl Block {
    /// Creates a block from its 16 bytes.
    pub fn new(bytes: [u8; 16]) -> (r: Block)
        ensures
            r.bytes == bytes,
    {
        Block { bytes }
    }

    /// Returns the bitwise exclusive or of two blocks.
    pub fn xor(&self, other: &Block) -> (r: Block)
        ensures
            r.bytes@ == xor_bytes(self.bytes@, other.bytes@),
    {
        let mut out: [u8; 16] = [0u8; 16];
        let mut i: usize = 0;
        while i < 16
            invariant
                i <= 16,
                forall|j: int| 0 <= j < i ==> out@[j] == self.bytes@[j] ^ other.bytes@[j],
            decreases 16 - i,
        {
            out[i] = self.bytes[i] ^ other.bytes[i];
            i = i + 1;
        }
        let r = Block { bytes: out };
        assert(r.bytes@ =~= xor_bytes(self.bytes@, other.bytes@));
        r
    }
}

/// Exclusive or with the same key twice gives the message back.
pub proof fn lemma_xor_twice(m: Seq<u8>, k: Seq<u8>)
    requires
        m.len() == k.len(),
    ensures
        xor_bytes(xor_bytes(m, k), k) =~= m,
{
    assert forall|i: int| 0 <= i < m.len() implies #[trigger] xor_bytes(xor_bytes(m, k), k)[i]
        == m[i] by {
        let a = m[i];
        let b = k[i];
        assert((a ^ b) ^ b == a) by (bit_vector);
    }
}

} // verus!
