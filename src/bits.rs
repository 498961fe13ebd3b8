use vstd::prelude::*;

verus! {

/// Bit `i` of a byte sequence, least significant bit of each byte first.
pub open spec fn bit_lsb0(bytes: Seq<u8>, i: int) -> bool {
    (bytes[i / 8] >> ((i % 8) as u8)) & 1u8 == 1u8
}

/// All the bits of a byte sequence, least significant bit of each byte first.
pub open spec fn bits_lsb0(bytes: Seq<u8>) -> Seq<bool> {
    Seq::new(8 * bytes.len(), |i: int| bit_lsb0(bytes, i))
}

/// The number of bytes that hold `n` bits.
pub open spec fn packed_len(n: nat) -> nat {
    if n % 8 == 0 {
        n / 8
    } else {
        n / 8 + 1
    }
}

proof fn lemma_set_bit(b: u8, k: u8, m: u8)
    requires
        k < 8,
        m < 8,
    ensures
        ((b | (1u8 << k)) >> m) & 1u8 == (if m == k {
            1u8
        } else {
            (b >> m) & 1u8
        }),
{
    assert(((b | (1u8 << k)) >> m) & 1u8 == (if m == k {
        1u8
    } else {
        (b >> m) & 1u8
    })) by (bit_vector)
        requires
            k < 8,
            m < 8,
    ;
}

proof fn lemma_zero_bits(m: u8)
    requires
        m < 8,
    ensures
        (0u8 >> m) & 1u8 == 0u8,
{
    assert((0u8 >> m) & 1u8 == 0u8) by (bit_vector);
}

/// Packs bits into bytes, least significant bit first; the unused high bits
/// of the last byte are zero.
pub fn pack_lsb0(bits: &[bool]) -> (r: Vec<u8>)
    ensures
        r@.len() == packed_len(bits@.len() as nat),
        bits_lsb0(r@).len() >= bits@.len(),
        forall|i: int| 0 <= i < bits@.len() ==> bit_lsb0(r@, i) == bits@[i],
        forall|i: int| bits@.len() <= i < 8 * r@.len() ==> !bit_lsb0(r@, i),
{
    let n = bits.len();
    let nbytes: usize = if n % 8 == 0 {
        n / 8
    } else {
        n / 8 + 1
    };
    let mut out: Vec<u8> = Vec::new();
    let mut j: usize = 0;
    while j < nbytes
        invariant
            n == bits@.len(),
            nbytes == packed_len(n as nat),
            j <= nbytes,
            out@.len() == j,
            forall|i: int|
                0 <= i < 8 * j ==> bit_lsb0(out@, i) == (i < n && bits@[i]),
        decreases nbytes - j,
    {
        let mut byte: u8 = 0;
        let mut k: u8 = 0;
        proof {
            assert forall|m: u8| m < 8 implies (byte >> m) & 1u8 == 0u8 by {
                lemma_zero_bits(m);
            }
        }
        while k < 8
            invariant
                n == bits@.len(),
                nbytes == packed_len(n as nat),
                j < nbytes,
                k <= 8,
                forall|m: u8|
                    m < k ==> ((byte >> m) & 1u8 == 1u8) == (8 * j + m < n && bits@[8 * j + m]),
                forall|m: u8| k <= m < 8 ==> (byte >> m) & 1u8 == 0u8,
            decreases 8 - k,
        {
            let idx: usize = 8 * j + k as usize;
            if idx < n && bits[idx] {
                let ghost old_byte = byte;
                byte = byte | (1u8 << k);
                proof {
                    assert forall|m: u8| m < 8 implies ((byte >> m) & 1u8) == (if m == k {
                        1u8
                    } else {
                        (old_byte >> m) & 1u8
                    }) by {
                        lemma_set_bit(old_byte, k, m);
                    }
                }
            }
            k = k + 1;
        }
        let ghost prev = out@;
        out.push(byte);
        proof {
            assert forall|i: int| 0 <= i < 8 * (j + 1) implies bit_lsb0(out@, i) == (i < n
                && bits@[i]) by {
                if i < 8 * j {
                    assert(out@[i / 8] == prev[i / 8]);
                } else {
                    assert(i / 8 == j);
                    let m = (i % 8) as u8;
                    assert(i == 8 * j + m);
                }
            }
        }
        j = j + 1;
    }
    out
}

/// The first `n` bits of `bytes`, least significant bit of each byte first.
pub fn unpack_lsb0(bytes: &[u8], n: usize) -> (r: Vec<bool>)
    requires
        n <= 8 * bytes@.len(),
    ensures
        r@ == bits_lsb0(bytes@).take(n as int),
{
    let mut out: Vec<bool> = Vec::new();
    let mut i: usize = 0;
    while i < n
        invariant
            n <= 8 * bytes@.len(),
            i <= n,
            out@ =~= bits_lsb0(bytes@).take(i as int),
        decreases n - i,
    {
        let shift: u8 = (i % 8) as u8;
        let bit = (bytes[i / 8] >> shift) & 1u8 == 1u8;
        out.push(bit);
        i = i + 1;
    }
    out
}

} // verus!
