use vstd::prelude::*;

verus! {

/// Byte `i` of the little-endian encoding of `x`.
pub open spec fn u64_le_byte(x: u64, i: int) -> u8 {
    ((x >> ((8 * i) as u64)) & 0xff) as u8
}

/// The eight-byte little-endian encoding of `x`.
pub open spec fn u64_le_bytes(x: u64) -> Seq<u8> {
    Seq::new(8, |i: int| u64_le_byte(x, i))
}

/// Encode `x` as its eight little-endian bytes.
pub fn encode_u64_le(x: u64) -> (r: Vec<u8>)
    ensures
        r@ == u64_le_bytes(x),
{
    let mut r: Vec<u8> = Vec::new();
    let mut i: usize = 0;
    while i < 8
        invariant
            0 <= i <= 8,
            r@.len() == i,
            forall|j: int| 0 <= j < i ==> r@[j] == u64_le_byte(x, j),
        decreases 8 - i,
    {
        let shift: u64 = (8 * i) as u64;
        let b: u8 = ((x >> shift) & 0xff) as u8;
        proof {
            assert(b == u64_le_byte(x, i as int));
        }
        r.push(b);
        i = i + 1;
    }
    proof {
        assert(r@ =~= u64_le_bytes(x));
    }
    r
}

/// The value whose little-endian encoding an eight-byte sequence is.
pub open spec fn u64_from_le_bytes(s: Seq<u8>) -> u64
    recommends
        s.len() == 8,
{
    (s[0] as u64) | ((s[1] as u64) << 8u64) | ((s[2] as u64) << 16u64) | ((s[3] as u64) << 24u64)
        | ((s[4] as u64) << 32u64) | ((s[5] as u64) << 40u64) | ((s[6] as u64) << 48u64) | ((
    s[7] as u64) << 56u64)
}

/// Read a value back from eight little-endian bytes.
pub fn decode_u64_le(b: &Vec<u8>, off: usize) -> (r: u64)
    requires
        off + 8 <= b@.len(),
    ensures
        r == u64_from_le_bytes(b@.subrange(off as int, off as int + 8)),
{
    let n: usize = b.len();
    proof {
        assert(off + 8 <= n);
    }
    let r: u64 = (b[off] as u64) | ((b[off + 1] as u64) << 8u64) | ((b[off + 2] as u64) << 16u64)
        | ((b[off + 3] as u64) << 24u64) | ((b[off + 4] as u64) << 32u64) | ((b[off + 5] as u64)
        << 40u64) | ((b[off + 6] as u64) << 48u64) | ((b[off + 7] as u64) << 56u64);
    proof {
        let s = b@.subrange(off as int, off as int + 8);
        assert(s[0] == b@[off as int]);
        assert(s[1] == b@[off as int + 1]);
        assert(s[2] == b@[off as int + 2]);
        assert(s[3] == b@[off as int + 3]);
        assert(s[4] == b@[off as int + 4]);
        assert(s[5] == b@[off as int + 5]);
        assert(s[6] == b@[off as int + 6]);
        assert(s[7] == b@[off as int + 7]);
    }
    r
}

/// Decoding inverts encoding: the eight bytes of `x` read back as `x`.
pub proof fn lemma_u64_le_round_trip(x: u64)
    ensures
        u64_from_le_bytes(u64_le_bytes(x)) == x,
{
    assert(u64_le_bytes(x)[0] == u64_le_byte(x, 0));
    assert(u64_le_bytes(x)[1] == u64_le_byte(x, 1));
    assert(u64_le_bytes(x)[2] == u64_le_byte(x, 2));
    assert(u64_le_bytes(x)[3] == u64_le_byte(x, 3));
    assert(u64_le_bytes(x)[4] == u64_le_byte(x, 4));
    assert(u64_le_bytes(x)[5] == u64_le_byte(x, 5));
    assert(u64_le_bytes(x)[6] == u64_le_byte(x, 6));
    assert(u64_le_bytes(x)[7] == u64_le_byte(x, 7));
    assert(u64_from_le_bytes(u64_le_bytes(x)) == ((((x >> 0u64) & 0xff) as u8) as u64) | (((((x
        >> 8u64) & 0xff) as u8) as u64) << 8u64) | (((((x >> 16u64) & 0xff) as u8) as u64)
        << 16u64) | (((((x >> 24u64) & 0xff) as u8) as u64) << 24u64) | (((((x >> 32u64) & 0xff)
        as u8) as u64) << 32u64) | (((((x >> 40u64) & 0xff) as u8) as u64) << 40u64) | (((((x
        >> 48u64) & 0xff) as u8) as u64) << 48u64) | (((((x >> 56u64) & 0xff) as u8) as u64)
        << 56u64));
    assert(((((x >> 0u64) & 0xff) as u8) as u64) | (((((x >> 8u64) & 0xff) as u8) as u64) << 8u64)
        | (((((x >> 16u64) & 0xff) as u8) as u64) << 16u64) | (((((x >> 24u64) & 0xff) as u8)
        as u64) << 24u64) | (((((x >> 32u64) & 0xff) as u8) as u64) << 32u64) | (((((x >> 40u64)
        & 0xff) as u8) as u64) << 40u64) | (((((x >> 48u64) & 0xff) as u8) as u64) << 48u64) | ((
    (((x >> 56u64) & 0xff) as u8) as u64) << 56u64) == x) by (bit_vector);
}

/// Encoding inverts decoding: any eight bytes are the encoding of the value
/// they read back as.
pub proof fn lemma_u64_le_bytes_of_decoded(s: Seq<u8>)
    requires
        s.len() == 8,
    ensures
        u64_le_bytes(u64_from_le_bytes(s)) == s,
{
    let v = u64_from_le_bytes(s);
    let b0 = s[0];
    let b1 = s[1];
    let b2 = s[2];
    let b3 = s[3];
    let b4 = s[4];
    let b5 = s[5];
    let b6 = s[6];
    let b7 = s[7];
    let w = (b0 as u64) | ((b1 as u64) << 8u64) | ((b2 as u64) << 16u64) | ((b3 as u64) << 24u64)
        | ((b4 as u64) << 32u64) | ((b5 as u64) << 40u64) | ((b6 as u64) << 48u64) | ((b7 as u64)
        << 56u64);
    assert(v == w);
    assert(((w >> 0u64) & 0xff) as u8 == b0 && ((w >> 8u64) & 0xff) as u8 == b1 && ((w >> 16u64)
        & 0xff) as u8 == b2 && ((w >> 24u64) & 0xff) as u8 == b3 && ((w >> 32u64) & 0xff) as u8
        == b4 && ((w >> 40u64) & 0xff) as u8 == b5 && ((w >> 48u64) & 0xff) as u8 == b6 && ((w
        >> 56u64) & 0xff) as u8 == b7) by (bit_vector)
        requires
            w == (b0 as u64) | ((b1 as u64) << 8u64) | ((b2 as u64) << 16u64) | ((b3 as u64)
                << 24u64) | ((b4 as u64) << 32u64) | ((b5 as u64) << 40u64) | ((b6 as u64)
                << 48u64) | ((b7 as u64) << 56u64),
    ;
    assert(u64_le_bytes(v)[0] == u64_le_byte(v, 0));
    assert(u64_le_bytes(v)[1] == u64_le_byte(v, 1));
    assert(u64_le_bytes(v)[2] == u64_le_byte(v, 2));
    assert(u64_le_bytes(v)[3] == u64_le_byte(v, 3));
    assert(u64_le_bytes(v)[4] == u64_le_byte(v, 4));
    assert(u64_le_bytes(v)[5] == u64_le_byte(v, 5));
    assert(u64_le_bytes(v)[6] == u64_le_byte(v, 6));
    assert(u64_le_bytes(v)[7] == u64_le_byte(v, 7));
    assert(u64_le_bytes(v) =~= s);
}

/// Two distinct values never share a little-endian encoding.
pub proof fn lemma_u64_le_bytes_injective(a: u64, b: u64)
    requires
        u64_le_bytes(a) == u64_le_bytes(b),
    ensures
        a == b,
{
    assert forall|i: int| 0 <= i < 8 implies u64_le_byte(a, i) == u64_le_byte(b, i) by {
        assert(u64_le_bytes(a)[i] == u64_le_byte(a, i));
        assert(u64_le_bytes(b)[i] == u64_le_byte(b, i));
        assert(u64_le_bytes(a)[i] == u64_le_bytes(b)[i]);
    }
    assert(u64_le_byte(a, 0) == u64_le_byte(b, 0));
    assert(u64_le_byte(a, 1) == u64_le_byte(b, 1));
    assert(u64_le_byte(a, 2) == u64_le_byte(b, 2));
    assert(u64_le_byte(a, 3) == u64_le_byte(b, 3));
    assert(u64_le_byte(a, 4) == u64_le_byte(b, 4));
    assert(u64_le_byte(a, 5) == u64_le_byte(b, 5));
    assert(u64_le_byte(a, 6) == u64_le_byte(b, 6));
    assert(u64_le_byte(a, 7) == u64_le_byte(b, 7));
    assert(a == b) by (bit_vector)
        requires
            ((a >> 0u64) & 0xff) as u8 == ((b >> 0u64) & 0xff) as u8,
            ((a >> 8u64) & 0xff) as u8 == ((b >> 8u64) & 0xff) as u8,
            ((a >> 16u64) & 0xff) as u8 == ((b >> 16u64) & 0xff) as u8,
            ((a >> 24u64) & 0xff) as u8 == ((b >> 24u64) & 0xff) as u8,
            ((a >> 32u64) & 0xff) as u8 == ((b >> 32u64) & 0xff) as u8,
            ((a >> 40u64) & 0xff) as u8 == ((b >> 40u64) & 0xff) as u8,
            ((a >> 48u64) & 0xff) as u8 == ((b >> 48u64) & 0xff) as u8,
            ((a >> 56u64) & 0xff) as u8 == ((b >> 56u64) & 0xff) as u8,
    ;
}

} // verus!
