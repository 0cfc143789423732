use vstd::prelude::*;

verus! {

/// Big-endian value of four bytes.
pub open spec fn be32_value(b0: u8, b1: u8, b2: u8, b3: u8) -> int {
    b0 as int * 0x1000000 + b1 as int * 0x10000 + b2 as int * 0x100 + b3 as int
}

/// The four big-endian bytes of `n`.
pub open spec fn be32_bytes(n: u32) -> Seq<u8> {
    seq![
        (n / 0x1000000) as u8,
        ((n / 0x10000) % 0x100) as u8,
        ((n / 0x100) % 0x100) as u8,
        (n % 0x100) as u8,
    ]
}

pub proof fn lemma_be32_round_trip(n: u32)
    ensures
        be32_value(be32_bytes(n)[0], be32_bytes(n)[1], be32_bytes(n)[2], be32_bytes(n)[3]) == n,
{
    let b = be32_bytes(n);
    assert(b[0] as int == n as int / 0x1000000);
    assert(b[1] as int == (n as int / 0x10000) % 0x100);
    assert(b[2] as int == (n as int / 0x100) % 0x100);
    assert(b[3] as int == n as int % 0x100);
    let x = n as int;
    assert(x / 0x1000000 * 0x1000000 + (x / 0x10000) % 0x100 * 0x10000 + (x / 0x100) % 0x100
        * 0x100 + x % 0x100 == x) by (nonlinear_arith)
        requires
            0 <= x < 0x100000000,
    ;
}

pub fn be32_encode(n: u32) -> (r: [u8; 4])
    ensures
        r@ == be32_bytes(n),
{
    let r = [
        (n / 0x1000000) as u8,
        ((n / 0x10000) % 0x100) as u8,
        ((n / 0x100) % 0x100) as u8,
        (n % 0x100) as u8,
    ];
    assert(r@ =~= be32_bytes(n));
    r
}

pub fn be32_decode(b0: u8, b1: u8, b2: u8, b3: u8) -> (r: u32)
    ensures
        r as int == be32_value(b0, b1, b2, b3),
{
    (b0 as u32) * 0x1000000 + (b1 as u32) * 0x10000 + (b2 as u32) * 0x100 + (b3 as u32)
}

/// The four little-endian bytes of `n`.
pub open spec fn le32_bytes(n: u32) -> Seq<u8> {
    seq![
        (n % 0x100) as u8,
        ((n / 0x100) % 0x100) as u8,
        ((n / 0x10000) % 0x100) as u8,
        (n / 0x1000000) as u8,
    ]
}

/// The eight little-endian bytes of `n`.
pub open spec fn le64_bytes(n: u64) -> Seq<u8> {
    seq![
        (n % 0x100) as u8,
        ((n / 0x100) % 0x100) as u8,
        ((n / 0x10000) % 0x100) as u8,
        ((n / 0x1000000) % 0x100) as u8,
        ((n / 0x100000000) % 0x100) as u8,
        ((n / 0x10000000000) % 0x100) as u8,
        ((n / 0x1000000000000) % 0x100) as u8,
        (n / 0x100000000000000) as u8,
    ]
}

/// Appends `src` to `dst`.
pub fn append(dst: &mut Vec<u8>, src: &[u8])
    ensures
        final(dst)@ == old(dst)@ + src@,
{
    let ghost start = dst@;
    let mut i: usize = 0;
    while i < src.len()
        invariant
            i <= src@.len(),
            dst@ == start + src@.subrange(0, i as int),
        decreases src@.len() - i,
    {
        dst.push(src[i]);
        assert(src@.subrange(0, i + 1) =~= src@.subrange(0, i as int).push(src@[i as int]));
        i += 1;
    }
    assert(src@.subrange(0, i as int) =~= src@);
}

/// Appends the little-endian bytes of `n` to `dst`.
pub fn append_le32(dst: &mut Vec<u8>, n: u32)
    ensures
        final(dst)@ == old(dst)@ + le32_bytes(n),
{
    let b = [
        (n % 0x100) as u8,
        ((n / 0x100) % 0x100) as u8,
        ((n / 0x10000) % 0x100) as u8,
        (n / 0x1000000) as u8,
    ];
    assert(b@ =~= le32_bytes(n));
    append(dst, &b);
}

/// Appends the little-endian bytes of `n` to `dst`.
pub fn append_le64(dst: &mut Vec<u8>, n: u64)
    ensures
        final(dst)@ == old(dst)@ + le64_bytes(n),
{
    let b = [
        (n % 0x100) as u8,
        ((n / 0x100) % 0x100) as u8,
        ((n / 0x10000) % 0x100) as u8,
        ((n / 0x1000000) % 0x100) as u8,
        ((n / 0x100000000) % 0x100) as u8,
        ((n / 0x10000000000) % 0x100) as u8,
        ((n / 0x1000000000000) % 0x100) as u8,
        (n / 0x100000000000000) as u8,
    ];
    assert(b@ =~= le64_bytes(n));
    append(dst, &b);
}

} // verus!
