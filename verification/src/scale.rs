use vstd::prelude::*;

verus! {

/// The little-endian byte string of length `n` representing `v` (mod 256^n).
pub open spec fn le_bytes_of(v: nat, n: nat) -> Seq<u8>
    decreases n,
{
    if n == 0 {
        Seq::empty()
    } else {
        seq![(v % 256) as u8] + le_bytes_of(v / 256, (n - 1) as nat)
    }
}

/// The least number of bytes that can represent `v` in little-endian form
/// (one byte for zero).
pub open spec fn byte_len_of(v: nat) -> nat
    decreases v,
{
    if v < 256 {
        1
    } else {
        1 + byte_len_of(v / 256)
    }
}

/// 256 raised to the power `k`.
pub open spec fn pow256(k: nat) -> nat
    decreases k,
{
    if k == 0 {
        1
    } else {
        256 * pow256((k - 1) as nat)
    }
}

/// The compact (variable-length) encoding of an unsigned integer: the two
/// low bits of the first byte select one of four modes, the value is stored
/// shifted left by two in the three small modes, and in raw little-endian
/// form after a length header in the big mode.
pub open spec fn compact_of(v: nat) -> Seq<u8> {
    if v < 64 {
        seq![(v * 4) as u8]
    } else if v < 16384 {
        le_bytes_of(v * 4 + 1, 2)
    } else if v < 1073741824 {
        le_bytes_of(v * 4 + 2, 4)
    } else {
        seq![((byte_len_of(v) - 4) * 4 + 3) as u8] + le_bytes_of(v, byte_len_of(v))
    }
}

/// A value below 256^k (k at least 1) needs at most k bytes.
proof fn lemma_byte_len_le(v: nat, k: nat)
    requires
        k >= 1,
        v < pow256(k),
    ensures
        byte_len_of(v) <= k,
    decreases k,
{
    if v < 256 {
    } else {
        assert(pow256(k) == 256 * pow256((k - 1) as nat));
        assert(v / 256 < pow256((k - 1) as nat)) by (nonlinear_arith)
            requires
                v < 256 * pow256((k - 1) as nat),
                v >= 256,
        ;
        assert((k - 1) as nat >= 1) by {
            if k == 1 {
                assert(pow256(1nat) == 256);
            }
        }
        lemma_byte_len_le(v / 256, (k - 1) as nat);
    }
}

/// A value of 256^3 or more needs at least 4 bytes.
proof fn lemma_byte_len_ge_4(v: nat)
    requires
        v >= 16777216,
    ensures
        byte_len_of(v) >= 4,
{
    assert(v / 256 >= 65536);
    assert(v / 256 / 256 >= 256);
    assert(v / 256 / 256 / 256 >= 1);
    assert(byte_len_of(v) == 1 + byte_len_of(v / 256));
    assert(byte_len_of(v / 256) == 1 + byte_len_of(v / 256 / 256));
    assert(byte_len_of(v / 256 / 256) == 1 + byte_len_of(v / 256 / 256 / 256));
}

/// Every 128-bit value fits in 16 little-endian bytes.
proof fn lemma_byte_len_le_16(v: u128)
    ensures
        byte_len_of(v as nat) <= 16,
{
    reveal_with_fuel(pow256, 17);
    assert(pow256(16nat) == 0x1_0000_0000_0000_0000_0000_0000_0000_0000);
    lemma_byte_len_le(v as nat, 16);
}

/// Appends all bytes of `src` to `out`.
pub fn push_bytes(out: &mut Vec<u8>, src: &Vec<u8>)
    ensures
        final(out)@ == old(out)@ + src@,
{
    let mut i: usize = 0;
    while i < src.len()
        invariant
            i <= src@.len(),
            out@ == old(out)@ + src@.take(i as int),
        decreases src@.len() - i,
    {
        out.push(src[i]);
        proof {
            assert(old(out)@ + src@.take(i as int) + seq![src@[i as int]] =~= old(out)@
                + src@.take(i as int + 1));
        }
        i = i + 1;
    }
    proof {
        assert(src@.take(src@.len() as int) =~= src@);
    }
}

/// Returns a fresh vector with the same bytes as `src`.
pub fn copy_bytes(src: &Vec<u8>) -> (r: Vec<u8>)
    ensures
        r@ == src@,
{
    let mut out: Vec<u8> = Vec::new();
    push_bytes(&mut out, src);
    out
}

/// Compares two byte vectors for equality of their contents.
pub fn bytes_eq(a: &Vec<u8>, b: &Vec<u8>) -> (r: bool)
    ensures
        r == (a@ == b@),
{
    if a.len() != b.len() {
        proof {
            assert(a@.len() != b@.len());
        }
        return false;
    }
    let mut i: usize = 0;
    while i < a.len()
        invariant
            a@.len() == b@.len(),
            i <= a@.len(),
            forall|j: int| 0 <= j < i ==> a@[j] == b@[j],
        decreases a@.len() - i,
    {
        if a[i] != b[i] {
            return false;
        }
        i = i + 1;
    }
    proof {
        assert(a@ =~= b@);
    }
    true
}

/// Encodes a 32-bit value as exactly four little-endian bytes.
pub fn encode_u32_le(v: u32) -> (r: Vec<u8>)
    ensures
        r@ == le_bytes_of(v as nat, 4),
{
    let mut out: Vec<u8> = Vec::new();
    out.push((v % 256) as u8);
    out.push(((v / 256) % 256) as u8);
    out.push(((v / 65536) % 256) as u8);
    out.push(((v / 16777216) % 256) as u8);
    proof {
        reveal_with_fuel(le_bytes_of, 5);
        assert(out@ =~= le_bytes_of(v as nat, 4));
    }
    out
}

/// Encodes a value in the compact (variable-length) integer form.
pub fn encode_compact(v: u128) -> (r: Vec<u8>)
    ensures
        r@ == compact_of(v as nat),
{
    if v < 64 {
        let mut out: Vec<u8> = Vec::new();
        out.push((v as u8) * 4);
        proof {
            assert(out@ =~= compact_of(v as nat));
        }
        out
    } else if v < 16384 {
        let w: u32 = (v as u32) * 4 + 1;
        let mut out: Vec<u8> = Vec::new();
        out.push((w % 256) as u8);
        out.push(((w / 256) % 256) as u8);
        proof {
            reveal_with_fuel(le_bytes_of, 3);
            assert(out@ =~= le_bytes_of((v * 4 + 1) as nat, 2));
        }
        out
    } else if v < 1073741824 {
        let w: u32 = (v as u32) * 4 + 2;
        let out = encode_u32_le(w);
        proof {
            assert(out@ =~= le_bytes_of((v * 4 + 2) as nat, 4));
        }
        out
    } else {
        let mut n: usize = 1;
        let mut t: u128 = v;
        proof {
            lemma_byte_len_le_16(v);
            lemma_byte_len_ge_4(v as nat);
        }
        while t >= 256
            invariant
                1 <= n,
                n + byte_len_of(t as nat) == 1 + byte_len_of(v as nat),
                byte_len_of(v as nat) <= 16,
            decreases t,
        {
            t = t / 256;
            n = n + 1;
        }
        assert(byte_len_of(t as nat) == 1);
        assert(n == byte_len_of(v as nat));
        let mut out: Vec<u8> = Vec::new();
        out.push(((n - 4) * 4 + 3) as u8);
        let ghost hdr: Seq<u8> = out@;
        let mut t2: u128 = v;
        let mut i: usize = 0;
        while i < n
            invariant
                i <= n,
                out@ + le_bytes_of(t2 as nat, (n - i) as nat) == hdr + le_bytes_of(
                    v as nat,
                    n as nat,
                ),
            decreases n - i,
        {
            let b: u8 = (t2 % 256) as u8;
            proof {
                assert(le_bytes_of(t2 as nat, (n - i) as nat) == seq![b] + le_bytes_of(
                    (t2 / 256) as nat,
                    (n - i - 1) as nat,
                ));
                assert((out@ + seq![b]) + le_bytes_of((t2 / 256) as nat, (n - i - 1) as nat)
                    =~= out@ + le_bytes_of(t2 as nat, (n - i) as nat));
            }
            out.push(b);
            t2 = t2 / 256;
            i = i + 1;
        }
        proof {
            assert(out@ + le_bytes_of(t2 as nat, 0) =~= out@);
            assert(out@ =~= compact_of(v as nat));
        }
        out
    }
}

} // verus!
