//! The timestamp of a certificate: an unsigned number in LEB128, little end
//! first, seven bits to a byte, the eighth bit set on every byte but the last.

use vstd::prelude::*;

verus! {

/// The number that the bytes from position `at` on encode, if they encode
/// one: the low seven bits of the byte at `at`, and 128 times what follows
/// where the byte's high bit says that more follows. The tenth byte of a
/// number can only hold the bit that is left of 64; a number cannot be
/// longer.
pub open spec fn leb128_from(bytes: Seq<u8>, at: nat) -> Option<nat>
    decreases bytes.len() - at,
{
    if at >= bytes.len() {
        None
    } else if at == 9 && bytes[at as int] > 1 {
        None
    } else if bytes[at as int] < 128 {
        Some(bytes[at as int] as nat)
    } else {
        match leb128_from(bytes, at + 1) {
            Some(rest) => Some((bytes[at as int] - 128) as nat + 128 * rest),
            None => None,
        }
    }
}

/// The number that a byte string begins with. Bytes after the number's last
/// byte are not read.
pub open spec fn leb128_unsigned(bytes: Seq<u8>) -> Option<nat> {
    leb128_from(bytes, 0)
}

/// 128 to the power `n`.
pub open spec fn pow128(n: nat) -> nat
    decreases n,
{
    if n == 0 {
        1
    } else {
        128 * pow128((n - 1) as nat)
    }
}

/// The first ten powers of 128.
proof fn lemma_pow128_values()
    ensures
        pow128(0) == 1,
        pow128(1) == 0x80,
        pow128(2) == 0x4000,
        pow128(3) == 0x20_0000,
        pow128(4) == 0x1000_0000,
        pow128(5) == 0x8_0000_0000,
        pow128(6) == 0x400_0000_0000,
        pow128(7) == 0x2_0000_0000_0000,
        pow128(8) == 0x100_0000_0000_0000,
        pow128(9) == 0x8000_0000_0000_0000,
{
    reveal_with_fuel(pow128, 11);
}

/// A number read from position `at` on is below twice 128 to the power
/// `9 - at`: with the `at` groups of seven bits before it, it fits in 64 bits.
proof fn lemma_leb128_bound(bytes: Seq<u8>, at: nat)
    requires
        at <= 9,
    ensures
        leb128_from(bytes, at) matches Some(v) ==> v < 2 * pow128((9 - at) as nat),
    decreases 9 - at,
{
    if at < 9 {
        lemma_leb128_bound(bytes, at + 1);
        assert(pow128((9 - at) as nat) == 128 * pow128((8 - at) as nat));
        lemma_pow128_positive((8 - at) as nat);
    }
}

/// A power of 128 is at least 1.
proof fn lemma_pow128_positive(n: nat)
    ensures
        pow128(n) >= 1,
    decreases n,
{
    if n > 0 {
        lemma_pow128_positive((n - 1) as nat);
    }
}

/// Reads the number that `bytes` begins with.
pub fn decode_leb128(bytes: &[u8]) -> (out: Option<u64>)
    ensures
        match out {
            Some(v) => leb128_unsigned(bytes@) == Some(v as nat),
            None => leb128_unsigned(bytes@) is None,
        },
{
    let mut result: u64 = 0;
    let mut scale: u64 = 1;
    let mut i: usize = 0;
    proof {
        lemma_pow128_values();
        lemma_leb128_bound(bytes@, 0);
    }
    while i < bytes.len()
        invariant
            i <= 9,
            i <= bytes.len(),
            scale == pow128(i as nat),
            result < scale,
            match leb128_from(bytes@, i as nat) {
                Some(rest) => leb128_unsigned(bytes@) == Some((result + scale * rest) as nat),
                None => leb128_unsigned(bytes@) is None,
            },
            leb128_unsigned(bytes@) matches Some(v) ==> v < 0x1_0000_0000_0000_0000,
        decreases bytes.len() - i,
    {
        let b = bytes[i];
        proof {
            lemma_pow128_values();
            assert(i == 0 || i == 1 || i == 2 || i == 3 || i == 4 || i == 5 || i == 6 || i == 7
                || i == 8 || i == 9);
        }
        if i == 9 && b > 1 {
            return None;
        }
        if b < 128 {
            let part: u64 = scale * (b as u64);
            return Some(result + part);
        }
        let low: u64 = (b - 128) as u64;
        proof {
            let rest = leb128_from(bytes@, (i + 1) as nat);
            if rest is Some {
                let r = rest.unwrap();
                assert(scale * (low + 128 * r) == scale * low + (scale * 128) * r)
                    by (nonlinear_arith);
            }
            assert(scale * low <= scale * 127) by (nonlinear_arith)
                requires
                    scale >= 0,
                    low <= 127,
            ;
        }
        result = result + scale * low;
        scale = scale * 128;
        i += 1;
    }
    None
}

} // verus!
