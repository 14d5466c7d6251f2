//! Unsigned LEB128, the variable-length integer encoding the WebAssembly
//! binary format uses for section sizes and string lengths.

use vstd::prelude::*;

verus! {

/// The unsigned LEB128 encoding of `n`: each byte carries the next seven low
/// bits of the value, least significant first, and every byte except the last
/// has its high (continuation) bit set. `0` encodes as the single byte `0x00`.
pub open spec fn leb_bytes(n: nat) -> Seq<u8>
    decreases n,
{
    if n < 128 {
        seq![n as u8]
    } else {
        seq![(n % 128 + 128) as u8] + leb_bytes(n / 128)
    }
}

/// The value denoted by an unsigned LEB128 byte sequence: the low seven bits
/// of each byte, least significant chunk first, continuation bits ignored.
pub open spec fn leb_value(s: Seq<u8>) -> nat
    decreases s.len(),
{
    if s.len() == 0 {
        0
    } else {
        (s[0] % 128) as nat + 128 * leb_value(s.skip(1))
    }
}

/// Law: decoding the LEB128 encoding of any value yields that value back.
pub proof fn lemma_leb_round_trip(n: nat)
    ensures
        leb_value(leb_bytes(n)) == n,
    decreases n,
{
    if n < 128 {
        let s = leb_bytes(n);
        assert(s == seq![n as u8]);
        assert(s.skip(1) =~= Seq::<u8>::empty());
        assert(leb_value(s.skip(1)) == 0);
        assert(leb_value(s) == (s[0] % 128) as nat + 128 * leb_value(s.skip(1)));
        assert((n as u8) % 128 == n);
    } else {
        lemma_leb_round_trip(n / 128);
        let b = (n % 128 + 128) as u8;
        let s = leb_bytes(n);
        assert(s == seq![b] + leb_bytes(n / 128));
        assert(s.skip(1) =~= leb_bytes(n / 128));
        assert(s[0] == b);
        assert(b % 128 == n % 128);
        assert(leb_value(s) == (s[0] % 128) as nat + 128 * leb_value(s.skip(1)));
        assert(n % 128 + 128 * (n / 128) == n);
    }
}

/// A value below `2^32` encodes in at most five bytes (five seven-bit chunks).
pub proof fn lemma_leb_bytes_len_le_5(n: nat)
    requires
        n < 0x1_0000_0000,
    ensures
        leb_bytes(n).len() <= 5,
{
    if n >= 128 {
        let n1 = n / 128;
        assert(n1 < 0x200_0000);
        assert(leb_bytes(n).len() == 1 + leb_bytes(n1).len());
        if n1 >= 128 {
            let n2 = n1 / 128;
            assert(n2 < 0x4_0000);
            assert(leb_bytes(n1).len() == 1 + leb_bytes(n2).len());
            if n2 >= 128 {
                let n3 = n2 / 128;
                assert(n3 < 0x800);
                assert(leb_bytes(n2).len() == 1 + leb_bytes(n3).len());
                if n3 >= 128 {
                    let n4 = n3 / 128;
                    assert(n4 < 16);
                    assert(leb_bytes(n3).len() == 1 + leb_bytes(n4).len());
                    assert(leb_bytes(n4).len() == 1);
                }
            }
        }
    }
}

/// Encodes `value` as unsigned LEB128: emit the low seven bits, shift the
/// value right by seven, and set the continuation bit whenever more non-zero
/// bits remain.
pub fn to_leb(value: u32) -> (leb128: Vec<u8>)
    ensures
        leb128@ == leb_bytes(value as nat),
{
    let mut leb128: Vec<u8> = Vec::new();
    let mut rest: u32 = value;
    loop
        invariant_except_break
            leb_bytes(value as nat) == leb128@ + leb_bytes(rest as nat),
        ensures
            leb128@ == leb_bytes(value as nat),
        decreases rest,
    {
        let mut byte: u8 = (rest & 0x7F) as u8;
        let next: u32 = rest >> 7;
        proof {
            assert((rest & 0x7F) == rest % 128) by (bit_vector);
            assert((rest >> 7) == rest / 128) by (bit_vector);
            assert(rest >= 128 ==> (rest >> 7) < rest) by (bit_vector);
        }
        if next != 0 {
            byte = byte | 0x80;
            proof {
                assert((rest >> 7) != 0 ==> rest >= 128) by (bit_vector);
                assert(((rest % 128) as u8) | 0x80 == ((rest % 128) + 128) as u8)
                    by (bit_vector);
                assert(leb_bytes(rest as nat) == seq![byte] + leb_bytes((rest / 128) as nat));
            }
            leb128.push(byte);
            proof {
                assert(leb_bytes(value as nat) =~= leb128@ + leb_bytes(next as nat));
            }
            rest = next;
        } else {
            proof {
                assert((rest >> 7) == 0 ==> rest < 128) by (bit_vector);
                assert(byte == rest as u8);
                assert(leb_bytes(rest as nat) == seq![byte]);
            }
            leb128.push(byte);
            proof {
                assert(leb128@ =~= leb_bytes(value as nat));
            }
            break;
        }
    }
    leb128
}

} // verus!
