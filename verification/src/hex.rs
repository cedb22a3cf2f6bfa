//! Short hashes: a 64-bit hash of a string, written as sixteen hex digits.

use std::hash::BuildHasher;
use std::hash::BuildHasherDefault;
use vstd::prelude::*;
use vstd::string::StringExecFns;

verus! {

/// The sixteen digits, in order.
pub open spec fn hex_digits() -> Seq<char> {
    seq!['0', '1', '2', '3', '4', '5', '6', '7', '8', '9', 'a', 'b', 'c', 'd', 'e', 'f']
}

/// The `i`-th byte of `num`, counted from the least significant one.
pub open spec fn byte_of(num: u64, i: int) -> u8 {
    ((num >> ((8 * i) as u64)) & 0xff) as u8
}

/// `num` in hex: its eight bytes, the least significant first, each as two
/// lower-case digits, the high one first.
pub open spec fn hex_of(num: u64) -> Seq<char> {
    Seq::new(
        16,
        |k: int|
            if k % 2 == 0 {
                hex_digits()[(byte_of(num, k / 2) >> 4) as int]
            } else {
                hex_digits()[(byte_of(num, k / 2) & 0xf) as int]
            },
    )
}

/// The hash that std's SipHash 2-4 with both keys zero gives to a string.
pub uninterp spec fn sip_hash_of(text: Seq<char>) -> u64;

/// Hashes `text` with `BuildHasher::hash_one` of std, on a `SipHasher` made by
/// `Default`, which sets both keys to zero. Nothing is proved of it: the
/// result is, by definition, `sip_hash_of` the string.
#[allow(deprecated)]
#[verifier::external_body]
fn sip_hash(text: &str) -> (h: u64)
    ensures
        h == sip_hash_of(text@),
{
    BuildHasherDefault::<std::hash::SipHasher>::default().hash_one(text)
}

/// One hex digit as a string.
fn digit_str(n: u8) -> (r: &'static str)
    requires
        n < 16,
    ensures
        r@ == seq![hex_digits()[n as int]],
{
    proof {
        reveal_strlit("0");
        reveal_strlit("1");
        reveal_strlit("2");
        reveal_strlit("3");
        reveal_strlit("4");
        reveal_strlit("5");
        reveal_strlit("6");
        reveal_strlit("7");
        reveal_strlit("8");
        reveal_strlit("9");
        reveal_strlit("a");
        reveal_strlit("b");
        reveal_strlit("c");
        reveal_strlit("d");
        reveal_strlit("e");
        reveal_strlit("f");
    }
    let r = match n {
        0 => "0",
        1 => "1",
        2 => "2",
        3 => "3",
        4 => "4",
        5 => "5",
        6 => "6",
        7 => "7",
        8 => "8",
        9 => "9",
        10 => "a",
        11 => "b",
        12 => "c",
        13 => "d",
        14 => "e",
        _ => "f",
    };
    assert(r@ =~= seq![hex_digits()[n as int]]);
    r
}

/// Writes `num` in hex, the least significant byte first.
pub fn to_hex(num: u64) -> (r: String)
    ensures
        r@ == hex_of(num),
{
    let mut r = String::new();
    let mut i: u64 = 0;
    while i < 8
        invariant
            i <= 8,
            r@ == hex_of(num).subrange(0, 2 * i),
        decreases 8 - i,
    {
        let wide: u64 = (num >> (8 * i)) & 0xff;
        assert(wide <= 0xff) by (bit_vector)
            requires
                wide == (num >> (8 * i)) & 0xff,
        ;
        let byte: u8 = wide as u8;
        let high: u8 = byte >> 4;
        let low: u8 = byte & 0xf;
        assert(high < 16 && low < 16) by (bit_vector)
            requires
                high == byte >> 4,
                low == byte & 0xf,
        ;
        assert(byte == byte_of(num, i as int));
        r.append(digit_str(high));
        r.append(digit_str(low));
        proof {
            let k = 2 * i as int;
            assert(hex_of(num)[k] == hex_digits()[high as int]);
            assert(hex_of(num)[k + 1] == hex_digits()[low as int]);
            assert(r@ =~= hex_of(num).subrange(0, k + 2));
        }
        i += 1;
    }
    assert(hex_of(num).subrange(0, 16) =~= hex_of(num));
    r
}

/// The short hash of `text`: its hash in hex.
pub fn short_hash(text: &str) -> (r: String)
    ensures
        r@ == hex_of(sip_hash_of(text@)),
{
    to_hex(sip_hash(text))
}

} // verus!
