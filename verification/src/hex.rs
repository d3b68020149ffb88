//! Fixed-width lowercase hexadecimal rendering of a `u64`, used to name
//! ephemeral liveness sockets.

use vstd::prelude::*;

verus! {

/// The lowercase hexadecimal digit standing for a value below 16.
pub open spec fn hex_digit(n: u64) -> char
    recommends
        n < 16,
{
    if n == 0 {
        '0'
    } else if n == 1 {
        '1'
    } else if n == 2 {
        '2'
    } else if n == 3 {
        '3'
    } else if n == 4 {
        '4'
    } else if n == 5 {
        '5'
    } else if n == 6 {
        '6'
    } else if n == 7 {
        '7'
    } else if n == 8 {
        '8'
    } else if n == 9 {
        '9'
    } else if n == 10 {
        'a'
    } else if n == 11 {
        'b'
    } else if n == 12 {
        'c'
    } else if n == 13 {
        'd'
    } else if n == 14 {
        'e'
    } else {
        'f'
    }
}

/// The value of the nibble of `n` that the `i`-th character of the 16-digit
/// rendering shows (most significant nibble first).
pub open spec fn nibble_at(n: u64, i: int) -> u64
    recommends
        0 <= i < 16,
{
    (n >> ((15 - i) * 4) as u64) & 0xf
}

/// The 16-character lowercase hexadecimal rendering of `n`, most significant
/// nibble first, zero-padded.
pub open spec fn hex16(n: u64) -> Seq<char> {
    Seq::new(16, |i: int| hex_digit(nibble_at(n, i)))
}

/// A one-character string holding the lowercase hexadecimal digit for `d`.
fn hex_digit_str(d: u64) -> (r: &'static str)
    requires
        d < 16,
    ensures
        r@ =~= seq![hex_digit(d)],
{
    proof {
        reveal_strlit("0");
        reveal_strlit("1");
        reveal_strlit("2");
        reveal_strlit("3");
        reveal_strlit("4");
        reveal_strlit("5");
        reveal_strlit("6");
        reveal_strlit("7");
        reveal_strlit("8");
        reveal_strlit("9");
        reveal_strlit("a");
        reveal_strlit("b");
        reveal_strlit("c");
        reveal_strlit("d");
        reveal_strlit("e");
        reveal_strlit("f");
    }
    if d == 0 {
        "0"
    } else if d == 1 {
        "1"
    } else if d == 2 {
        "2"
    } else if d == 3 {
        "3"
    } else if d == 4 {
        "4"
    } else if d == 5 {
        "5"
    } else if d == 6 {
        "6"
    } else if d == 7 {
        "7"
    } else if d == 8 {
        "8"
    } else if d == 9 {
        "9"
    } else if d == 10 {
        "a"
    } else if d == 11 {
        "b"
    } else if d == 12 {
        "c"
    } else if d == 13 {
        "d"
    } else if d == 14 {
        "e"
    } else {
        "f"
    }
}

/// Renders `n` as its 16-digit lowercase hexadecimal form.
pub fn to_hex16(n: u64) -> (r: String)
    ensures
        r@ == hex16(n),
{
    let mut s = String::new();
    let mut i: usize = 0;
    while i < 16
        invariant
            i <= 16,
            s@.len() == i,
            forall|j: int| 0 <= j < i ==> s@[j] == hex_digit(nibble_at(n, j)),
        decreases 16 - i,
    {
        let shift: u64 = ((15 - i) * 4) as u64;
        let d: u64 = (n >> shift) & 0xf;
        assert(((n >> shift) & 0xf) < 16) by (bit_vector);
        assert(d == nibble_at(n, i as int));
        s.append(hex_digit_str(d));
        i = i + 1;
    }
    proof {
        assert(s@ =~= hex16(n));
    }
    s
}

} // verus!
