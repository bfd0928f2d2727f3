//! Building decimal strings in verified code.

use vstd::prelude::*;
use vstd::string::StrSliceExecFns;

verus! {

/// The character for a single decimal digit.
pub open spec fn digit_char(d: int) -> char {
    if d == 0 {
        '0'
    } else if d == 1 {
        '1'
    } else if d == 2 {
        '2'
    } else if d == 3 {
        '3'
    } else if d == 4 {
        '4'
    } else if d == 5 {
        '5'
    } else if d == 6 {
        '6'
    } else if d == 7 {
        '7'
    } else if d == 8 {
        '8'
    } else {
        '9'
    }
}

/// The decimal representation of `n`, most significant digit first, with no
/// leading zeros (except for `n == 0` itself).
pub open spec fn u64_dec(n: int) -> Seq<char>
    decreases n,
{
    if n < 10 {
        seq![digit_char(n)]
    } else {
        u64_dec(n / 10) + seq![digit_char(n % 10)]
    }
}

/// Append the character of a single decimal digit to `s`.
fn push_digit(s: &mut String, d: u64)
    requires
        d < 10,
    ensures
        final(s)@ == old(s)@ + seq![digit_char(d as int)],
{
    if d == 0 {
        proof {
            reveal_strlit("0");
        }
        s.append("0");
        assert(s@ =~= old(s)@ + seq![digit_char(d as int)]);
    } else if d == 1 {
        proof {
            reveal_strlit("1");
        }
        s.append("1");
        assert(s@ =~= old(s)@ + seq![digit_char(d as int)]);
    } else if d == 2 {
        proof {
            reveal_strlit("2");
        }
        s.append("2");
        assert(s@ =~= old(s)@ + seq![digit_char(d as int)]);
    } else if d == 3 {
        proof {
            reveal_strlit("3");
        }
        s.append("3");
        assert(s@ =~= old(s)@ + seq![digit_char(d as int)]);
    } else if d == 4 {
        proof {
            reveal_strlit("4");
        }
        s.append("4");
        assert(s@ =~= old(s)@ + seq![digit_char(d as int)]);
    } else if d == 5 {
        proof {
            reveal_strlit("5");
        }
        s.append("5");
        assert(s@ =~= old(s)@ + seq![digit_char(d as int)]);
    } else if d == 6 {
        proof {
            reveal_strlit("6");
        }
        s.append("6");
        assert(s@ =~= old(s)@ + seq![digit_char(d as int)]);
    } else if d == 7 {
        proof {
            reveal_strlit("7");
        }
        s.append("7");
        assert(s@ =~= old(s)@ + seq![digit_char(d as int)]);
    } else if d == 8 {
        proof {
            reveal_strlit("8");
        }
        s.append("8");
        assert(s@ =~= old(s)@ + seq![digit_char(d as int)]);
    } else {
        proof {
            reveal_strlit("9");
        }
        s.append("9");
        assert(s@ =~= old(s)@ + seq![digit_char(d as int)]);
    }
}

/// Append the decimal representation of `n` to `s`.
pub fn push_u64_dec(s: &mut String, n: u64)
    ensures
        final(s)@ == old(s)@ + u64_dec(n as int),
    decreases n,
{
    if n < 10 {
        push_digit(s, n);
    } else {
        push_u64_dec(s, n / 10);
        push_digit(s, n % 10);
        assert(s@ =~= old(s)@ + u64_dec(n as int));
    }
}

/// The decimal representation of `n` as a fresh string.
pub fn u64_to_string(n: u64) -> (s: String)
    ensures
        s@ == u64_dec(n as int),
{
    let mut s = String::new();
    push_u64_dec(&mut s, n);
    proof {
        assert(s@ =~= u64_dec(n as int));
    }
    s
}

/// The decimal representation of a signed value: a minus sign for negatives,
/// then the digits of the magnitude.
pub open spec fn i64_dec(n: int) -> Seq<char> {
    if n < 0 {
        seq!['-'] + u64_dec(-n)
    } else {
        u64_dec(n)
    }
}

/// Append the decimal representation of a signed value to `s`.
pub fn push_i64_dec(s: &mut String, n: i64)
    ensures
        final(s)@ == old(s)@ + i64_dec(n as int),
{
    if n < 0 {
        proof {
            reveal_strlit("-");
        }
        s.append("-");
        assert(s@ =~= old(s)@ + seq!['-']);
        // -n fits in u64 even for i64::MIN
        let m: u64 = (-(n as i128)) as u64;
        push_u64_dec(s, m);
        assert(s@ =~= old(s)@ + i64_dec(n as int));
    } else {
        push_u64_dec(s, n as u64);
    }
}

/// Character-wise string equality.
pub fn str_eq(a: &str, b: &str) -> (r: bool)
    ensures
        r == (a@ == b@),
{
    let la = a.unicode_len();
    let lb = b.unicode_len();
    if la != lb {
        proof {
            assert(a@.len() != b@.len());
        }
        return false;
    }
    let mut i: usize = 0;
    while i < la
        invariant
            0 <= i <= la,
            la as nat == a@.len(),
            la as nat == b@.len(),
            forall|j: int| 0 <= j < i ==> a@[j] == b@[j],
        decreases la - i,
    {
        if a.get_char(i) != b.get_char(i) {
            return false;
        }
        i += 1;
    }
    proof {
        assert(a@ =~= b@);
    }
    true
}

/// The character for a single hexadecimal digit (lowercase).
pub open spec fn hex_digit_char(d: int) -> char {
    if d < 10 {
        digit_char(d)
    } else if d == 10 {
        'a'
    } else if d == 11 {
        'b'
    } else if d == 12 {
        'c'
    } else if d == 13 {
        'd'
    } else if d == 14 {
        'e'
    } else {
        'f'
    }
}

/// The lowercase hexadecimal encoding of a byte sequence: two digits per
/// byte, high nibble first.
pub open spec fn hex_of(data: Seq<u8>) -> Seq<char>
    decreases data.len(),
{
    if data.len() == 0 {
        Seq::empty()
    } else {
        hex_of(data.drop_last()) + seq![
            hex_digit_char(data.last() as int / 16),
            hex_digit_char(data.last() as int % 16),
        ]
    }
}

/// The hexadecimal encoding is twice as long as its input.
pub proof fn lemma_hex_of_len(data: Seq<u8>)
    ensures
        hex_of(data).len() == 2 * data.len(),
    decreases data.len(),
{
    if data.len() > 0 {
        lemma_hex_of_len(data.drop_last());
    }
}

} // verus!
