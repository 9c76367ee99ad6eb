//! Text building blocks: decimal rendering of unsigned integers.

use vstd::prelude::*;
use vstd::string::*;

verus! {

/// The character of a decimal digit `d` (`d < 10`).
pub open spec fn digit_char(d: nat) -> char {
    seq!['0', '1', '2', '3', '4', '5', '6', '7', '8', '9'][d as int]
}

/// The decimal representation of `n`, without sign or leading zeros.
pub open spec fn decimal(n: nat) -> Seq<char>
    decreases n,
{
    if n < 10 {
        seq![digit_char(n)]
    } else {
        decimal(n / 10).push(digit_char(n % 10))
    }
}

/// A decimal representation is never empty.
pub proof fn lemma_decimal_nonempty(n: nat)
    ensures
        decimal(n).len() >= 1,
    decreases n,
{
    if n >= 10 {
        lemma_decimal_nonempty(n / 10);
    }
}

/// A digit's character is an ASCII digit, `d` places after `0`.
pub proof fn lemma_digit_char_value(d: nat)
    requires
        d < 10,
    ensures
        '0' <= digit_char(d) && digit_char(d) <= '9',
        digit_char(d) as int - '0' as int == d,
{
    assert(digit_char(0) == '0');
    assert(digit_char(1) == '1');
    assert(digit_char(2) == '2');
    assert(digit_char(3) == '3');
    assert(digit_char(4) == '4');
    assert(digit_char(5) == '5');
    assert(digit_char(6) == '6');
    assert(digit_char(7) == '7');
    assert(digit_char(8) == '8');
    assert(digit_char(9) == '9');
}

/// Distinct digits have distinct characters.
proof fn lemma_digit_char_injective(i: nat, j: nat)
    requires
        i < 10,
        j < 10,
        digit_char(i) == digit_char(j),
    ensures
        i == j,
{
    assert(digit_char(0) == '0');
    assert(digit_char(1) == '1');
    assert(digit_char(2) == '2');
    assert(digit_char(3) == '3');
    assert(digit_char(4) == '4');
    assert(digit_char(5) == '5');
    assert(digit_char(6) == '6');
    assert(digit_char(7) == '7');
    assert(digit_char(8) == '8');
    assert(digit_char(9) == '9');
}

/// Distinct numbers have distinct decimal representations.
pub proof fn lemma_decimal_injective(a: nat, b: nat)
    ensures
        decimal(a) == decimal(b) ==> a == b,
    decreases a,
{
    if decimal(a) == decimal(b) {
        if a < 10 && b < 10 {
            assert(decimal(a)[0] == digit_char(a));
            assert(decimal(b)[0] == digit_char(b));
            lemma_digit_char_injective(a, b);
        } else if a < 10 {
            lemma_decimal_nonempty(b / 10);
            assert(decimal(b).len() >= 2);
        } else if b < 10 {
            lemma_decimal_nonempty(a / 10);
            assert(decimal(a).len() >= 2);
        } else {
            let da = decimal(a);
            let db = decimal(b);
            assert(da.last() == digit_char(a % 10));
            assert(db.last() == digit_char(b % 10));
            lemma_digit_char_injective(a % 10, b % 10);
            assert(da.drop_last() =~= decimal(a / 10));
            assert(db.drop_last() =~= decimal(b / 10));
            lemma_decimal_injective(a / 10, b / 10);
        }
    }
}

/// A string literal holding the single digit `d`.
fn digit_str(d: u8) -> (s: &'static str)
    requires
        d < 10,
    ensures
        s@ == seq![digit_char(d as nat)],
{
    match d {
        0 => {
            proof { reveal_strlit("0"); }
            "0"
        },
        1 => {
            proof { reveal_strlit("1"); }
            "1"
        },
        2 => {
            proof { reveal_strlit("2"); }
            "2"
        },
        3 => {
            proof { reveal_strlit("3"); }
            "3"
        },
        4 => {
            proof { reveal_strlit("4"); }
            "4"
        },
        5 => {
            proof { reveal_strlit("5"); }
            "5"
        },
        6 => {
            proof { reveal_strlit("6"); }
            "6"
        },
        7 => {
            proof { reveal_strlit("7"); }
            "7"
        },
        8 => {
            proof { reveal_strlit("8"); }
            "8"
        },
        _ => {
            proof { reveal_strlit("9"); }
            "9"
        },
    }
}

/// Appends the decimal representation of `n` to `s`.
pub fn append_decimal(s: &mut String, n: u128)
    ensures
        final(s)@ == old(s)@ + decimal(n as nat),
    decreases n,
{
    if n >= 10 {
        append_decimal(s, n / 10);
    }
    let d = (n % 10) as u8;
    s.append(digit_str(d));
    proof {
        if n >= 10 {
            assert(decimal(n as nat) == decimal((n / 10) as nat).push(digit_char((n % 10) as nat)));
        }
    }
}

/// The decimal representation of `n` as a new string.
pub fn decimal_string(n: u128) -> (s: String)
    ensures
        s@ == decimal(n as nat),
{
    let mut s = String::new();
    append_decimal(&mut s, n);
    s
}

/// Whether two string slices hold the same characters.
pub fn str_eq(a: &str, b: &str) -> (r: bool)
    ensures
        r == (a@ == b@),
{
    let n = a.unicode_len();
    let m = b.unicode_len();
    if n != m {
        return false;
    }
    let mut i: usize = 0;
    while i < n
        invariant
            n == a@.len(),
            m == b@.len(),
            n == m,
            i <= n,
            forall|j: int| 0 <= j < i ==> a@[j] == b@[j],
        decreases n - i,
    {
        if a.get_char(i) != b.get_char(i) {
            return false;
        }
        i = i + 1;
    }
    assert(a@ =~= b@);
    true
}

} // verus!
