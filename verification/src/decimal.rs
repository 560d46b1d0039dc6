use vstd::prelude::*;

use vstd::string::StrSliceExecFns;
use vstd::string::StringExecFns;

verus! {

// Decimal-string encoding of unsigned 128-bit amounts. Amount-valued fields
// (deposit, stake) can exceed the safe integer range of common
// JSON-consuming clients, so they are written as decimal strings and must be
// recoverable as the exact original integer by decimal-string parsing.

/// Whether a character is a decimal digit.
pub open spec fn is_dec_digit(c: char) -> bool {
    c == '0' || c == '1' || c == '2' || c == '3' || c == '4' || c == '5' || c == '6' || c == '7'
        || c == '8' || c == '9'
}

/// The digit character for a value below ten.
pub open spec fn digit_char(d: int) -> char {
    if d == 0 {
        '0'
    } else if d == 1 {
        '1'
    } else if d == 2 {
        '2'
    } else if d == 3 {
        '3'
    } else if d == 4 {
        '4'
    } else if d == 5 {
        '5'
    } else if d == 6 {
        '6'
    } else if d == 7 {
        '7'
    } else if d == 8 {
        '8'
    } else {
        '9'
    }
}

/// The value of a digit character; zero on any other character.
pub open spec fn digit_val(c: char) -> nat {
    if c == '1' {
        1
    } else if c == '2' {
        2
    } else if c == '3' {
        3
    } else if c == '4' {
        4
    } else if c == '5' {
        5
    } else if c == '6' {
        6
    } else if c == '7' {
        7
    } else if c == '8' {
        8
    } else if c == '9' {
        9
    } else {
        0
    }
}

/// The canonical decimal expansion of a natural number: no sign, no leading
/// zero except for the single digit of zero itself.
pub open spec fn dec_str(n: nat) -> Seq<char>
    decreases n,
{
    if n < 10 {
        seq![digit_char(n as int)]
    } else {
        dec_str(n / 10) + seq![digit_char((n % 10) as int)]
    }
}

/// The number a character sequence denotes when read as a decimal numeral,
/// most significant digit first; non-digit characters count as zero.
pub open spec fn dec_val(s: Seq<char>) -> nat
    decreases s.len(),
{
    if s.len() == 0 {
        0
    } else {
        dec_val(s.drop_last()) * 10 + digit_val(s.last())
    }
}

/// Whether a character sequence is a decimal numeral whose value fits an
/// unsigned 128-bit integer: nonempty, all digits, value in range.
pub open spec fn valid_dec_u128(s: Seq<char>) -> bool {
    &&& s.len() > 0
    &&& forall|i: int| 0 <= i < s.len() ==> is_dec_digit(#[trigger] s[i])
    &&& dec_val(s) <= u128::MAX
}

proof fn lemma_digit_char_val(d: int)
    requires
        0 <= d < 10,
    ensures
        is_dec_digit(digit_char(d)),
        digit_val(digit_char(d)) == d,
{
}

/// The decimal expansion is nonempty and consists of digits alone.
pub proof fn lemma_dec_str_digits(n: nat)
    ensures
        dec_str(n).len() > 0,
        forall|i: int| 0 <= i < dec_str(n).len() ==> is_dec_digit(#[trigger] dec_str(n)[i]),
    decreases n,
{
    if n < 10 {
        lemma_digit_char_val(n as int);
    } else {
        lemma_dec_str_digits(n / 10);
        lemma_digit_char_val((n % 10) as int);
        assert forall|i: int| 0 <= i < dec_str(n).len() implies is_dec_digit(
            #[trigger] dec_str(n)[i],
        ) by {
            if i < dec_str(n / 10).len() {
                assert(dec_str(n)[i] == dec_str(n / 10)[i]);
            } else {
                assert(dec_str(n)[i] == digit_char((n % 10) as int));
            }
        }
    }
}

/// Reading the decimal expansion back yields the original number: the
/// encoding loses no precision at any magnitude.
pub proof fn lemma_dec_val_of_dec_str(n: nat)
    ensures
        dec_val(dec_str(n)) == n,
    decreases n,
{
    if n < 10 {
        lemma_digit_char_val(n as int);
        assert(dec_str(n).drop_last() =~= Seq::<char>::empty());
        assert(dec_val(Seq::<char>::empty()) == 0);
        assert(dec_str(n).last() == digit_char(n as int));
        assert(dec_val(dec_str(n)) == 0 * 10 + digit_val(digit_char(n as int)));
    } else {
        lemma_dec_val_of_dec_str(n / 10);
        lemma_digit_char_val((n % 10) as int);
        let s = dec_str(n);
        assert(s.drop_last() =~= dec_str(n / 10));
        assert(s.last() == digit_char((n % 10) as int));
        assert(dec_val(s) == dec_val(dec_str(n / 10)) * 10 + (n % 10));
        assert(n / 10 * 10 + n % 10 == n) by {
            vstd::arithmetic::div_mod::lemma_fundamental_div_mod(n as int, 10);
        }
    }
}

/// Two numbers with the same decimal expansion are the same number.
pub proof fn lemma_dec_str_injective(a: nat, b: nat)
    requires
        dec_str(a) == dec_str(b),
    ensures
        a == b,
{
    lemma_dec_val_of_dec_str(a);
    lemma_dec_val_of_dec_str(b);
}

/// The decimal expansion of an unsigned 128-bit value is itself a valid
/// 128-bit numeral.
pub proof fn lemma_dec_str_valid_u128(v: u128)
    ensures
        valid_dec_u128(dec_str(v as nat)),
        dec_val(dec_str(v as nat)) == v,
{
    lemma_dec_str_digits(v as nat);
    lemma_dec_val_of_dec_str(v as nat);
}

proof fn lemma_dec_val_take_step(s: Seq<char>, i: int)
    requires
        0 <= i < s.len(),
    ensures
        dec_val(s.take(i + 1)) == dec_val(s.take(i)) * 10 + digit_val(s[i]),
{
    assert(s.take(i + 1).drop_last() =~= s.take(i));
    assert(s.take(i + 1).last() == s[i]);
}

proof fn lemma_dec_val_take_monotone(s: Seq<char>, i: int, j: int)
    requires
        0 <= i <= j <= s.len(),
    ensures
        dec_val(s.take(i)) <= dec_val(s.take(j)),
    decreases j - i,
{
    if i < j {
        lemma_dec_val_take_monotone(s, i, j - 1);
        lemma_dec_val_take_step(s, j - 1);
    }
}

fn digit_str(d: u8) -> (r: &'static str)
    requires
        d < 10,
    ensures
        r@ =~= seq![digit_char(d as int)],
{
    proof {
        reveal_strlit("0");
        reveal_strlit("1");
        reveal_strlit("2");
        reveal_strlit("3");
        reveal_strlit("4");
        reveal_strlit("5");
        reveal_strlit("6");
        reveal_strlit("7");
        reveal_strlit("8");
        reveal_strlit("9");
    }
    if d == 0 {
        "0"
    } else if d == 1 {
        "1"
    } else if d == 2 {
        "2"
    } else if d == 3 {
        "3"
    } else if d == 4 {
        "4"
    } else if d == 5 {
        "5"
    } else if d == 6 {
        "6"
    } else if d == 7 {
        "7"
    } else if d == 8 {
        "8"
    } else {
        "9"
    }
}

/// The digit characters of the suffix of a digit-value list, least
/// significant digit first, read back in display order.
spec fn rev_digit_chars(ds: Seq<u8>) -> Seq<char> {
    Seq::new(ds.len(), |k: int| digit_char(ds[ds.len() - 1 - k] as int))
}

/// Encodes an unsigned 128-bit value as its exact decimal expansion.
pub fn u128_to_dec_str(v: u128) -> (r: String)
    ensures
        r@ == dec_str(v as nat),
{
    if v == 0 {
        return String::from_str(digit_str(0));
    }
    let mut digits: Vec<u8> = Vec::new();
    let mut x: u128 = v;
    while x > 0
        invariant
            digits@.len() == 0 ==> x == v,
            x > 0 ==> dec_str(v as nat) =~= dec_str(x as nat) + rev_digit_chars(digits@),
            x == 0 ==> digits@.len() > 0 && dec_str(v as nat) =~= rev_digit_chars(digits@),
            forall|k: int| 0 <= k < digits@.len() ==> #[trigger] digits@[k] < 10,
        decreases x,
    {
        let ghost y = x as nat;
        let d: u8 = (x % 10) as u8;
        digits.push(d);
        x = x / 10;
        proof {
            assert(rev_digit_chars(digits@) =~= seq![digit_char(d as int)] + rev_digit_chars(
                digits@.drop_last(),
            ));
            if y >= 10 {
                assert(dec_str(y) == dec_str(y / 10) + seq![digit_char((y % 10) as int)]);
                assert(dec_str(v as nat) =~= dec_str(x as nat) + rev_digit_chars(digits@));
            } else {
                assert(dec_str(y) =~= seq![digit_char(d as int)]);
                assert(dec_str(v as nat) =~= rev_digit_chars(digits@));
            }
        }
    }
    let mut r = String::new();
    let mut i: usize = digits.len();
    while i > 0
        invariant
            i <= digits@.len(),
            r@ =~= rev_digit_chars(digits@).take(digits@.len() - i),
            forall|k: int| 0 <= k < digits@.len() ==> #[trigger] digits@[k] < 10,
        decreases i,
    {
        i = i - 1;
        r.append(digit_str(digits[i]));
        proof {
            assert(r@ =~= rev_digit_chars(digits@).take(digits@.len() - i));
        }
    }
    proof {
        assert(r@ =~= rev_digit_chars(digits@));
    }
    r
}

/// Parses a decimal numeral back into an unsigned 128-bit value: succeeds
/// exactly on nonempty all-digit strings whose value is in range, and then
/// returns exactly the denoted number.
pub fn parse_u128_dec(s: &str) -> (r: Option<u128>)
    ensures
        r == if valid_dec_u128(s@) {
            Option::Some(dec_val(s@) as u128)
        } else {
            Option::<u128>::None
        },
{
    let n = s.unicode_len();
    if n == 0 {
        return Option::None;
    }
    let mut acc: u128 = 0;
    let mut i: usize = 0;
    while i < n
        invariant
            0 <= i <= n,
            n == s@.len(),
            forall|k: int| 0 <= k < i ==> is_dec_digit(#[trigger] s@[k]),
            acc == dec_val(s@.take(i as int)),
        decreases n - i,
    {
        let c = s.get_char(i);
        let d: u8 = if c == '0' {
            0
        } else if c == '1' {
            1
        } else if c == '2' {
            2
        } else if c == '3' {
            3
        } else if c == '4' {
            4
        } else if c == '5' {
            5
        } else if c == '6' {
            6
        } else if c == '7' {
            7
        } else if c == '8' {
            8
        } else if c == '9' {
            9
        } else {
            proof {
                assert(!is_dec_digit(s@[i as int]));
            }
            return Option::None;
        };
        proof {
            assert(is_dec_digit(s@[i as int]) && digit_val(s@[i as int]) == d);
        }
        if acc > u128::MAX / 10 || (acc == u128::MAX / 10 && d > (u128::MAX % 10) as u8) {
            proof {
                lemma_dec_val_take_step(s@, i as int);
                assert(dec_val(s@.take(i + 1)) > u128::MAX);
                lemma_dec_val_take_monotone(s@, i + 1, s@.len() as int);
                assert(s@.take(s@.len() as int) =~= s@);
            }
            return Option::None;
        }
        proof {
            lemma_dec_val_take_step(s@, i as int);
        }
        acc = acc * 10 + (d as u128);
        i = i + 1;
    }
    proof {
        assert(s@.take(n as int) =~= s@);
    }
    Option::Some(acc)
}

} // verus!
