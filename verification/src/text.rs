//! Decimal numbers and right-aligned columns for the game's labels.
use vstd::prelude::*;

verus! {

/// The character of the decimal digit `d` (0 to 9).
pub open spec fn digit_char(d: nat) -> char {
    if d == 0 {
        '0'
    } else if d == 1 {
        '1'
    } else if d == 2 {
        '2'
    } else if d == 3 {
        '3'
    } else if d == 4 {
        '4'
    } else if d == 5 {
        '5'
    } else if d == 6 {
        '6'
    } else if d == 7 {
        '7'
    } else if d == 8 {
        '8'
    } else {
        '9'
    }
}

/// The decimal form of `n`: its digits, most significant first, with no
/// leading zeros ("0" for zero).
pub open spec fn decimal(n: nat) -> Seq<char>
    decreases n,
{
    if n < 10 {
        seq![digit_char(n)]
    } else {
        decimal(n / 10).push(digit_char(n % 10))
    }
}

/// `s` right-aligned in a field of `width` characters: spaces in front up
/// to the width, `s` unchanged when it is already that wide.
pub open spec fn right_aligned(s: Seq<char>, width: nat) -> Seq<char> {
    if s.len() >= width {
        s
    } else {
        Seq::new((width - s.len()) as nat, |i: int| ' ') + s
    }
}

/// A number written in a right-aligned column of `width` characters.
pub open spec fn column(n: nat, width: nat) -> Seq<char> {
    right_aligned(decimal(n), width)
}

/// `String::push`: adds one character at the end.
#[verifier::external_body]
pub(crate) fn push_char(s: &mut String, c: char)
    ensures
        final(s)@ == old(s)@.push(c),
{
    s.push(c);
}

/// `String::pop`: takes the last character off, if there is one.
#[verifier::external_body]
pub(crate) fn pop_char(s: &mut String) -> (r: Option<char>)
    ensures
        old(s)@.len() == 0 ==> r is None && final(s)@ == old(s)@,
        old(s)@.len() > 0 ==> r == Some(old(s)@.last()) && final(s)@ == old(s)@.drop_last(),
{
    s.pop()
}

/// What `str::to_uppercase` makes of a string (Unicode upper-casing).
pub uninterp spec fn uppercased(s: Seq<char>) -> Seq<char>;

/// A capital ASCII letter or an ASCII digit: characters without an upper
/// case mapping.
pub open spec fn upper_or_digit(c: char) -> bool {
    ('A' <= c <= 'Z') || ('0' <= c <= '9')
}

/// `str::to_uppercase`: the string in upper case, as Unicode defines it.
/// The contract names the result and states one documented case: a
/// character without an upper case mapping (such as a capital letter or a
/// digit) is kept, so a string of such characters comes back unchanged.
#[verifier::external_body]
pub(crate) fn to_uppercase(s: &str) -> (r: String)
    ensures
        r@ == uppercased(s@),
        (forall|i: int| 0 <= i < s@.len() ==> upper_or_digit(#[trigger] s@[i])) ==> r@ == s@,
{
    s.to_uppercase()
}

/// The character of a digit.
fn digit(d: u64) -> (c: char)
    requires
        d < 10,
    ensures
        c == digit_char(d as nat),
{
    match d {
        0 => '0',
        1 => '1',
        2 => '2',
        3 => '3',
        4 => '4',
        5 => '5',
        6 => '6',
        7 => '7',
        8 => '8',
        _ => '9',
    }
}

/// A decimal form has at least one digit; one for a digit, at most two
/// below 100 and at most three below 1000.
pub proof fn lemma_decimal_len(n: nat)
    ensures
        1 <= decimal(n).len(),
        n < 10 ==> decimal(n).len() == 1,
        n < 100 ==> decimal(n).len() <= 2,
        n < 1000 ==> decimal(n).len() <= 3,
    decreases n,
{
    if n >= 10 {
        lemma_decimal_len(n / 10);
    }
}

/// Writes the decimal form of `n` at the end of `s`.
pub fn append_decimal(s: &mut String, n: u64)
    ensures
        final(s)@ == old(s)@ + decimal(n as nat),
    decreases n,
{
    if n >= 10 {
        append_decimal(s, n / 10);
    }
    push_char(s, digit(n % 10));
    proof {
        if n >= 10 {
            assert(s@ == old(s)@ + decimal((n / 10) as nat).push(digit_char((n % 10) as nat)));
        } else {
            assert(s@ == old(s)@ + decimal(n as nat));
        }
    }
}

/// The decimal form of `n` as a string.
pub fn decimal_string(n: u64) -> (r: String)
    ensures
        r@ == decimal(n as nat),
{
    let mut s = String::new();
    append_decimal(&mut s, n);
    proof {
        assert(s@ == Seq::<char>::empty() + decimal(n as nat));
    }
    s
}

/// Writes `n` at the end of `s`, right-aligned in a field of `width`
/// characters.
pub fn append_column(s: &mut String, n: u64, width: usize)
    ensures
        final(s)@ == old(s)@ + column(n as nat, width as nat),
{
    let digits = decimal_string(n);
    proof {
        lemma_decimal_len(n as nat);
    }
    let len = digits.as_str().unicode_len();
    let ghost start = s@;
    if len < width {
        let pad = width - len;
        let mut k: usize = 0;
        while k < pad
            invariant
                k <= pad,
                s@ == start + Seq::new(k as nat, |i: int| ' '),
            decreases pad - k,
        {
            push_char(s, ' ');
            proof {
                assert(s@ =~= start + Seq::new((k + 1) as nat, |i: int| ' '));
            }
            k = k + 1;
        }
    }
    s.append(digits.as_str());
    proof {
        assert(s@ =~= start + column(n as nat, width as nat));
    }
}

} // verus!
