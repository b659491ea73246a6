//! Building and comparing text: decimal numbers, ASCII case, and the order
//! of names.

use vstd::prelude::*;
use vstd::string::*;

verus! {

/// `String::push` appends one character, as the standard library's
/// documentation says. Trusted: vstd gives this method no specification.
pub assume_specification[ String::push ](text: &mut String, ch: char)
    ensures
        final(text)@ == old(text)@.push(ch),
;

/// The character of a decimal digit.
pub open spec fn digit_char(digit: nat) -> char {
    (48 + digit) as char
}

/// A number in decimal, without leading zeros.
pub open spec fn decimal(n: nat) -> Seq<char>
    decreases n,
{
    if n < 10 {
        seq![digit_char(n)]
    } else {
        decimal(n / 10).push(digit_char(n % 10))
    }
}

/// A run of zeros.
pub open spec fn zeros(count: nat) -> Seq<char> {
    Seq::new(count, |i: int| '0')
}

/// A number in decimal, with zeros in front up to a width.
pub open spec fn padded_decimal(n: nat, width: nat) -> Seq<char> {
    if decimal(n).len() < width {
        zeros((width - decimal(n).len()) as nat) + decimal(n)
    } else {
        decimal(n)
    }
}

/// Appends a number of up to 128 bits in decimal.
pub fn push_decimal_wide(text: &mut String, n: u128)
    ensures
        final(text)@ == old(text)@ + decimal(n as nat),
    decreases n,
{
    if n >= 10 {
        push_decimal_wide(text, n / 10);
    }
    let digit: u8 = (n % 10) as u8;
    text.push((48u8 + digit) as char);
    assert(final(text)@ =~= old(text)@ + decimal(n as nat));
}

/// Appends a number in decimal.
pub fn push_decimal(text: &mut String, n: usize)
    ensures
        final(text)@ == old(text)@ + decimal(n as nat),
{
    push_decimal_wide(text, n as u128);
}

/// The number of decimal digits of a number.
pub fn decimal_width(n: usize) -> (width: usize)
    ensures
        width == decimal(n as nat).len(),
        1 <= width <= 20,
{
    let mut width: usize = 1;
    let mut rest: usize = n;
    assert(rest as nat * power_of_ten(0) == rest) by (nonlinear_arith)
        requires
            power_of_ten(0) == 1,
    ;
    while rest >= 10
        invariant
            decimal(n as nat).len() == decimal(rest as nat).len() + width - 1,
            1 <= width,
            width <= 20,
            rest as nat * power_of_ten((width - 1) as nat) <= n,
        decreases rest,
    {
        proof {
            lemma_power_of_ten_step((width - 1) as nat);
            assert(rest as nat / 10 * power_of_ten(width as nat) <= rest as nat * power_of_ten(
                (width - 1) as nat,
            )) by (nonlinear_arith)
                requires
                    power_of_ten(width as nat) == 10 * power_of_ten((width - 1) as nat),
            ;
            if width == 20 {
                lemma_power_of_ten_twenty();
                assert(rest as nat / 10 * power_of_ten(20) >= power_of_ten(20)) by (nonlinear_arith)
                    requires
                        rest as nat / 10 >= 1,
                ;
            }
        }
        rest = rest / 10;
        width = width + 1;
    }
    width
}

/// Ten to the power `exp`.
pub open spec fn power_of_ten(exp: nat) -> nat
    decreases exp,
{
    if exp == 0 {
        1
    } else {
        10 * power_of_ten((exp - 1) as nat)
    }
}

proof fn lemma_power_of_ten_step(exp: nat)
    ensures
        power_of_ten(exp + 1) == 10 * power_of_ten(exp),
{
}

proof fn lemma_power_of_ten_twenty()
    ensures
        power_of_ten(20) == 100_000_000_000_000_000_000,
{
    reveal_with_fuel(power_of_ten, 21);
}

/// Appends a number in decimal, with zeros in front up to a width.
pub fn push_padded_decimal(text: &mut String, n: usize, width: usize)
    ensures
        final(text)@ == old(text)@ + padded_decimal(n as nat, width as nat),
{
    let digits = decimal_width(n);
    let ghost start = text@;
    let mut added: usize = 0;
    if digits < width {
        let missing = width - digits;
        while added < missing
            invariant
                added <= missing,
                text@ == start + zeros(added as nat),
            decreases missing - added,
        {
            text.push('0');
            added = added + 1;
            assert(text@ =~= start + zeros(added as nat));
        }
    } else {
        assert(text@ =~= start + zeros(0));
    }
    let ghost padded = text@;
    push_decimal(text, n);
    assert(text@ =~= start + padded_decimal(n as nat, width as nat));
}

/// A character with an ASCII capital turned into its small letter.
pub open spec fn ascii_lower_char(c: char) -> char {
    if 'A' <= c <= 'Z' {
        ((c as u8) + 32) as char
    } else {
        c
    }
}

/// Text with its ASCII capitals turned into small letters.
pub open spec fn ascii_lower(text: Seq<char>) -> Seq<char> {
    Seq::new(text.len(), |i: int| ascii_lower_char(text[i]))
}

/// Turns an ASCII capital into its small letter.
pub fn lower_char(c: char) -> (lower: char)
    ensures
        lower == ascii_lower_char(c),
{
    if 'A' <= c && c <= 'Z' {
        ((c as u8) + 32) as char
    } else {
        c
    }
}

/// Whether two texts are equal, character by character.
pub fn same_text(a: &str, b: &str) -> (same: bool)
    ensures
        same == (a@ == b@),
{
    let n = a.unicode_len();
    if b.unicode_len() != n {
        return false;
    }
    let mut i: usize = 0;
    while i < n
        invariant
            i <= n,
            n == a@.len(),
            n == b@.len(),
            forall|j: int| 0 <= j < i ==> a@[j] == b@[j],
        decreases n - i,
    {
        if a.get_char(i) != b.get_char(i) {
            return false;
        }
        i = i + 1;
    }
    assert(a@ =~= b@);
    true
}

/// Whether two texts are equal once ASCII capitals are made small.
pub fn same_text_ignoring_case(a: &str, b: &str) -> (same: bool)
    ensures
        same == (ascii_lower(a@) == ascii_lower(b@)),
{
    let n = a.unicode_len();
    if b.unicode_len() != n {
        assert(ascii_lower(a@).len() != ascii_lower(b@).len());
        return false;
    }
    let mut i: usize = 0;
    while i < n
        invariant
            i <= n,
            n == a@.len(),
            n == b@.len(),
            forall|j: int| 0 <= j < i ==> ascii_lower(a@)[j] == ascii_lower(b@)[j],
        decreases n - i,
    {
        if lower_char(a.get_char(i)) != lower_char(b.get_char(i)) {
            assert(ascii_lower(a@)[i as int] != ascii_lower(b@)[i as int]);
            return false;
        }
        i = i + 1;
    }
    assert(ascii_lower(a@) =~= ascii_lower(b@));
    true
}

/// Whether `a` comes before `b`, or is equal to it, from position `from`
/// on: the first character that differs decides, by its code, and where one
/// text ends first it comes first.
pub open spec fn ordered_from(a: Seq<char>, b: Seq<char>, from: int) -> bool
    decreases a.len() - from,
{
    if from >= a.len() {
        true
    } else if from >= b.len() {
        false
    } else if a[from] != b[from] {
        a[from] < b[from]
    } else {
        ordered_from(a, b, from + 1)
    }
}

/// Whether `a` comes before `b` in the order of names, or is equal to it.
pub open spec fn ordered(a: Seq<char>, b: Seq<char>) -> bool {
    ordered_from(a, b, 0)
}

/// Compares two names: whether the first comes before the second or is
/// equal to it.
pub fn name_le(a: &str, b: &str) -> (le: bool)
    ensures
        le == ordered(a@, b@),
{
    let n = a.unicode_len();
    let m = b.unicode_len();
    let mut i: usize = 0;
    while i < n
        invariant
            i <= n,
            n == a@.len(),
            m == b@.len(),
            ordered(a@, b@) == ordered_from(a@, b@, i as int),
        decreases n - i,
    {
        if i >= m {
            return false;
        }
        let x = a.get_char(i);
        let y = b.get_char(i);
        if x != y {
            return x < y;
        }
        i = i + 1;
    }
    true
}

/// The order of names is total.
pub proof fn lemma_ordered_total(a: Seq<char>, b: Seq<char>, from: int)
    requires
        0 <= from,
    ensures
        ordered_from(a, b, from) || ordered_from(b, a, from),
    decreases a.len() - from,
{
    if from < a.len() && from < b.len() {
        if a[from] == b[from] {
            lemma_ordered_total(a, b, from + 1);
        }
    }
}

/// The order of names is transitive.
pub proof fn lemma_ordered_transitive(a: Seq<char>, b: Seq<char>, c: Seq<char>, from: int)
    requires
        0 <= from,
        ordered_from(a, b, from),
        ordered_from(b, c, from),
    ensures
        ordered_from(a, c, from),
    decreases a.len() - from,
{
    if from < a.len() && from < b.len() && from < c.len() && a[from] == b[from] && b[from]
        == c[from] {
        lemma_ordered_transitive(a, b, c, from + 1);
    }
}

} // verus!
