use vstd::prelude::*;

verus! {

/// The character of a decimal digit.
pub open spec fn digit_char(d: int) -> char {
    if d == 0 { '0' }
    else if d == 1 { '1' }
    else if d == 2 { '2' }
    else if d == 3 { '3' }
    else if d == 4 { '4' }
    else if d == 5 { '5' }
    else if d == 6 { '6' }
    else if d == 7 { '7' }
    else if d == 8 { '8' }
    else { '9' }
}

/// The decimal notation of a natural number, without leading zeros.
pub open spec fn decimal(n: nat) -> Seq<char>
    decreases n,
{
    if n < 10 {
        seq![digit_char(n as int)]
    } else {
        decimal(n / 10).push(digit_char((n % 10) as int))
    }
}

/// `n` in decimal, padded on the left with '0' to at least two characters
/// (the `{:0>2}` format).
pub open spec fn padded2(n: nat) -> Seq<char> {
    if n < 10 {
        seq!['0'] + decimal(n)
    } else {
        decimal(n)
    }
}

/// A signed integer as `Display` writes it: a '-' before negative numbers only.
pub open spec fn signed_decimal(v: int) -> Seq<char> {
    if v < 0 {
        seq!['-'] + decimal((-v) as nat)
    } else {
        decimal(v as nat)
    }
}

/// A signed integer with its sign always written (the `{:+}` format).
pub open spec fn explicit_sign_decimal(v: int) -> Seq<char> {
    if v < 0 {
        seq!['-'] + decimal((-v) as nat)
    } else {
        seq!['+'] + decimal(v as nat)
    }
}

/// The value of a decimal digit character (0 for any other character).
pub open spec fn digit_value(c: char) -> int {
    if c == '1' { 1 }
    else if c == '2' { 2 }
    else if c == '3' { 3 }
    else if c == '4' { 4 }
    else if c == '5' { 5 }
    else if c == '6' { 6 }
    else if c == '7' { 7 }
    else if c == '8' { 8 }
    else if c == '9' { 9 }
    else { 0 }
}

/// Whether a character is one of '0' to '9'.
pub open spec fn is_digit(c: char) -> bool {
    '0' <= c && c <= '9'
}

/// The number that a string of decimal digits denotes.
pub open spec fn decimal_value(s: Seq<char>) -> int
    decreases s.len(),
{
    if s.len() == 0 {
        0
    } else {
        decimal_value(s.drop_last()) * 10 + digit_value(s.last())
    }
}

proof fn lemma_digit_round_trip(d: int)
    requires
        0 <= d < 10,
    ensures
        digit_value(digit_char(d)) == d,
        is_digit(digit_char(d)),
{
}

/// Decimal notation is faithful: it consists of digits only, it is never
/// empty, and reading it back gives the number that was written.
pub proof fn lemma_decimal_reads_back(n: nat)
    ensures
        decimal_value(decimal(n)) == n,
        decimal(n).len() >= 1,
        forall|i: int| 0 <= i < decimal(n).len() ==> is_digit(#[trigger] decimal(n)[i]),
    decreases n,
{
    if n < 10 {
        lemma_digit_round_trip(n as int);
        assert(decimal(n).drop_last() =~= Seq::<char>::empty());
        assert(decimal_value(Seq::<char>::empty()) == 0);
        assert(decimal(n).last() == digit_char(n as int));
    } else {
        lemma_decimal_reads_back(n / 10);
        lemma_digit_round_trip((n % 10) as int);
        assert(decimal(n).drop_last() =~= decimal(n / 10));
        assert(decimal(n).last() == digit_char((n % 10) as int));
        assert(n == (n / 10) * 10 + n % 10);
    }
}

/// Numbers below ten take one digit, numbers from ten to ninety-nine two.
pub proof fn lemma_decimal_length_small(n: nat)
    requires
        n < 100,
    ensures
        n < 10 ==> decimal(n).len() == 1,
        n >= 10 ==> decimal(n).len() == 2,
{
    if n >= 10 {
        assert(decimal(n / 10).len() == 1);
    }
}

/// Leading zeros do not change the value of a digit string.
pub proof fn lemma_leading_zero(s: Seq<char>)
    ensures
        decimal_value(seq!['0'] + s) == decimal_value(s),
    decreases s.len(),
{
    let t = seq!['0'] + s;
    if s.len() == 0 {
        assert(t.drop_last() =~= Seq::<char>::empty());
        assert(decimal_value(Seq::<char>::empty()) == 0);
        assert(t.last() == '0');
    } else {
        lemma_leading_zero(s.drop_last());
        assert(t.drop_last() =~= seq!['0'] + s.drop_last());
        assert(t.last() == s.last());
    }
}

/// The `{:0>2}` notation of a number below one hundred is exactly two digits
/// long and reads back as that number.
pub proof fn lemma_padded2_reads_back(n: nat)
    requires
        n < 100,
    ensures
        padded2(n).len() == 2,
        decimal_value(padded2(n)) == n,
        is_digit(padded2(n)[0]),
        is_digit(padded2(n)[1]),
{
    lemma_decimal_length_small(n);
    lemma_decimal_reads_back(n);
    if n < 10 {
        lemma_leading_zero(decimal(n));
    }
}

/// The `{:+}` notation starts with '+' exactly for numbers that are not
/// negative, and its digits read back as the number's magnitude.
pub proof fn lemma_explicit_sign_reads_back(v: int)
    ensures
        explicit_sign_decimal(v).len() >= 2,
        (explicit_sign_decimal(v)[0] == '+') == (v >= 0),
        (explicit_sign_decimal(v)[0] == '-') == (v < 0),
        decimal_value(explicit_sign_decimal(v).drop_first()) == (if v < 0 { -v } else { v }),
{
    let m: nat = if v < 0 { (-v) as nat } else { v as nat };
    lemma_decimal_reads_back(m);
    assert(explicit_sign_decimal(v).drop_first() =~= decimal(m));
}

/// Ten to the power `k`.
pub open spec fn pow10(k: nat) -> nat
    decreases k,
{
    if k == 0 { 1 } else { 10 * pow10((k - 1) as nat) }
}

/// A number below ten to the power `k` takes at most `k` digits.
pub proof fn lemma_decimal_len(n: nat, k: nat)
    requires
        k >= 1,
        n < pow10(k),
    ensures
        decimal(n).len() <= k,
    decreases n,
{
    if n >= 10 {
        if k == 1 {
            assert(pow10(1) == 10) by {
                assert(pow10(0) == 1);
            }
        } else {
            let p = pow10((k - 1) as nat);
            assert(n / 10 < p);
            lemma_decimal_len(n / 10, (k - 1) as nat);
        }
    }
}

/// Any `u32` or the magnitude of any `i32` takes at most ten digits.
pub proof fn lemma_decimal_u32_len(n: nat)
    requires
        n <= 0xffff_ffff,
    ensures
        decimal(n).len() <= 10,
{
    assert(pow10(10) == 10_000_000_000nat) by {
        reveal_with_fuel(pow10, 11);
    }
    lemma_decimal_len(n, 10);
}

/// A text without line feeds and carriage returns.
pub open spec fn single_line(text: Seq<char>) -> bool {
    forall|i: int| 0 <= i < text.len() ==> #[trigger] text[i] != '\n' && text[i] != '\r'
}

/// Joining two one-line texts gives a one-line text.
pub proof fn lemma_single_line_concat(a: Seq<char>, b: Seq<char>)
    requires
        single_line(a),
        single_line(b),
    ensures
        single_line(a + b),
{
    assert forall|i: int| 0 <= i < (a + b).len() implies #[trigger] (a + b)[i] != '\n' && (a + b)[i] != '\r' by {
        if i < a.len() {
            assert((a + b)[i] == a[i]);
        } else {
            assert((a + b)[i] == b[i - a.len()]);
        }
    }
}

/// Decimal notation is one line.
pub proof fn lemma_decimal_single_line(n: nat)
    ensures
        single_line(decimal(n)),
{
    lemma_decimal_reads_back(n);
    assert forall|i: int| 0 <= i < decimal(n).len() implies #[trigger] decimal(n)[i] != '\n' && decimal(n)[i] != '\r' by {
        assert(is_digit(decimal(n)[i]));
    }
}

/// The padded and the signed notations of 32-bit numbers are short and one
/// line.
pub proof fn lemma_number_texts_short(n: nat, v: int)
    requires
        n <= 0xffff_ffff,
        -0x8000_0000 <= v <= 0x7fff_ffff,
    ensures
        padded2(n).len() <= 11,
        single_line(padded2(n)),
        decimal(n).len() <= 10,
        single_line(decimal(n)),
        signed_decimal(v).len() <= 11,
        single_line(signed_decimal(v)),
        explicit_sign_decimal(v).len() <= 11,
        single_line(explicit_sign_decimal(v)),
{
    let m: nat = if v < 0 { (-v) as nat } else { v as nat };
    lemma_decimal_u32_len(n);
    lemma_decimal_u32_len(m);
    lemma_decimal_single_line(n);
    lemma_decimal_single_line(m);
    assert(single_line(seq!['0'])) by {
        assert forall|i: int| 0 <= i < seq!['0'].len() implies #[trigger] seq!['0'][i] != '\n' && seq!['0'][i] != '\r' by {}
    }
    assert(single_line(seq!['-'])) by {
        assert forall|i: int| 0 <= i < seq!['-'].len() implies #[trigger] seq!['-'][i] != '\n' && seq!['-'][i] != '\r' by {}
    }
    assert(single_line(seq!['+'])) by {
        assert forall|i: int| 0 <= i < seq!['+'].len() implies #[trigger] seq!['+'][i] != '\n' && seq!['+'][i] != '\r' by {}
    }
    lemma_single_line_concat(seq!['0'], decimal(n));
    lemma_single_line_concat(seq!['-'], decimal(m));
    lemma_single_line_concat(seq!['+'], decimal(m));
}

/// One digit as a string slice.
fn digit_str(d: u64) -> (s: &'static str)
    requires
        d < 10,
    ensures
        s@ == seq![digit_char(d as int)],
{
    if d == 0 {
        proof { reveal_strlit("0"); }
        "0"
    } else if d == 1 {
        proof { reveal_strlit("1"); }
        "1"
    } else if d == 2 {
        proof { reveal_strlit("2"); }
        "2"
    } else if d == 3 {
        proof { reveal_strlit("3"); }
        "3"
    } else if d == 4 {
        proof { reveal_strlit("4"); }
        "4"
    } else if d == 5 {
        proof { reveal_strlit("5"); }
        "5"
    } else if d == 6 {
        proof { reveal_strlit("6"); }
        "6"
    } else if d == 7 {
        proof { reveal_strlit("7"); }
        "7"
    } else if d == 8 {
        proof { reveal_strlit("8"); }
        "8"
    } else {
        proof { reveal_strlit("9"); }
        "9"
    }
}

/// Appends the decimal notation of `n` to `s`.
pub(crate) fn push_decimal(s: &mut String, n: u64)
    ensures
        final(s)@ == old(s)@ + decimal(n as nat),
    decreases n,
{
    if n >= 10 {
        push_decimal(s, n / 10);
    }
    s.append(digit_str(n % 10));
}

/// Appends `n` in the `{:0>2}` notation to `s`.
pub(crate) fn push_padded2(s: &mut String, n: u64)
    ensures
        final(s)@ == old(s)@ + padded2(n as nat),
{
    if n < 10 {
        proof { reveal_strlit("0"); }
        s.append("0");
    }
    push_decimal(s, n);
}

/// Appends `v` as `Display` writes a signed integer.
pub(crate) fn push_signed(s: &mut String, v: i32)
    ensures
        final(s)@ == old(s)@ + signed_decimal(v as int),
{
    if v < 0 {
        proof { reveal_strlit("-"); }
        s.append("-");
        let magnitude: u64 = (0i64 - v as i64) as u64;
        push_decimal(s, magnitude);
    } else {
        push_decimal(s, v as u64);
    }
}

/// Appends `v` with an explicit sign, as the `{:+}` format writes it.
pub(crate) fn push_explicit_sign(s: &mut String, v: i32)
    ensures
        final(s)@ == old(s)@ + explicit_sign_decimal(v as int),
{
    if v < 0 {
        proof { reveal_strlit("-"); }
        s.append("-");
        let magnitude: u64 = (0i64 - v as i64) as u64;
        push_decimal(s, magnitude);
    } else {
        proof { reveal_strlit("+"); }
        s.append("+");
        push_decimal(s, v as u64);
    }
}

} // verus!
