//! Decimal numbers as text, in both directions.
use vstd::prelude::*;
use vstd::string::*;

verus! {

/// The decimal digit of `d`, for `d` below ten.
pub open spec fn digit(d: nat) -> char {
    ('0' as u32 + d) as char
}

/// `n` in decimal, without leading zeros.
pub open spec fn decimal(n: nat) -> Seq<char>
    decreases n,
{
    if n < 10 {
        seq![digit(n)]
    } else {
        decimal(n / 10).push(digit(n % 10))
    }
}

/// Appends `n` in decimal to `out`.
pub(crate) fn push_decimal(out: &mut String, n: u64)
    ensures
        final(out)@ == old(out)@ + decimal(n as nat),
    decreases n,
{
    if n >= 10 {
        push_decimal(out, n / 10);
    }
    let d: u8 = (n % 10) as u8;
    out.push(('0' as u8 + d) as char);
    assert(out@ == old(out)@ + decimal(n as nat));
}

/// Whether `c` is one of the ten ASCII digits.
pub open spec fn is_digit(c: char) -> bool {
    '0' <= c <= '9'
}

/// Whether `s` consists of ASCII digits.
pub open spec fn all_digits(s: Seq<char>) -> bool {
    forall|i: int| 0 <= i < s.len() ==> is_digit(#[trigger] s[i])
}

/// The number that the digits `s` spell in base ten.
pub open spec fn digits_value(s: Seq<char>) -> nat
    decreases s.len(),
{
    if s.len() == 0 {
        0
    } else {
        (digits_value(s.drop_last()) * 10 + (s.last() as u32 - '0' as u32)) as nat
    }
}

/// `s` without one leading plus sign.
pub open spec fn without_plus(s: Seq<char>) -> Seq<char> {
    if s.len() > 0 && s[0] == '+' {
        s.drop_first()
    } else {
        s
    }
}

/// The number that `s` writes: an optional plus sign, then at least one digit, with a value that
/// fits in 64 bits.
pub open spec fn number_in(s: Seq<char>) -> Option<u64> {
    let digits = without_plus(s);
    if digits.len() > 0 && all_digits(digits) && digits_value(digits) <= u64::MAX {
        Some(digits_value(digits) as u64)
    } else {
        None
    }
}

/// Reads the number that `chars` writes.
pub(crate) fn read_number(chars: &Vec<char>) -> (number: Option<u64>)
    ensures
        number == number_in(chars@),
{
    let start: usize = if chars.len() > 0 && chars[0] == '+' {
        1
    } else {
        0
    };
    let ghost digits = without_plus(chars@);
    assert(digits == chars@.skip(start as int));
    if start == chars.len() {
        return None;
    }
    let mut value: u64 = 0;
    let mut fits: bool = true;
    let mut i: usize = start;
    while i < chars.len()
        invariant
            start <= i <= chars@.len(),
            digits == chars@.skip(start as int),
            digits == without_plus(chars@),
            all_digits(digits.take(i - start)),
            fits ==> value == digits_value(digits.take(i - start)),
            !fits ==> digits_value(digits.take(i - start)) > u64::MAX,
        decreases chars@.len() - i,
    {
        let c = chars[i];
        assert(digits[i - start] == c);
        if c < '0' || c > '9' {
            assert(!is_digit(digits[i - start]));
            return None;
        }
        let ghost before = digits.take(i - start);
        let ghost after = digits.take(i - start + 1);
        assert(after.drop_last() == before);
        let d: u64 = (c as u64) - ('0' as u64);
        if fits {
            fits = value <= u64::MAX / 10 && value * 10 <= u64::MAX - d;
            if fits {
                value = value * 10 + d;
            }
        }
        assert forall|j: int| 0 <= j < after.len() implies is_digit(#[trigger] after[j]) by {
            if j < before.len() {
                assert(after[j] == before[j]);
            }
        }
        i += 1;
    }
    assert(digits.take(i - start) == digits);
    if fits {
        Some(value)
    } else {
        None
    }
}

/// The text of a number consists of digits, has at least one, and spells the number.
pub proof fn lemma_decimal(n: nat)
    ensures
        decimal(n).len() > 0,
        all_digits(decimal(n)),
        digits_value(decimal(n)) == n,
    decreases n,
{
    if n >= 10 {
        lemma_decimal(n / 10);
        assert(decimal(n).drop_last() == decimal(n / 10));
    } else {
        assert(decimal(n).drop_last() == Seq::<char>::empty());
        assert(digits_value(Seq::<char>::empty()) == 0);
    }
}

/// Reading back the text of a 64-bit number gives the number.
pub proof fn decimal_reads_back(n: u64)
    ensures
        number_in(decimal(n as nat)) == Some(n),
{
    lemma_decimal(n as nat);
    assert(is_digit(decimal(n as nat)[0]));
}

/// The text of a number is its digits, the last one for what is left over by ten.
pub proof fn decimal_is_positional(n: nat)
    ensures
        n < 10 ==> decimal(n).len() == 1 && decimal(n)[0] as u32 == 48 + n,
        n >= 10 ==> decimal(n).len() > 1 && decimal(n).drop_last() == decimal(n / 10)
            && decimal(n).last() as u32 == 48 + n % 10,
{
    if n >= 10 {
        lemma_decimal(n / 10);
        assert(decimal(n).drop_last() == decimal(n / 10));
    }
}

/// A digit behind a number makes it ten times as large and adds its value.
proof fn lemma_push_digit(s: Seq<char>, c: char)
    requires
        s.len() > 0,
    ensures
        without_plus(s.push(c)) == without_plus(s).push(c),
        is_digit(c) ==> digits_value(without_plus(s).push(c)) == digits_value(without_plus(s)) * 10
            + (c as u32 - '0' as u32),
        all_digits(without_plus(s).push(c)) <==> all_digits(without_plus(s)) && is_digit(c),
{
    let digits = without_plus(s);
    let grown = digits.push(c);
    assert(grown.drop_last() == digits);
    assert(s[0] == '+' ==> s.push(c).drop_first() == s.drop_first().push(c));
    if all_digits(grown) {
        assert(is_digit(grown[digits.len() as int]));
        assert forall|i: int| 0 <= i < digits.len() implies is_digit(#[trigger] digits[i]) by {
            assert(grown[i] == digits[i]);
        }
    }
}

/// What text is a number, and which one: a digit is, a digit behind a number makes it ten times as
/// large and adds its value while that fits in 64 bits, any other character spoils it, and what has
/// been spoilt stays so.
pub proof fn numbers_grow_by_digits(s: Seq<char>, c: char)
    ensures
        number_in(Seq::empty()) is None,
        number_in(seq!['+']) is None,
        48 <= c as u32 <= 57 ==> number_in(seq![c]) == Some((c as u32 - 48) as u64),
        48 <= c as u32 <= 57 ==> (number_in(s) matches Some(n) ==> number_in(s.push(c)) == if 10 * n
            + (c as u32 - 48) <= u64::MAX {
            Some((10 * n + (c as u32 - 48)) as u64)
        } else {
            None
        }),
        !(48 <= c as u32 <= 57) ==> number_in(s.push(c)) is None,
        s.len() > 0 && s != seq!['+'] && number_in(s) is None ==> number_in(s.push(c)) is None,
{
    assert(without_plus(seq!['+']).len() == 0);
    if is_digit(c) {
        let one = seq![c];
        assert(one.drop_last() == Seq::<char>::empty());
        assert(digits_value(Seq::<char>::empty()) == 0);
        assert(without_plus(one) == one);
        assert(all_digits(one));
    }
    if s.len() > 0 {
        if s == seq!['+'] {
            assert(s.push(c).drop_first() == seq![c]);
            if !is_digit(c) {
                assert(!is_digit(seq![c][0]));
            }
        } else {
            lemma_push_digit(s, c);
            assert(!(s.len() == 1 && s[0] == '+')) by {
                if s.len() == 1 && s[0] == '+' {
                    assert(s =~= seq!['+']);
                }
            }
        }
    } else {
        let one = s.push(c);
        assert(one == seq![c]);
        if !is_digit(c) && c != '+' {
            assert(without_plus(one) == one);
            assert(!is_digit(one[0]));
        }
    }
}

/// One plus sign in front changes nothing, and a second one spoils the number.
pub proof fn one_plus_sign_is_allowed(s: Seq<char>)
    requires
        s.len() > 0,
    ensures
        s[0] != '+' ==> number_in(seq!['+'] + s) == number_in(s),
        s[0] == '+' ==> number_in(seq!['+'] + s) is None,
{
    assert((seq!['+'] + s).drop_first() == s);
    if s[0] == '+' {
        assert(!is_digit(s[0]));
    }
}

} // verus!
