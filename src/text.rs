//! Text helpers: character sequences, decimal numerals, string building.
use vstd::prelude::*;

verus! {

/// Copy the characters of a string slice into a vector.
pub fn chars_of(s: &str) -> (v: Vec<char>)
    ensures
        v@ == s@,
{
    let mut v: Vec<char> = Vec::new();
    for c in it: s.chars()
        invariant
            v@ == it.seq().take(it.index() as int),
            it.seq() == s@,
    {
        v.push(c);
    }
    v
}

/// Relies on `String::push`: appends one character.
#[verifier::external_body]
pub(crate) fn push_char(s: &mut String, c: char)
    ensures
        final(s)@ == old(s)@.push(c),
{
    s.push(c)
}

/// Whether two string slices hold the same characters.
pub fn str_eq(a: &str, b: &str) -> (r: bool)
    ensures
        r == (a@ == b@),
{
    let x = chars_of(a);
    let y = chars_of(b);
    if x.len() != y.len() {
        return false;
    }
    for i in 0..x.len()
        invariant
            x@ == a@,
            y@ == b@,
            x.len() == y.len(),
            forall|j: int| 0 <= j < i ==> x@[j] == y@[j],
    {
        if x[i] != y[i] {
            assert(a@[i as int] != b@[i as int]);
            return false;
        }
    }
    assert(x@ =~= y@);
    true
}

/// A string holding the given characters.
pub fn string_of(v: &Vec<char>) -> (s: String)
    ensures
        s@ == v@,
{
    let mut s = String::new();
    for i in 0..v.len()
        invariant
            s@ == v@.take(i as int),
    {
        push_char(&mut s, v[i]);
        assert(v@.take(i + 1) == v@.take(i as int).push(v@[i as int]));
    }
    assert(v@.take(v.len() as int) == v@);
    s
}

/// Append the characters of `src` to `dst`.
pub fn append_chars(dst: &mut Vec<char>, src: &str)
    ensures
        final(dst)@ == old(dst)@ + src@,
{
    let v = chars_of(src);
    let ghost start = dst@;
    for i in 0..v.len()
        invariant
            dst@ == start + v@.take(i as int),
    {
        dst.push(v[i]);
        assert(v@.take(i + 1) == v@.take(i as int).push(v@[i as int]));
    }
    assert(v@.take(v.len() as int) == v@);
}

/// The character of a decimal digit.
pub open spec fn digit_char(d: nat) -> char
    recommends
        d < 10,
{
    ((d + 48) as u8) as char
}

/// Whether a character is an ASCII decimal digit.
pub open spec fn is_digit(c: char) -> bool {
    '0' <= c && c <= '9'
}

/// The value of a decimal digit character.
pub open spec fn digit_value(c: char) -> nat {
    (c as u32 - 48) as nat
}

/// The decimal numeral of `n`: no sign, no leading zeros.
pub open spec fn decimal(n: nat) -> Seq<char>
    decreases n,
{
    if n < 10 {
        seq![digit_char(n)]
    } else {
        decimal(n / 10).push(digit_char(n % 10))
    }
}

/// Append the decimal numeral of `n`.
pub fn push_decimal(v: &mut Vec<char>, n: u64)
    ensures
        final(v)@ == old(v)@ + decimal(n as nat),
    decreases n,
{
    if n >= 10 {
        push_decimal(v, n / 10);
    }
    let d = (n % 10) as u8;
    v.push((d + 48) as char);
    assert(decimal(n as nat) == if n < 10 {
        seq![digit_char(n as nat)]
    } else {
        decimal((n / 10) as nat).push(digit_char((n % 10) as nat))
    });
}

/// The value of a digit sequence read from the left, starting from `acc`.
pub open spec fn digits_value(acc: nat, d: Seq<char>) -> nat
    decreases d.len(),
{
    if d.len() == 0 {
        acc
    } else {
        digits_value(acc * 10 + digit_value(d[0]), d.drop_first())
    }
}

proof fn lemma_digits_value_push(acc: nat, d: Seq<char>, c: char)
    ensures
        digits_value(acc, d.push(c)) == digits_value(acc, d) * 10 + digit_value(c),
    decreases d.len(),
{
    let dc = d.push(c);
    if d.len() == 0 {
        assert(dc.drop_first() == Seq::<char>::empty());
        assert(digits_value(acc, dc) == digits_value(acc * 10 + digit_value(c), dc.drop_first()));
        assert(digits_value(acc * 10 + digit_value(c), Seq::<char>::empty()) == acc * 10
            + digit_value(c));
    } else {
        assert(dc[0] == d[0]);
        assert(dc.drop_first() == d.drop_first().push(c));
        lemma_digits_value_push(acc * 10 + digit_value(d[0]), d.drop_first(), c);
    }
}

proof fn lemma_digit_char(d: nat)
    requires
        d < 10,
    ensures
        is_digit(digit_char(d)),
        digit_value(digit_char(d)) == d,
{
}

/// The numeral of `n` is all digits and reads back as `n`.
pub proof fn lemma_decimal_value(n: nat)
    ensures
        digits_value(0, decimal(n)) == n,
        forall|i: int| 0 <= i < decimal(n).len() ==> is_digit(#[trigger] decimal(n)[i]),
        decimal(n).len() >= 1,
    decreases n,
{
    if n < 10 {
        lemma_digit_char(n);
        let s = seq![digit_char(n)];
        assert(s.drop_first() == Seq::<char>::empty());
        assert(digits_value(0, s) == digits_value(0 * 10 + digit_value(s[0]), s.drop_first()));
    } else {
        lemma_decimal_value(n / 10);
        lemma_digit_char(n % 10);
        lemma_digits_value_push(0, decimal(n / 10), digit_char(n % 10));
        assert((n / 10) * 10 + n % 10 == n) by (nonlinear_arith);
        assert forall|i: int| 0 <= i < decimal(n).len() implies is_digit(#[trigger] decimal(n)[i]) by {
            if i < decimal(n / 10).len() {
                assert(decimal(n)[i] == decimal(n / 10)[i]);
            }
        }
    }
}

/// Read the digits of `t` from `i`, accumulating onto `acc`; the value and the
/// index of the first non-digit.
pub open spec fn scan_digits(t: Seq<char>, i: int, acc: nat) -> (nat, int)
    decreases t.len() - i,
{
    if 0 <= i < t.len() && is_digit(t[i]) {
        scan_digits(t, i + 1, acc * 10 + digit_value(t[i]))
    } else {
        (acc, i)
    }
}

/// A number read at `i`: at least one digit, and a value that fits in 64 bits.
pub open spec fn read_number(t: Seq<char>, i: int) -> Option<(u64, int)> {
    let (v, end) = scan_digits(t, i, 0);
    if end > i && v <= u64::MAX {
        Some((v as u64, end))
    } else {
        None
    }
}

proof fn lemma_scan_digits_grows(t: Seq<char>, i: int, acc: nat)
    ensures
        scan_digits(t, i, acc).0 >= acc,
        scan_digits(t, i, acc).1 >= i,
    decreases t.len() - i,
{
    if 0 <= i < t.len() && is_digit(t[i]) {
        lemma_scan_digits_grows(t, i + 1, acc * 10 + digit_value(t[i]));
    }
}

proof fn lemma_scan_over(t: Seq<char>, i: int, acc: nat, d: Seq<char>)
    requires
        0 <= i,
        i + d.len() <= t.len(),
        t.subrange(i, i + d.len()) == d,
        forall|k: int| 0 <= k < d.len() ==> is_digit(#[trigger] d[k]),
    ensures
        scan_digits(t, i, acc) == scan_digits(t, i + d.len(), digits_value(acc, d)),
    decreases d.len(),
{
    if d.len() > 0 {
        assert(t[i] == d[0]);
        let d1 = d.drop_first();
        assert(t.subrange(i + 1, i + 1 + d1.len()) == d1);
        lemma_scan_over(t, i + 1, acc * 10 + digit_value(d[0]), d1);
    }
}

/// The numeral of `n`, followed by a non-digit (or nothing), reads back as `n`.
pub proof fn lemma_read_decimal(t: Seq<char>, i: int, n: u64)
    requires
        0 <= i,
        i + decimal(n as nat).len() <= t.len(),
        t.subrange(i, i + decimal(n as nat).len()) == decimal(n as nat),
        i + decimal(n as nat).len() == t.len() || !is_digit(t[i + decimal(n as nat).len()]),
    ensures
        read_number(t, i) == Some((n, i + decimal(n as nat).len())),
{
    lemma_decimal_value(n as nat);
    lemma_scan_over(t, i, 0, decimal(n as nat));
}

/// Read a decimal number at position `pos` of `t`.
pub fn parse_number(t: &Vec<char>, pos: usize) -> (r: Option<(u64, usize)>)
    ensures
        match r {
            Some((n, end)) => read_number(t@, pos as int) == Some((n, end as int)),
            None => read_number(t@, pos as int) is None,
        },
{
    let mut i = pos;
    let mut acc: u64 = 0;
    let mut overflow = false;
    while i < t.len() && '0' <= t[i] && t[i] <= '9'
        invariant
            pos <= i,
            !overflow ==> scan_digits(t@, pos as int, 0) == scan_digits(t@, i as int, acc as nat),
            overflow ==> scan_digits(t@, pos as int, 0).0 > u64::MAX,
            overflow ==> scan_digits(t@, pos as int, 0).1 > pos,
            !overflow && i > pos ==> scan_digits(t@, pos as int, 0).1 > pos,
        decreases t.len() - i,
    {
        let d = (t[i] as u32 - 48) as u64;
        proof {
            lemma_scan_digits_grows(t@, i + 1, (acc * 10 + digit_value(t@[i as int])) as nat);
        }
        if !overflow {
            if acc > (u64::MAX - d) / 10 {
                overflow = true;
                assert(acc * 10 + d > u64::MAX) by (nonlinear_arith)
                    requires
                        acc > (u64::MAX - d) / 10,
                        d <= 9,
                ;
            } else {
                assert(acc * 10 + d <= u64::MAX) by (nonlinear_arith)
                    requires
                        acc <= (u64::MAX - d) / 10,
                        d <= 9,
                ;
                acc = acc * 10 + d;
            }
        }
        i = i + 1;
    }
    proof {
        lemma_scan_digits_grows(t@, i as int, acc as nat);
    }
    if overflow || i == pos {
        None
    } else {
        Some((acc, i))
    }
}

} // verus!
