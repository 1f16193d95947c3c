//! The canonical JSON text of token claims.
//!
//! Claims are written as
//! `{"sub":S,"exp":N,"iat":N,"token_type":K}` or, with a device,
//! `{"sub":S,"exp":N,"iat":N,"token_type":K,"device_id":S}`,
//! where strings are JSON strings that escape `"`, `\` and control
//! characters (`\u00XX`, lower-case hex) and numbers are plain decimals.
//! Reading accepts exactly what writing produces, so the text of any claims
//! reads back as those claims.
use vstd::prelude::*;

use crate::auth::{opt_view, Claims, ClaimsView, TokenType};
use crate::text::{
    str_eq,
    append_chars, chars_of, digit_char, digit_value, is_digit, parse_number, push_decimal,
    read_number, string_of, decimal, lemma_read_decimal,
};

verus! {

/// The character of a hex digit (lower case).
pub open spec fn hex_char(d: nat) -> char {
    if d < 10 {
        digit_char(d)
    } else {
        ((d + 87) as u8) as char
    }
}

/// Whether a character is a lower-case hex digit.
pub open spec fn is_hex(c: char) -> bool {
    is_digit(c) || ('a' <= c && c <= 'f')
}

/// The value of a lower-case hex digit.
pub open spec fn hex_value(c: char) -> nat {
    if is_digit(c) {
        digit_value(c)
    } else {
        (c as u32 - 87) as nat
    }
}

/// Whether a character must be written as `\u00XX`.
pub open spec fn is_control(c: char) -> bool {
    (c as u32) < 32
}

/// The control character written `\u00hl`.
pub open spec fn control_char(h: char, l: char) -> char {
    ((hex_value(h) * 16 + hex_value(l)) as u8) as char
}

/// How one character is written inside a JSON string.
pub open spec fn esc_char(c: char) -> Seq<char> {
    if c == '"' {
        seq!['\\', '"']
    } else if c == '\\' {
        seq!['\\', '\\']
    } else if is_control(c) {
        seq!['\\', 'u', '0', '0', hex_char((c as u32 / 16) as nat), hex_char((c as u32 % 16) as nat)]
    } else {
        seq![c]
    }
}

/// The escaped body of a JSON string.
pub open spec fn escape(s: Seq<char>) -> Seq<char>
    decreases s.len(),
{
    if s.len() == 0 {
        Seq::empty()
    } else {
        esc_char(s[0]) + escape(s.drop_first())
    }
}

/// A JSON string: the escaped body between quotes.
pub open spec fn quoted(s: Seq<char>) -> Seq<char> {
    seq!['"'] + escape(s) + seq!['"']
}

/// Read the body of a JSON string from index `i` up to and including the
/// closing quote, accumulating onto `acc`.
pub open spec fn scan_string(t: Seq<char>, i: int, acc: Seq<char>) -> Option<(Seq<char>, int)>
    decreases t.len() - i,
{
    if !(0 <= i < t.len()) {
        None
    } else if t[i] == '"' {
        Some((acc, i + 1))
    } else if t[i] == '\\' {
        if i + 1 < t.len() && (t[i + 1] == '"' || t[i + 1] == '\\') {
            scan_string(t, i + 2, acc.push(t[i + 1]))
        } else if t.len() > 5 && i < t.len() - 5 && t[i + 1] == 'u' && t[i + 2] == '0' && t[i + 3] == '0' && (
        t[i + 4] == '0' || t[i + 4] == '1') && is_hex(t[i + 5]) {
            scan_string(t, i + 6, acc.push(control_char(t[i + 4], t[i + 5])))
        } else {
            None
        }
    } else if is_control(t[i]) {
        None
    } else {
        scan_string(t, i + 1, acc.push(t[i]))
    }
}

/// A JSON string read at index `i`: its value and the index after it.
pub open spec fn read_string(t: Seq<char>, i: int) -> Option<(Seq<char>, int)> {
    if 0 <= i < t.len() && t[i] == '"' {
        scan_string(t, i + 1, Seq::empty())
    } else {
        None
    }
}

proof fn lemma_control_round_trip(c: char)
    requires
        is_control(c),
    ensures
        ({
            let h = hex_char((c as u32 / 16) as nat);
            let l = hex_char((c as u32 % 16) as nat);
            (h == '0' || h == '1') && is_hex(l) && control_char(h, l) == c
        }),
{
    let x = c as u32;
    assert(x / 16 < 2);
    assert(x % 16 < 16);
    let h = hex_char((x / 16) as nat);
    let l = hex_char((x % 16) as nat);
    assert(hex_value(h) == x / 16);
    assert(hex_value(l) == x % 16);
    assert(hex_value(h) * 16 + hex_value(l) == x);
}

proof fn lemma_escape_push(s: Seq<char>, c: char)
    ensures
        escape(s.push(c)) == escape(s) + esc_char(c),
    decreases s.len(),
{
    let sc = s.push(c);
    if s.len() == 0 {
        assert(sc.drop_first() == Seq::<char>::empty());
        assert(escape(sc) == esc_char(c) + escape(Seq::<char>::empty()));
        assert(esc_char(c) + Seq::<char>::empty() == esc_char(c));
    } else {
        assert(sc[0] == s[0]);
        assert(sc.drop_first() == s.drop_first().push(c));
        lemma_escape_push(s.drop_first(), c);
        assert(escape(sc) == esc_char(s[0]) + escape(s.drop_first().push(c)));
        assert(esc_char(s[0]) + (escape(s.drop_first()) + esc_char(c)) == (esc_char(s[0])
            + escape(s.drop_first())) + esc_char(c));
    }
}

proof fn lemma_scan_escaped(t: Seq<char>, i: int, acc: Seq<char>, s: Seq<char>)
    requires
        0 <= i,
        i + escape(s).len() < t.len(),
        t.subrange(i, i + escape(s).len()) == escape(s),
        t[i + escape(s).len()] == '"',
    ensures
        scan_string(t, i, acc) == Some((acc + s, i + escape(s).len() + 1)),
    decreases s.len(),
{
    if s.len() == 0 {
        assert(acc + s == acc);
    } else {
        let c = s[0];
        let e = esc_char(c);
        let rest = s.drop_first();
        assert(escape(s) == e + escape(rest));
        assert forall|k: int| 0 <= k < e.len() implies t[i + k] == e[k] by {
            assert(t.subrange(i, i + escape(s).len())[k] == escape(s)[k]);
        }
        assert(t.subrange(i + e.len(), i + e.len() + escape(rest).len()) == escape(rest)) by {
            assert forall|k: int| 0 <= k < escape(rest).len() implies t.subrange(
                i + e.len(),
                i + e.len() + escape(rest).len(),
            )[k] == escape(rest)[k] by {
                assert(t.subrange(i, i + escape(s).len())[e.len() + k] == escape(s)[e.len() + k]);
            }
        }
        assert(t[i] == e[0]);
        if c == '"' || c == '\\' {
            assert(t[i + 1] == e[1]);
        } else if is_control(c) {
            lemma_control_round_trip(c);
            assert(t[i + 1] == e[1]);
            assert(t[i + 2] == e[2]);
            assert(t[i + 3] == e[3]);
            assert(t[i + 4] == e[4]);
            assert(t[i + 5] == e[5]);
        }
        assert(scan_string(t, i, acc) == scan_string(t, i + e.len(), acc.push(c)));
        lemma_scan_escaped(t, i + e.len(), acc.push(c), rest);
        assert(acc.push(c) + rest == acc + s);
    }
}

/// The quoted text of `s`, followed by anything, reads back as `s`.
pub proof fn lemma_read_quoted(t: Seq<char>, i: int, s: Seq<char>)
    requires
        0 <= i,
        i + quoted(s).len() <= t.len(),
        t.subrange(i, i + quoted(s).len()) == quoted(s),
    ensures
        read_string(t, i) == Some((s, i + quoted(s).len())),
{
    let q = quoted(s);
    assert(t[i] == q[0]);
    assert(t[i + 1 + escape(s).len()] == q[1 + escape(s).len() as int]);
    assert(t.subrange(i + 1, i + 1 + escape(s).len()) == escape(s)) by {
        assert forall|k: int| 0 <= k < escape(s).len() implies t.subrange(
            i + 1,
            i + 1 + escape(s).len(),
        )[k] == escape(s)[k] by {
            assert(t.subrange(i, i + q.len())[1 + k] == q[1 + k]);
        }
    }
    lemma_scan_escaped(t, i + 1, Seq::empty(), s);
    assert(Seq::<char>::empty() + s == s);
}

/// Append the escaped body of `s`.
pub fn push_escaped(out: &mut Vec<char>, s: &str)
    ensures
        final(out)@ == old(out)@ + escape(s@),
{
    let v = chars_of(s);
    let ghost start = out@;
    for i in 0..v.len()
        invariant
            out@ == start + escape(v@.take(i as int)),
    {
        let c = v[i];
        proof {
            assert(v@.take(i + 1) == v@.take(i as int).push(c));
            lemma_escape_push(v@.take(i as int), c);
        }
        if c == '"' {
            out.push('\\');
            out.push('"');
        } else if c == '\\' {
            out.push('\\');
            out.push('\\');
        } else if (c as u32) < 32 {
            let x = c as u32;
            let lo = (x % 16) as u8;
            out.push('\\');
            out.push('u');
            out.push('0');
            out.push('0');
            out.push(((x / 16) as u8 + 48) as char);
            if lo < 10 {
                out.push((lo + 48) as char);
            } else {
                out.push((lo + 87) as char);
            }
        } else {
            out.push(c);
        }
        assert(out@ == start + escape(v@.take(i as int)) + esc_char(c));
    }
    assert(v@.take(v.len() as int) == v@);
}

/// Append the quoted text of `s`.
pub fn push_quoted(out: &mut Vec<char>, s: &str)
    ensures
        final(out)@ == old(out)@ + quoted(s@),
{
    out.push('"');
    push_escaped(out, s);
    out.push('"');
    assert(old(out)@ + quoted(s@) == old(out)@.push('"') + escape(s@) + seq!['"']);
}

/// Read a JSON string at `pos`.
pub fn parse_string(t: &Vec<char>, pos: usize) -> (r: Option<(String, usize)>)
    ensures
        match r {
            Some((s, end)) => read_string(t@, pos as int) == Some((s@, end as int)),
            None => read_string(t@, pos as int) is None,
        },
{
    if pos >= t.len() || t[pos] != '"' {
        return None;
    }
    let mut acc: Vec<char> = Vec::new();
    let mut i = pos + 1;
    while i < t.len()
        invariant
            pos < i,
            scan_string(t@, i as int, acc@) == read_string(t@, pos as int),
        decreases t.len() - i,
    {
        let c = t[i];
        if c == '"' {
            return Some((string_of(&acc), i + 1));
        } else if c == '\\' {
            if i + 1 < t.len() && (t[i + 1] == '"' || t[i + 1] == '\\') {
                acc.push(t[i + 1]);
                i = i + 2;
            } else if t.len() > 5 && i < t.len() - 5 && t[i + 1] == 'u' && t[i + 2] == '0' && t[i + 3] == '0' && (
            t[i + 4] == '0' || t[i + 4] == '1') && (('0' <= t[i + 5] && t[i + 5] <= '9') || ('a'
                <= t[i + 5] && t[i + 5] <= 'f')) {
                let h = t[i + 4] as u32 - 48;
                let l5 = t[i + 5];
                let l = if '0' <= l5 && l5 <= '9' {
                    l5 as u32 - 48
                } else {
                    l5 as u32 - 87
                };
                let code = (h * 16 + l) as u8;
                acc.push(code as char);
                i = i + 6;
            } else {
                return None;
            }
        } else if (c as u32) < 32 {
            return None;
        } else {
            acc.push(c);
            i = i + 1;
        }
    }
    None
}

/// The opening of the claims text, up to the subject.
pub open spec fn lit_sub() -> Seq<char> {
    "{\"sub\":"@
}

/// The key of the expiration time.
pub open spec fn lit_exp() -> Seq<char> {
    ",\"exp\":"@
}

/// The key of the issue time.
pub open spec fn lit_iat() -> Seq<char> {
    ",\"iat\":"@
}

/// The key of the token kind.
pub open spec fn lit_kind() -> Seq<char> {
    ",\"token_type\":"@
}

/// The key of the device id.
pub open spec fn lit_device() -> Seq<char> {
    ",\"device_id\":"@
}

/// The closing of the claims text.
pub open spec fn lit_end() -> Seq<char> {
    "}"@
}

/// The word naming a token kind.
pub open spec fn kind_word(k: TokenType) -> Seq<char> {
    match k {
        TokenType::Access => "access"@,
        TokenType::Refresh => "refresh"@,
    }
}

/// The token kind that a word names, if any.
pub open spec fn kind_of_word(w: Seq<char>) -> Option<TokenType> {
    if w == "access"@ {
        Some(TokenType::Access)
    } else if w == "refresh"@ {
        Some(TokenType::Refresh)
    } else {
        None
    }
}

/// The text of the optional device id.
pub open spec fn device_text(d: Option<Seq<char>>) -> Seq<char> {
    match d {
        Some(s) => lit_device() + quoted(s),
        None => Seq::empty(),
    }
}

/// The claims text from the token kind on.
pub open spec fn kind_text(c: ClaimsView) -> Seq<char> {
    quoted(kind_word(c.token_type)) + (device_text(c.device_id) + lit_end())
}

/// The claims text from the expiration time on.
pub open spec fn times_text(c: ClaimsView) -> Seq<char> {
    decimal(c.exp as nat) + (lit_iat() + (decimal(c.iat as nat) + (lit_kind() + kind_text(c))))
}

/// The canonical JSON text of claims.
pub open spec fn claims_text(c: ClaimsView) -> Seq<char> {
    lit_sub() + (quoted(c.sub) + (lit_exp() + times_text(c)))
}

/// A literal read at index `i`: the index after it.
pub open spec fn read_lit(t: Seq<char>, i: int, lit: Seq<char>) -> Option<int> {
    if 0 <= i && i + lit.len() <= t.len() && t.subrange(i, i + lit.len()) == lit {
        Some(i + lit.len())
    } else {
        None
    }
}

/// The end of the claims text read at `i`: the optional device id.
pub open spec fn read_tail(t: Seq<char>, i: int) -> Option<Option<Seq<char>>> {
    if read_lit(t, i, lit_end()) == Some(t.len() as int) {
        Some(None)
    } else {
        match read_lit(t, i, lit_device()) {
            None => None,
            Some(j) => match read_string(t, j) {
                None => None,
                Some((d, k)) => if read_lit(t, k, lit_end()) == Some(t.len() as int) {
                    Some(Some(d))
                } else {
                    None
                },
            },
        }
    }
}

/// The claims text read from the token kind on, at `i`.
pub open spec fn read_kind(t: Seq<char>, i: int, sub: Seq<char>, exp: u64, iat: u64) -> Option<
    ClaimsView,
> {
    match read_string(t, i) {
        None => None,
        Some((w, j)) => match kind_of_word(w) {
            None => None,
            Some(token_type) => match read_tail(t, j) {
                None => None,
                Some(device_id) => Some(ClaimsView { sub, exp, iat, token_type, device_id }),
            },
        },
    }
}

/// The claims text read from the expiration time on, at `i`.
pub open spec fn read_times(t: Seq<char>, i: int, sub: Seq<char>) -> Option<ClaimsView> {
    match read_number(t, i) {
        None => None,
        Some((exp, j)) => match read_lit(t, j, lit_iat()) {
            None => None,
            Some(k) => match read_number(t, k) {
                None => None,
                Some((iat, l)) => match read_lit(t, l, lit_kind()) {
                    None => None,
                    Some(m) => read_kind(t, m, sub, exp, iat),
                },
            },
        },
    }
}

/// The claims text read from the subject on, at `i`.
pub open spec fn read_subject(t: Seq<char>, i: int) -> Option<ClaimsView> {
    match read_string(t, i) {
        None => None,
        Some((sub, j)) => match read_lit(t, j, lit_exp()) {
            None => None,
            Some(k) => read_times(t, k, sub),
        },
    }
}

/// The claims that a text holds, if it is a claims text.
pub open spec fn read_claims(t: Seq<char>) -> Option<ClaimsView> {
    match read_lit(t, 0, lit_sub()) {
        None => None,
        Some(i) => read_subject(t, i),
    }
}

proof fn lemma_front(t: Seq<char>, o: int, p: Seq<char>, r: Seq<char>)
    requires
        0 <= o <= t.len(),
        t.subrange(o, t.len() as int) == p + r,
    ensures
        o + p.len() <= t.len(),
        t.subrange(o, o + p.len()) == p,
        t.subrange(o + p.len(), t.len() as int) == r,
{
    let w = t.subrange(o, t.len() as int);
    assert(w.len() == p.len() + r.len());
    assert forall|k: int| 0 <= k < p.len() implies t.subrange(o, o + p.len())[k] == p[k] by {
        assert(w[k] == (p + r)[k]);
    }
    assert forall|k: int| 0 <= k < r.len() implies t.subrange(o + p.len(), t.len() as int)[k]
        == r[k] by {
        assert(w[p.len() + k] == (p + r)[p.len() + k]);
        assert((p + r)[p.len() + k] == r[k]);
    }
    assert(t.subrange(o, o + p.len()) =~= p);
    assert(t.subrange(o + p.len(), t.len() as int) =~= r);
}

proof fn lemma_read_tail(t: Seq<char>, o: int, d: Option<Seq<char>>)
    requires
        0 <= o <= t.len(),
        t.subrange(o, t.len() as int) == device_text(d) + lit_end(),
    ensures
        read_tail(t, o) == Some(d),
{
    reveal_strlit(",\"device_id\":");
    reveal_strlit("}");
    match d {
        None => {
            assert(device_text(d) + lit_end() == lit_end());
            assert(read_lit(t, o, lit_end()) == Some(t.len() as int));
        },
        Some(x) => {
            assert(device_text(d) + lit_end() == lit_device() + (quoted(x) + lit_end()));
            lemma_front(t, o, lit_device(), quoted(x) + lit_end());
            let o1 = o + lit_device().len();
            lemma_front(t, o1, quoted(x), lit_end());
            lemma_read_quoted(t, o1, x);
            assert(t.subrange(o, o1)[0] == lit_device()[0]);
            assert(t[o] == ',');
            assert(read_lit(t, o, lit_end()) != Some(t.len() as int));
            assert(read_lit(t, o, lit_device()) == Some(o1));
            assert(read_lit(t, o1 + quoted(x).len(), lit_end()) == Some(t.len() as int));
        },
    }
}

proof fn lemma_read_kind(t: Seq<char>, o: int, c: ClaimsView)
    requires
        0 <= o <= t.len(),
        t.subrange(o, t.len() as int) == kind_text(c),
    ensures
        read_kind(t, o, c.sub, c.exp, c.iat) == Some(c),
{
    reveal_strlit("access");
    reveal_strlit("refresh");
    let q = quoted(kind_word(c.token_type));
    lemma_front(t, o, q, device_text(c.device_id) + lit_end());
    lemma_read_quoted(t, o, kind_word(c.token_type));
    assert(kind_of_word(kind_word(c.token_type)) == Some(c.token_type));
    lemma_read_tail(t, o + q.len(), c.device_id);
}

proof fn lemma_read_times(t: Seq<char>, o: int, c: ClaimsView)
    requires
        0 <= o <= t.len(),
        t.subrange(o, t.len() as int) == times_text(c),
    ensures
        read_times(t, o, c.sub) == Some(c),
{
    reveal_strlit(",\"iat\":");
    reveal_strlit(",\"token_type\":");
    let de = decimal(c.exp as nat);
    let di = decimal(c.iat as nat);
    lemma_front(t, o, de, lit_iat() + (di + (lit_kind() + kind_text(c))));
    let o1 = o + de.len();
    lemma_front(t, o1, lit_iat(), di + (lit_kind() + kind_text(c)));
    let o2 = o1 + lit_iat().len();
    lemma_front(t, o2, di, lit_kind() + kind_text(c));
    let o3 = o2 + di.len();
    lemma_front(t, o3, lit_kind(), kind_text(c));
    let o4 = o3 + lit_kind().len();
    assert(t.subrange(o1, o2)[0] == lit_iat()[0]);
    lemma_read_decimal(t, o, c.exp);
    assert(t.subrange(o3, o4)[0] == lit_kind()[0]);
    lemma_read_decimal(t, o2, c.iat);
    lemma_read_kind(t, o4, c);
}

/// Claims written as text read back as the same claims.
pub proof fn lemma_claims_round_trip(c: ClaimsView)
    ensures
        read_claims(claims_text(c)) == Some(c),
{
    let t = claims_text(c);
    assert(t.subrange(0, t.len() as int) == t);
    lemma_front(t, 0, lit_sub(), quoted(c.sub) + (lit_exp() + times_text(c)));
    let o1 = lit_sub().len() as int;
    lemma_front(t, o1, quoted(c.sub), lit_exp() + times_text(c));
    let o2 = o1 + quoted(c.sub).len();
    lemma_front(t, o2, lit_exp(), times_text(c));
    lemma_read_quoted(t, o1, c.sub);
    lemma_read_times(t, o2 + lit_exp().len(), c);
}

/// Read a literal at `pos`.
pub fn expect_lit(t: &Vec<char>, pos: usize, lit: &str) -> (r: Option<usize>)
    ensures
        match r {
            Some(e) => read_lit(t@, pos as int, lit@) == Some(e as int),
            None => read_lit(t@, pos as int, lit@) is None,
        },
{
    let l = chars_of(lit);
    if l.len() > t.len() || pos > t.len() - l.len() {
        return None;
    }
    for k in 0..l.len()
        invariant
            pos + l.len() <= t.len(),
            l@ == lit@,
            forall|j: int| 0 <= j < k ==> t@[pos + j] == l@[j],
    {
        if t[pos + k] != l[k] {
            assert(t@.subrange(pos as int, pos + l.len())[k as int] != lit@[k as int]);
            return None;
        }
    }
    assert(t@.subrange(pos as int, pos + l.len()) =~= lit@);
    Some(pos + l.len())
}

fn push_kind_text(v: &mut Vec<char>, c: &Claims)
    ensures
        final(v)@ == old(v)@ + kind_text(c@),
{
    let ghost start = v@;
    match c.token_type {
        TokenType::Access => push_quoted(v, "access"),
        TokenType::Refresh => push_quoted(v, "refresh"),
    }
    let ghost after_kind = v@;
    match &c.device_id {
        Some(d) => {
            append_chars(v, ",\"device_id\":");
            push_quoted(v, d.as_str());
        },
        None => {},
    }
    assert(v@ =~= after_kind + device_text(c@.device_id));
    append_chars(v, "}");
    assert(v@ =~= start + kind_text(c@));
}

fn push_times_text(v: &mut Vec<char>, c: &Claims)
    ensures
        final(v)@ == old(v)@ + times_text(c@),
{
    let ghost start = v@;
    push_decimal(v, c.exp);
    append_chars(v, ",\"iat\":");
    push_decimal(v, c.iat);
    append_chars(v, ",\"token_type\":");
    push_kind_text(v, c);
    assert(v@ =~= start + times_text(c@));
}

/// Write claims as their canonical JSON text.
pub fn claims_to_text(c: &Claims) -> (s: String)
    ensures
        s@ == claims_text(c@),
{
    let mut v: Vec<char> = Vec::new();
    append_chars(&mut v, "{\"sub\":");
    push_quoted(&mut v, c.sub.as_str());
    append_chars(&mut v, ",\"exp\":");
    push_times_text(&mut v, c);
    assert(v@ =~= claims_text(c@));
    string_of(&v)
}

/// Read the optional device id and the closing brace at `pos`.
fn parse_tail(t: &Vec<char>, pos: usize) -> (r: Option<Option<String>>)
    ensures
        match r {
            Some(d) => read_tail(t@, pos as int) == Some(opt_view(d)),
            None => read_tail(t@, pos as int) is None,
        },
{
    match expect_lit(t, pos, "}") {
        Some(e) => {
            if e == t.len() {
                return Some(None);
            }
        },
        None => {},
    }
    let j = expect_lit(t, pos, ",\"device_id\":")?;
    let (d, k) = parse_string(t, j)?;
    match expect_lit(t, k, "}") {
        Some(e) => {
            if e == t.len() {
                Some(Some(d))
            } else {
                None
            }
        },
        None => None,
    }
}

/// Read claims from their canonical JSON text; `None` for any other text.
pub fn parse_claims(s: &str) -> (r: Option<Claims>)
    ensures
        match r {
            Some(c) => read_claims(s@) == Some(c@),
            None => read_claims(s@) is None,
        },
{
    let t = chars_of(s);
    let i1 = expect_lit(&t, 0, "{\"sub\":")?;
    let (sub, i2) = parse_string(&t, i1)?;
    let i3 = expect_lit(&t, i2, ",\"exp\":")?;
    let (exp, i4) = parse_number(&t, i3)?;
    let i5 = expect_lit(&t, i4, ",\"iat\":")?;
    let (iat, i6) = parse_number(&t, i5)?;
    let i7 = expect_lit(&t, i6, ",\"token_type\":")?;
    let (word, i8) = parse_string(&t, i7)?;
    let token_type = if str_eq(word.as_str(), "access") {
        TokenType::Access
    } else if str_eq(word.as_str(), "refresh") {
        TokenType::Refresh
    } else {
        return None;
    };
    let device_id = parse_tail(&t, i8)?;
    Some(Claims { sub, exp, iat, token_type, device_id })
}

} // verus!
