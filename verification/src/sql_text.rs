//! Text building blocks shared by the SQL generators: decimal rendering and
//! SQL quoting.
use vstd::prelude::*;

verus! {

/// The ASCII digit for a value below ten.
pub open spec fn digit_char(d: nat) -> char {
    if d == 0 { '0' }
    else if d == 1 { '1' }
    else if d == 2 { '2' }
    else if d == 3 { '3' }
    else if d == 4 { '4' }
    else if d == 5 { '5' }
    else if d == 6 { '6' }
    else if d == 7 { '7' }
    else if d == 8 { '8' }
    else { '9' }
}

/// Decimal rendering of a natural number, without leading zeros.
pub open spec fn decimal(n: nat) -> Seq<char>
    decreases n,
{
    if n < 10 {
        seq![digit_char(n)]
    } else {
        decimal(n / 10).push(digit_char(n % 10))
    }
}

/// Whether a character is an ASCII digit.
pub open spec fn is_ascii_digit(c: char) -> bool {
    '0' <= c && c <= '9'
}

/// A decimal rendering is a non-empty run of ASCII digits: no sign,
/// separator, quote or line break.
pub proof fn lemma_decimal_digits_only(n: nat)
    ensures
        decimal(n).len() > 0,
        forall|i: int| 0 <= i < decimal(n).len() ==> is_ascii_digit(#[trigger] decimal(n)[i]),
    decreases n,
{
    if n >= 10 {
        lemma_decimal_digits_only(n / 10);
    }
}

/// Decimal rendering of an integer, with a leading `-` when it is negative.
pub open spec fn signed_decimal(i: int) -> Seq<char> {
    if i < 0 {
        seq!['-'] + decimal((-i) as nat)
    } else {
        decimal(i as nat)
    }
}

fn digit_str(d: u64) -> (s: &'static str)
    requires
        d < 10,
    ensures
        s@ == seq![digit_char(d as nat)],
{
    proof {
        reveal_strlit("0");
        reveal_strlit("1");
        reveal_strlit("2");
        reveal_strlit("3");
        reveal_strlit("4");
        reveal_strlit("5");
        reveal_strlit("6");
        reveal_strlit("7");
        reveal_strlit("8");
        reveal_strlit("9");
    }
    if d == 0 { "0" }
    else if d == 1 { "1" }
    else if d == 2 { "2" }
    else if d == 3 { "3" }
    else if d == 4 { "4" }
    else if d == 5 { "5" }
    else if d == 6 { "6" }
    else if d == 7 { "7" }
    else if d == 8 { "8" }
    else { "9" }
}

/// Appends the decimal rendering of `n`.
pub fn push_decimal(out: &mut String, n: u64)
    ensures
        final(out)@ == old(out)@ + decimal(n as nat),
    decreases n,
{
    if n >= 10 {
        push_decimal(out, n / 10);
    }
    out.append(digit_str(n % 10));
}

/// Appends the decimal rendering of a signed value.
pub fn push_signed_decimal(out: &mut String, i: i64)
    ensures
        final(out)@ == old(out)@ + signed_decimal(i as int),
{
    if i < 0 {
        proof { reveal_strlit("-"); }
        out.append("-");
        let magnitude: u64 = if i == i64::MIN {
            9223372036854775808u64
        } else {
            (-i) as u64
        };
        push_decimal(out, magnitude);
    } else {
        push_decimal(out, i as u64);
    }
}


/// `s` with every occurrence of the quote character `q` written twice.
pub open spec fn doubled(s: Seq<char>, q: char) -> Seq<char>
    decreases s.len(),
{
    if s.len() == 0 {
        Seq::empty()
    } else {
        (if s[0] == q { seq![q, q] } else { seq![s[0]] }) + doubled(s.drop_first(), q)
    }
}

/// `s` enclosed in the quote character `q`, embedded quotes doubled: the SQL
/// form of a delimited identifier (`"`) or string literal (`'`).
pub open spec fn quoted(s: Seq<char>, q: char) -> Seq<char> {
    seq![q] + doubled(s, q) + seq![q]
}

/// Reads back the body of a quoted token: each doubled quote stands for one.
pub open spec fn undoubled(t: Seq<char>, q: char) -> Seq<char>
    decreases t.len(),
{
    if t.len() == 0 {
        Seq::empty()
    } else if t.len() >= 2 && t[0] == q && t[1] == q {
        seq![q] + undoubled(t.skip(2), q)
    } else {
        seq![t[0]] + undoubled(t.drop_first(), q)
    }
}

pub proof fn lemma_doubled_concat(a: Seq<char>, b: Seq<char>, q: char)
    ensures
        doubled(a + b, q) == doubled(a, q) + doubled(b, q),
    decreases a.len(),
{
    if a.len() == 0 {
        assert(a + b =~= b);
    } else {
        assert((a + b).drop_first() =~= a.drop_first() + b);
        lemma_doubled_concat(a.drop_first(), b, q);
        assert((a + b)[0] == a[0]);
        let head = if a[0] == q { seq![q, q] } else { seq![a[0]] };
        assert(doubled(a + b, q) == head + doubled(a.drop_first() + b, q));
        assert(head + (doubled(a.drop_first(), q) + doubled(b, q)) =~= (head + doubled(
            a.drop_first(),
            q,
        )) + doubled(b, q));
    }
}

/// Reading back a quoted body gives the text back: quoting loses nothing.
pub proof fn lemma_undoubled_doubled(s: Seq<char>, q: char)
    ensures
        undoubled(doubled(s, q), q) == s,
    decreases s.len(),
{
    if s.len() > 0 {
        lemma_undoubled_doubled(s.drop_first(), q);
        let d = doubled(s, q);
        let rest = doubled(s.drop_first(), q);
        if s[0] == q {
            assert(d.skip(2) =~= rest);
            assert(seq![q] + s.drop_first() =~= s);
        } else {
            assert(d.drop_first() =~= rest);
            assert(seq![s[0]] + s.drop_first() =~= s);
        }
    } else {
        assert(s =~= Seq::<char>::empty());
    }
}

/// Appends `value` with every character equal to `quote` written twice.
fn push_doubled(out: &mut String, value: &str, quote: &str, q: char)
    requires
        quote@ == seq![q],
    ensures
        final(out)@ == old(out)@ + doubled(value@, q),
{
    let n = value.unicode_len();
    let mut i: usize = 0;
    assert(value@.subrange(0, 0) =~= Seq::<char>::empty());
    while i < n
        invariant
            n == value@.len(),
            i <= n,
            quote@ == seq![q],
            out@ == old(out)@ + doubled(value@.subrange(0, i as int), q),
        decreases n - i,
    {
        let c = value.get_char(i);
        let piece = value.substring_char(i, i + 1);
        proof {
            assert(piece@ =~= seq![c]);
            let part = seq![c];
            assert(value@.subrange(0, i + 1) =~= value@.subrange(0, i as int) + part);
            lemma_doubled_concat(value@.subrange(0, i as int), part, q);
            assert(part.drop_first() =~= Seq::<char>::empty());
            assert(doubled(Seq::<char>::empty(), q) =~= Seq::<char>::empty());
            if c == q {
                assert(doubled(part, q) =~= seq![q, q]);
            } else {
                assert(doubled(part, q) =~= seq![c]);
            }
        }
        let ghost before = out@;
        out.append(piece);
        if c == q {
            out.append(quote);
            assert(out@ =~= before + seq![q, q]);
        } else {
            assert(out@ =~= before + seq![c]);
        }
        i = i + 1;
        assert(out@ =~= old(out)@ + doubled(value@.subrange(0, i as int), q));
    }
    assert(value@.subrange(0, n as int) =~= value@);
}

/// Appends `value` as a delimited SQL identifier.
pub fn push_quoted_identifier(out: &mut String, value: &str)
    ensures
        final(out)@ == old(out)@ + quoted(value@, '"'),
{
    proof { reveal_strlit("\""); }
    assert("\""@ =~= seq!['"']);
    out.append("\"");
    push_doubled(out, value, "\"", '"');
    out.append("\"");
}

/// Appends `value` as a SQL string literal.
pub fn push_quoted_literal(out: &mut String, value: &str)
    ensures
        final(out)@ == old(out)@ + quoted(value@, '\''),
{
    proof { reveal_strlit("'"); }
    assert("'"@ =~= seq!['\'']);
    out.append("'");
    push_doubled(out, value, "'", '\'');
    out.append("'");
}

/// Renders `value` as a delimited SQL identifier.
pub fn quote_identifier(value: &str) -> (quoted_value: String)
    ensures
        quoted_value@ == quoted(value@, '"'),
{
    let mut out = String::new();
    push_quoted_identifier(&mut out, value);
    out
}

/// Renders `value` as a SQL string literal.
pub fn quote_literal(value: &str) -> (quoted_value: String)
    ensures
        quoted_value@ == quoted(value@, '\''),
{
    let mut out = String::new();
    push_quoted_literal(&mut out, value);
    out
}


/// SQL rendering of a boolean.
pub open spec fn bool_text(b: bool) -> Seq<char> {
    if b { "true"@ } else { "false"@ }
}

/// Appends `true` or `false`.
pub fn push_bool(out: &mut String, b: bool)
    ensures
        final(out)@ == old(out)@ + bool_text(b),
{
    if b {
        out.append("true");
    } else {
        out.append("false");
    }
}

/// The texts of `parts`, separated by `sep`.
pub open spec fn joined(parts: Seq<Seq<char>>, sep: Seq<char>) -> Seq<char>
    decreases parts.len(),
{
    if parts.len() == 0 {
        Seq::empty()
    } else if parts.len() == 1 {
        parts[0]
    } else {
        joined(parts.drop_last(), sep) + sep + parts.last()
    }
}

/// Joins the strings of `parts` with `sep` between neighbours.
pub fn join_strings(parts: &Vec<String>, sep: &str) -> (text: String)
    ensures
        text@ == joined(parts@.map_values(|p: String| p@), sep@),
{
    let ghost views = parts@.map_values(|p: String| p@);
    let mut out = String::new();
    let mut i: usize = 0;
    assert(views.take(0) =~= Seq::<Seq<char>>::empty());
    while i < parts.len()
        invariant
            i <= parts.len(),
            views == parts@.map_values(|p: String| p@),
            out@ == joined(views.take(i as int), sep@),
        decreases parts.len() - i,
    {
        assert(views.take(i + 1).drop_last() =~= views.take(i as int));
        if i != 0 {
            out.append(sep);
        } else {
            assert(out@ =~= Seq::<char>::empty());
        }
        out.append(parts[i].as_str());
        i = i + 1;
        assert(out@ =~= joined(views.take(i as int), sep@));
    }
    assert(views.take(parts.len() as int) =~= views);
    out
}

/// Whether `a` starts with the characters of `b`.
pub open spec fn has_prefix(a: Seq<char>, b: Seq<char>) -> bool {
    b.len() <= a.len() && a.subrange(0, b.len() as int) == b
}

/// Whether `a` starts with `b`.
pub fn starts_with_text(a: &str, b: &str) -> (r: bool)
    ensures
        r == has_prefix(a@, b@),
{
    let n = b.unicode_len();
    if n > a.unicode_len() {
        return false;
    }
    let mut i: usize = 0;
    while i < n
        invariant
            n == b@.len() <= a@.len(),
            i <= n,
            a@.subrange(0, i as int) == b@.subrange(0, i as int),
        decreases n - i,
    {
        if a.get_char(i) != b.get_char(i) {
            assert(a@.subrange(0, n as int)[i as int] != b@[i as int]);
            return false;
        }
        i = i + 1;
        assert(a@.subrange(0, i as int) =~= b@.subrange(0, i as int));
    }
    assert(b@.subrange(0, n as int) =~= b@);
    true
}

/// Whether two texts are equal.
pub fn text_eq(a: &str, b: &str) -> (r: bool)
    ensures
        r == (a@ == b@),
{
    if a.unicode_len() != b.unicode_len() {
        return false;
    }
    let r = starts_with_text(a, b);
    assert(a@ =~= a@.subrange(0, b@.len() as int));
    r
}

} // verus!
