//! Incremental, bounded PostgreSQL text COPY decoding.
//!
//! Rows arrive in chunks of arbitrary size; fields are tab-separated, rows
//! end at a line feed (an optional carriage return before it is dropped),
//! `\N` is NULL and `\.` alone on a line ends the data. Complete rows are
//! collected into bounded batches, whose fields are then decoded into typed
//! column values.
use vstd::prelude::*;
use vstd::string::StringSliceAdditionalSpecFns;
use vstd::utf8::{decode_utf8, valid_utf8};

use crate::copy_stream::{decode_ends_data, decode_spec, lemma_push_progress, Batches};
use crate::execution_control::copy_bytes;
use crate::mvt::{digits_value, is_digit, is_i64_text, sign_len};

verus! {

pub const MAX_BATCHES_PER_COPY_CHUNK: usize = 128;

#[derive(Clone, Copy, Debug)]
pub struct CopyBatchLimits {
    pub max_rows: usize,
    pub max_bytes: usize,
    pub max_row_bytes: usize,
}

#[derive(Debug)]
pub struct CopyDecodeError {
    pub sqlstate: &'static str,
    pub message: String,
}

/// An error with a fixed message.
pub open spec fn is_error(e: CopyDecodeError, sqlstate: &'static str, message: &'static str) -> bool {
    e.sqlstate@ == sqlstate@ && e.message@ == message@
}

/// A result that is an error with a fixed message.
pub open spec fn fails_with<T>(r: Result<T, CopyDecodeError>, sqlstate: &'static str, message: &'static str) -> bool {
    match r {
        Ok(_) => false,
        Err(e) => is_error(e, sqlstate, message),
    }
}

fn copy_error(sqlstate: &'static str, message: &str) -> (e: CopyDecodeError)
    ensures
        e.sqlstate == sqlstate,
        e.message@ == message@,
{
    CopyDecodeError { sqlstate, message: message.to_owned() }
}

// ─── Text of a field ───────────────────────────────────────────────────────

/// `std::str::from_utf8`: the bytes as text exactly when they are valid
/// UTF-8, the text then holding exactly those bytes.
#[verifier::external_body]
fn utf8_text(bytes: &[u8]) -> (text: Option<&str>)
    ensures
        text is Some <==> valid_utf8(bytes@),
        text matches Some(t) ==> t.spec_bytes() == bytes@,
{
    std::str::from_utf8(bytes).ok()
}

/// A field's bytes as text.
pub fn field_text(value: &[u8]) -> (r: Result<&str, CopyDecodeError>)
    ensures
        match r {
            Ok(t) => valid_utf8(value@) && t.spec_bytes() == value@,
            Err(e) => !valid_utf8(value@) && is_error(e, "22021", "COPY text must be valid UTF-8"),
        },
{
    match utf8_text(value) {
        Some(text) => Ok(text),
        None => Err(copy_error("22021", "COPY text must be valid UTF-8")),
    }
}

// ─── Escapes ───────────────────────────────────────────────────────────────

pub open spec fn is_hex_digit(b: u8) -> bool {
    48 <= b <= 57 || 97 <= b <= 102 || 65 <= b <= 70
}

pub open spec fn is_octal_digit(b: u8) -> bool {
    48 <= b <= 55
}

/// The value of a hexadecimal digit.
pub open spec fn hex_value(b: u8) -> Option<u8> {
    if 48 <= b <= 57 {
        Some((b - 48) as u8)
    } else if 97 <= b <= 102 {
        Some((b - 97 + 10) as u8)
    } else if 65 <= b <= 70 {
        Some((b - 65 + 10) as u8)
    } else {
        None
    }
}

/// The value of a hexadecimal digit.
pub fn hex_nibble(byte: u8) -> (r: Option<u8>)
    ensures
        r == hex_value(byte),
{
    if 48 <= byte && byte <= 57 {
        Some(byte - 48)
    } else if 97 <= byte && byte <= 102 {
        Some(byte - 97 + 10)
    } else if 65 <= byte && byte <= 70 {
        Some(byte - 65 + 10)
    } else {
        None
    }
}

/// How many digits of a run start at `i`, at most `max`, each passing `digit`.
pub open spec fn digit_run(s: Seq<u8>, i: int, max: nat, octal: bool) -> nat
    decreases max,
{
    if max == 0 || i < 0 || i >= s.len() || !(if octal { is_octal_digit(s[i]) } else { is_hex_digit(s[i]) }) {
        0
    } else {
        1 + digit_run(s, i + 1, (max - 1) as nat, octal)
    }
}

/// The value of the first `n` digits from `i` in base 8 or 16.
pub open spec fn digits_number(s: Seq<u8>, i: int, n: nat, octal: bool) -> nat
    decreases n,
{
    if n == 0 {
        0
    } else {
        digits_number(s, i, (n - 1) as nat, octal) * (if octal { 8nat } else { 16nat }) + (if octal {
            (s[i + n - 1] - 48) as nat
        } else {
            hex_value(s[i + n - 1]).unwrap() as nat
        })
    }
}

/// Why unescaping a field fails.
#[derive(Clone, Copy, Debug, PartialEq, Eq, Structural)]
pub enum EscapeFailure {
    /// The field ends with a lone backslash.
    TrailingBackslash,
    /// `\x` is not followed by a hexadecimal digit.
    InvalidHex,
    /// An octal escape names a value above 255.
    OctalOverflow,
}

/// The bytes of `raw` from `i` on with COPY backslash escapes decoded.
pub open spec fn unescape_from(raw: Seq<u8>, i: int) -> Result<Seq<u8>, EscapeFailure>
    decreases raw.len() - i, 1int,
{
    if i < 0 || i >= raw.len() {
        Ok(Seq::empty())
    } else if raw[i] != 92 {
        prepend(raw[i], unescape_from(raw, i + 1))
    } else if i + 1 >= raw.len() {
        Err(EscapeFailure::TrailingBackslash)
    } else {
        unescape_escape(raw, i + 1)
    }
}

/// The decoding of the escape whose letter is at `j`, then of the rest.
pub open spec fn unescape_escape(raw: Seq<u8>, j: int) -> Result<Seq<u8>, EscapeFailure>
    decreases raw.len() - j, 0int,
{
    if j < 1 || j >= raw.len() {
        Ok(Seq::empty())
    } else {
        let e = raw[j];
        if e == 98 {
            prepend(8, unescape_from(raw, j + 1))
        } else if e == 102 {
            prepend(12, unescape_from(raw, j + 1))
        } else if e == 110 {
            prepend(10, unescape_from(raw, j + 1))
        } else if e == 114 {
            prepend(13, unescape_from(raw, j + 1))
        } else if e == 116 {
            prepend(9, unescape_from(raw, j + 1))
        } else if e == 118 {
            prepend(11, unescape_from(raw, j + 1))
        } else if e == 120 {
            let n = digit_run(raw, j + 1, 2, false);
            proof {
                lemma_digit_run_bounds(raw, j + 1, 2, false);
            }
            if n == 0 {
                Err(EscapeFailure::InvalidHex)
            } else {
                prepend(digits_number(raw, j + 1, n, false) as u8, unescape_from(raw, j + 1 + n))
            }
        } else if is_octal_digit(e) {
            let n = digit_run(raw, j, 3, true);
            proof {
                lemma_digit_run_bounds(raw, j, 3, true);
            }
            if digits_number(raw, j, n, true) > 255 {
                Err(EscapeFailure::OctalOverflow)
            } else {
                prepend(digits_number(raw, j, n, true) as u8, unescape_from(raw, j + n))
            }
        } else {
            prepend(e, unescape_from(raw, j + 1))
        }
    }
}

pub proof fn lemma_digit_run_bounds(s: Seq<u8>, i: int, max: nat, octal: bool)
    ensures
        0 <= i <= s.len() ==> i + digit_run(s, i, max, octal) <= s.len(),
        0 <= i < s.len() && max > 0 && (if octal { is_octal_digit(s[i]) } else { is_hex_digit(s[i]) })
            ==> digit_run(s, i, max, octal) >= 1,
    decreases max,
{
    if max > 0 && 0 <= i < s.len() && (if octal { is_octal_digit(s[i]) } else { is_hex_digit(s[i]) }) {
        lemma_digit_run_bounds(s, i + 1, (max - 1) as nat, octal);
    }
}

/// A byte in front of a decoding, unless the decoding failed.
pub open spec fn prepend(b: u8, rest: Result<Seq<u8>, EscapeFailure>) -> Result<Seq<u8>, EscapeFailure> {
    match rest {
        Ok(s) => Ok(seq![b] + s),
        Err(e) => Err(e),
    }
}

/// The letter COPY text writes after a backslash for a byte it escapes:
/// backslash itself, backspace, form feed, newline, carriage return, tab
/// and vertical tab; `None` for a byte written as it is.
pub open spec fn escape_letter(b: u8) -> Option<u8> {
    if b == 92 {
        Some(92u8)
    } else if b == 8 {
        Some(98u8)
    } else if b == 12 {
        Some(102u8)
    } else if b == 10 {
        Some(110u8)
    } else if b == 13 {
        Some(114u8)
    } else if b == 9 {
        Some(116u8)
    } else if b == 11 {
        Some(118u8)
    } else {
        None
    }
}

/// Bytes as COPY text writes them, each special byte as a backslash escape.
pub open spec fn copy_escaped(t: Seq<u8>) -> Seq<u8>
    decreases t.len(),
{
    if t.len() == 0 {
        Seq::empty()
    } else {
        escape_of(t[0]) + copy_escaped(t.drop_first())
    }
}

/// How COPY text writes one byte.
pub open spec fn escape_of(b: u8) -> Seq<u8> {
    match escape_letter(b) {
        Some(l) => seq![92u8, l],
        None => seq![b],
    }
}

proof fn lemma_unescape_escaped_at(s: Seq<u8>, i: int, t: Seq<u8>)
    requires
        0 <= i <= s.len(),
        s.subrange(i, s.len() as int) == copy_escaped(t),
    ensures
        unescape_from(s, i) == Ok::<Seq<u8>, EscapeFailure>(t),
    decreases t.len(),
{
    let rest = t.drop_first();
    if t.len() == 0 {
        assert(s.subrange(i, s.len() as int).len() == 0);
        assert(t =~= Seq::<u8>::empty());
    } else {
        let head = escape_of(t[0]);
        assert(copy_escaped(t) == head + copy_escaped(rest));
        let k = i + head.len();
        assert(s.subrange(k, s.len() as int) =~= copy_escaped(rest)) by {
            assert(s.subrange(i, s.len() as int).subrange(head.len() as int, copy_escaped(t).len() as int)
                =~= s.subrange(k, s.len() as int));
        }
        assert(s[i] == head[0]) by {
            assert(s.subrange(i, s.len() as int)[0] == s[i]);
        }
        if head.len() == 2 {
            assert(s[i + 1] == head[1]) by {
                assert(s.subrange(i, s.len() as int)[1] == s[i + 1]);
            }
        }
        lemma_unescape_escaped_at(s, k, rest);
        assert(seq![t[0]] + rest =~= t);
        if escape_letter(t[0]) is Some {
            assert(s[i] == 92 && i + 1 < s.len());
            assert(unescape_from(s, i) == unescape_escape(s, i + 1));
            assert(!is_octal_digit(s[i + 1]));
            assert(unescape_escape(s, i + 1) == prepend(t[0], unescape_from(s, i + 2)));
        } else {
            assert(s[i] != 92);
            assert(unescape_from(s, i) == prepend(t[0], unescape_from(s, i + 1)));
        }
    }
}

/// Field text reads back as written: decoding the COPY escaping of any
/// bytes gives those bytes; every backslash, backspace, form feed,
/// newline, carriage return, tab and vertical tab comes back from its
/// escape and every other byte is kept.
pub proof fn lemma_field_escaping_round_trip(t: Seq<u8>)
    ensures
        decoded_field(copy_escaped(t), false) == Ok::<Seq<u8>, EscapeFailure>(t),
        escapes_decodable(copy_escaped(t), false),
{
    let s = copy_escaped(t);
    assert(s.subrange(0, s.len() as int) =~= s);
    lemma_unescape_escaped_at(s, 0, t);
}

/// Whether a binary field is already in the single-backslash `\x` hex form.
pub open spec fn is_legacy_hex(raw: Seq<u8>) -> bool {
    raw.len() >= 2 && raw[0] == 92 && raw[1] == 120 && forall|k: int| 2 <= k < raw.len() ==> is_hex_digit(
        #[trigger] raw[k],
    )
}

/// What decoding a field gives: the single-backslash hex form of a binary
/// field is kept as it is; otherwise escapes are decoded.
pub open spec fn decoded_field(raw: Seq<u8>, preserve_single_hex: bool) -> Result<Seq<u8>, EscapeFailure> {
    if preserve_single_hex && is_legacy_hex(raw) {
        Ok(raw)
    } else {
        unescape_from(raw, 0)
    }
}

/// Whether a field's escapes can be decoded without an octal escape above
/// 255.
pub open spec fn escapes_decodable(raw: Seq<u8>, preserve_single_hex: bool) -> bool {
    decoded_field(raw, preserve_single_hex) != Err::<Seq<u8>, EscapeFailure>(EscapeFailure::OctalOverflow)
}

fn count_digits(raw: &[u8], i: usize, max: usize, octal: bool) -> (n: usize)
    requires
        max <= 3,
        i <= raw@.len(),
    ensures
        n == digit_run(raw@, i as int, max as nat, octal),
        n <= max,
        i + n <= raw@.len(),
    decreases max,
{
    if max == 0 || i >= raw.len() {
        return 0;
    }
    let b = raw[i];
    let ok = if octal { 48 <= b && b <= 55 } else { hex_nibble(b).is_some() };
    if !ok {
        return 0;
    }
    1 + count_digits(raw, i + 1, max - 1, octal)
}

fn digits_value_at(raw: &[u8], i: usize, n: usize, octal: bool) -> (v: u32)
    requires
        n <= 3,
        i + n <= raw@.len(),
        forall|k: int| i <= k < i + n ==> (if octal { is_octal_digit(#[trigger] raw@[k]) } else { is_hex_digit(raw@[k]) }),
    ensures
        v == digits_number(raw@, i as int, n as nat, octal),
        v < (if n == 0 { 1u32 } else if n == 1 { 16u32 } else if n == 2 { 256u32 } else { 4096u32 }),
        octal ==> v < (if n == 0 { 1u32 } else if n == 1 { 8u32 } else if n == 2 { 64u32 } else { 512u32 }),
    decreases n,
{
    if n == 0 {
        return 0;
    }
    let prev = digits_value_at(raw, i, n - 1, octal);
    let len = raw.len();
    assert(i + n <= len);
    let k = i + (n - 1);
    let b = raw[k];
    if octal {
        prev * 8 + (b - 48) as u32
    } else {
        prev * 16 + hex_nibble(b).unwrap() as u32
    }
}

proof fn lemma_digit_run_digits(raw: Seq<u8>, i: int, max: nat, octal: bool)
    ensures
        forall|k: int|
            i <= k < i + digit_run(raw, i, max, octal) ==> (if octal { is_octal_digit(#[trigger] raw[k]) } else {
                is_hex_digit(raw[k])
            }),
        digit_run(raw, i, max, octal) <= max,
    decreases max,
{
    if max > 0 && 0 <= i < raw.len() && (if octal { is_octal_digit(raw[i]) } else { is_hex_digit(raw[i]) }) {
        lemma_digit_run_digits(raw, i + 1, (max - 1) as nat, octal);
    }
}

fn has_backslash(raw: &[u8]) -> (r: bool)
    ensures
        r == exists|k: int| 0 <= k < raw@.len() && raw@[k] == 92,
{
    let mut i: usize = 0;
    while i < raw.len()
        invariant
            i <= raw@.len(),
            forall|k: int| 0 <= k < i ==> raw@[k] != 92,
        decreases raw.len() - i,
    {
        if raw[i] == 92 {
            return true;
        }
        i = i + 1;
    }
    false
}

proof fn lemma_no_escape(raw: Seq<u8>, i: int)
    requires
        0 <= i <= raw.len(),
        forall|k: int| i <= k < raw.len() ==> raw[k] != 92,
    ensures
        unescape_from(raw, i) == Ok::<Seq<u8>, EscapeFailure>(raw.subrange(i, raw.len() as int)),
    decreases raw.len() - i,
{
    if i < raw.len() {
        lemma_no_escape(raw, i + 1);
        assert(raw.subrange(i, raw.len() as int) =~= seq![raw[i]] + raw.subrange(i + 1, raw.len() as int));
    } else {
        assert(raw.subrange(i, raw.len() as int) =~= Seq::<u8>::empty());
    }
}

fn legacy_hex(raw: &[u8]) -> (r: bool)
    ensures
        r == is_legacy_hex(raw@),
{
    if raw.len() < 2 || raw[0] != 92 || raw[1] != 120 {
        return false;
    }
    let mut i: usize = 2;
    while i < raw.len()
        invariant
            2 <= i <= raw@.len(),
            forall|k: int| 2 <= k < i ==> is_hex_digit(#[trigger] raw@[k]),
        decreases raw.len() - i,
    {
        if hex_nibble(raw[i]).is_none() {
            return false;
        }
        i = i + 1;
    }
    true
}

/// Decode the COPY text escapes of one field.
pub fn decode_copy_field(raw: &[u8], preserve_single_hex: bool) -> (r: Result<Vec<u8>, CopyDecodeError>)
    requires
        escapes_decodable(raw@, preserve_single_hex),
    ensures
        match r {
            Ok(v) => decoded_field(raw@, preserve_single_hex) == Ok::<Seq<u8>, EscapeFailure>(v@),
            Err(e) => (decoded_field(raw@, preserve_single_hex) == Err::<Seq<u8>, EscapeFailure>(
                EscapeFailure::TrailingBackslash,
            ) && is_error(e, "22P04", "COPY field ends with a backslash escape")) || (decoded_field(
                raw@,
                preserve_single_hex,
            ) == Err::<Seq<u8>, EscapeFailure>(EscapeFailure::InvalidHex) && is_error(
                e,
                "22P04",
                "COPY field has an invalid hex escape",
            )),
        },
{
    if preserve_single_hex && legacy_hex(raw) {
        return Ok(copy_bytes(raw));
    }
    if !has_backslash(raw) {
        proof {
            lemma_no_escape(raw@, 0);
            assert(raw@.subrange(0, raw@.len() as int) =~= raw@);
        }
        return Ok(copy_bytes(raw));
    }
    let ghost total = unescape_from(raw@, 0);
    let mut decoded: Vec<u8> = Vec::new();
    let mut index: usize = 0;
    while index < raw.len()
        invariant
            index <= raw@.len(),
            total == unescape_from(raw@, 0),
            decoded_field(raw@, preserve_single_hex) == total,
            total != Err::<Seq<u8>, EscapeFailure>(EscapeFailure::OctalOverflow),
            match unescape_from(raw@, index as int) {
                Ok(rest) => total == Ok::<Seq<u8>, EscapeFailure>(decoded@ + rest),
                Err(f) => total == Err::<Seq<u8>, EscapeFailure>(f),
            },
        decreases raw.len() - index,
    {
        if raw[index] != 92 {
            let ghost before = decoded@;
            decoded.push(raw[index]);
            index = index + 1;
            proof {
                match unescape_from(raw@, index as int) {
                    Ok(rest) => assert(decoded@ + rest =~= before + (seq![raw@[index - 1]] + rest)),
                    Err(_) => {},
                }
            }
            continue;
        }
        if index + 1 >= raw.len() {
            assert(unescape_from(raw@, index as int) == Err::<Seq<u8>, EscapeFailure>(
                EscapeFailure::TrailingBackslash,
            ));
            return Err(copy_error("22P04", "COPY field ends with a backslash escape"));
        }
        let j = index + 1;
        let escaped = raw[j];
        assert(unescape_from(raw@, index as int) == unescape_escape(raw@, j as int));
        let ghost before = decoded@;
        let next: usize;
        if escaped == 98 {
            decoded.push(8);
            next = j + 1;
        } else if escaped == 102 {
            decoded.push(12);
            next = j + 1;
        } else if escaped == 110 {
            decoded.push(10);
            next = j + 1;
        } else if escaped == 114 {
            decoded.push(13);
            next = j + 1;
        } else if escaped == 116 {
            decoded.push(9);
            next = j + 1;
        } else if escaped == 118 {
            decoded.push(11);
            next = j + 1;
        } else if escaped == 120 {
            let n = count_digits(raw, j + 1, 2, false);
            if n == 0 {
                assert(unescape_escape(raw@, j as int) == Err::<Seq<u8>, EscapeFailure>(EscapeFailure::InvalidHex));
                return Err(copy_error("22P04", "COPY field has an invalid hex escape"));
            }
            proof {
                lemma_digit_run_digits(raw@, j + 1, 2, false);
            }
            let v = digits_value_at(raw, j + 1, n, false);
            proof {
                assert(v < 256) by {
                    assert(n <= 2);
                    if n == 1 {
                        assert(digits_number(raw@, j + 1, 0, false) == 0);
                    } else {
                        assert(digits_number(raw@, j + 1, 0, false) == 0);
                        assert(digits_number(raw@, j + 1, 1, false) < 16);
                    }
                }
            }
            decoded.push(v as u8);
            next = j + 1 + n;
        } else if 48 <= escaped && escaped <= 55 {
            let n = count_digits(raw, j, 3, true);
            proof {
                lemma_digit_run_digits(raw@, j as int, 3, true);
            }
            let v = digits_value_at(raw, j, n, true);
            assert(v <= 255) by {
                if v > 255 {
                    assert(unescape_escape(raw@, j as int) == Err::<Seq<u8>, EscapeFailure>(
                        EscapeFailure::OctalOverflow,
                    ));
                }
            }
            decoded.push(v as u8);
            next = j + n;
        } else {
            decoded.push(escaped);
            next = j + 1;
        }
        assert(unescape_escape(raw@, j as int) == prepend(decoded@.last(), unescape_from(raw@, next as int)));
        index = next;
        proof {
            match unescape_from(raw@, index as int) {
                Ok(rest) => assert(decoded@ + rest =~= before + (seq![decoded@.last()] + rest)),
                Err(_) => {},
            }
        }
    }
    Ok(decoded)
}

// ─── Typed values ──────────────────────────────────────────────────────────

/// The value of integer text with an optional sign.
pub open spec fn signed_value(text: Seq<u8>) -> int {
    let magnitude = digits_value(text.skip(sign_len(text))) as int;
    if text.len() > 0 && text[0] == 45 { -magnitude } else { magnitude }
}

proof fn lemma_digits_prefix(d: Seq<u8>, k: int)
    requires
        0 <= k <= d.len(),
        forall|i: int| 0 <= i < d.len() ==> is_digit(#[trigger] d[i]),
    ensures
        digits_value(d.subrange(0, k)) <= digits_value(d),
    decreases d.len(),
{
    if k < d.len() {
        let shorter = d.drop_last();
        assert(shorter.subrange(0, k) =~= d.subrange(0, k));
        lemma_digits_prefix(shorter, k);
    } else {
        assert(d.subrange(0, k) =~= d);
    }
}

/// Parse a COPY integer field: an optional sign and decimal digits within
/// the range of `i64`.
pub fn parse_integer(value: &[u8], label: &str) -> (r: Result<i64, CopyDecodeError>)
    ensures
        match r {
            Ok(v) => is_i64_text(value@) && v == signed_value(value@),
            Err(e) => !is_i64_text(value@) && e.sqlstate@ == "22P02"@ && e.message@ == "invalid COPY "@
                + label@ + " value"@,
        },
{
    if !crate::mvt::parses_as_i64(value) {
        let mut message = String::from_str("invalid COPY ");
        message.append(label);
        message.append(" value");
        return Err(CopyDecodeError { sqlstate: "22P02", message });
    }
    let negative = value[0] == 45;
    let start: usize = if value[0] == 45 || value[0] == 43 { 1 } else { 0 };
    let ghost digits = value@.skip(start as int);
    assert(start == sign_len(value@));
    let mut magnitude: u64 = 0;
    let mut i: usize = start;
    while i < value.len()
        invariant
            start <= i <= value@.len(),
            start == sign_len(value@),
            digits == value@.skip(start as int),
            is_i64_text(value@),
            magnitude == digits_value(digits.subrange(0, i - start)),
        decreases value.len() - i,
    {
        let ghost prefix = digits.subrange(0, i - start);
        assert(digits.subrange(0, i - start + 1).drop_last() =~= prefix);
        assert(is_digit(digits[i - start]));
        proof {
            lemma_digits_prefix(digits, i - start + 1);
        }
        magnitude = magnitude * 10 + (value[i] - 48) as u64;
        i = i + 1;
    }
    assert(digits.subrange(0, i - start) =~= digits);
    if negative {
        if magnitude == 0x8000_0000_0000_0000 {
            Ok(i64::MIN)
        } else {
            Ok(-(magnitude as i64))
        }
    } else {
        Ok(magnitude as i64)
    }
}

/// ASCII lowercase of a byte.
pub open spec fn ascii_lower(b: u8) -> u8 {
    if 65 <= b <= 90 { (b + 32) as u8 } else { b }
}

/// Whether text, lowercased in ASCII, is the given word.
pub open spec fn is_word(text: Seq<u8>, word: Seq<char>) -> bool {
    text.len() == word.len() && forall|i: int| 0 <= i < text.len() ==> ascii_lower(#[trigger] text[i]) as u32 == word[i] as u32
}

/// The Boolean spellings PostgreSQL accepts, in any ASCII case.
pub open spec fn bool_of_text(text: Seq<u8>) -> Option<bool> {
    if is_word(text, "t"@) || is_word(text, "true"@) || is_word(text, "1"@) || is_word(text, "y"@)
        || is_word(text, "yes"@) || is_word(text, "on"@) {
        Some(true)
    } else if is_word(text, "f"@) || is_word(text, "false"@) || is_word(text, "0"@) || is_word(text, "n"@)
        || is_word(text, "no"@) || is_word(text, "off"@) {
        Some(false)
    } else {
        None
    }
}

fn matches_word(text: &[u8], word: &str) -> (r: bool)
    requires
        forall|i: int| 0 <= i < word@.len() ==> (#[trigger] word@[i] as u32) < 128,
    ensures
        r == is_word(text@, word@),
{
    let n = word.unicode_len();
    if text.len() != n {
        return false;
    }
    let mut i: usize = 0;
    while i < n
        invariant
            n == word@.len() == text@.len(),
            i <= n,
            forall|k: int| 0 <= k < i ==> ascii_lower(#[trigger] text@[k]) as u32 == word@[k] as u32,
        decreases n - i,
    {
        let b = text[i];
        let lower = if 65 <= b && b <= 90 { b + 32 } else { b };
        if lower as u32 != word.get_char(i) as u32 {
            return false;
        }
        i = i + 1;
    }
    true
}

/// Parse a COPY Boolean field.
pub fn parse_bool(value: &[u8]) -> (r: Result<bool, CopyDecodeError>)
    ensures
        match r {
            Ok(b) => valid_utf8(value@) && bool_of_text(value@) == Some(b),
            Err(e) => (!valid_utf8(value@) && is_error(e, "22021", "COPY text must be valid UTF-8")) || (
            valid_utf8(value@) && bool_of_text(value@) is None && is_error(
                e,
                "22P02",
                "invalid COPY Boolean value",
            )),
        },
{
    let _text = field_text(value)?;
    proof {
        reveal_strlit("t");
        reveal_strlit("true");
        reveal_strlit("1");
        reveal_strlit("y");
        reveal_strlit("yes");
        reveal_strlit("on");
        reveal_strlit("f");
        reveal_strlit("false");
        reveal_strlit("0");
        reveal_strlit("n");
        reveal_strlit("no");
        reveal_strlit("off");
    }
    if matches_word(value, "t") || matches_word(value, "true") || matches_word(value, "1") || matches_word(
        value,
        "y",
    ) || matches_word(value, "yes") || matches_word(value, "on") {
        Ok(true)
    } else if matches_word(value, "f") || matches_word(value, "false") || matches_word(value, "0")
        || matches_word(value, "n") || matches_word(value, "no") || matches_word(value, "off") {
        Ok(false)
    } else {
        Err(copy_error("22P02", "invalid COPY Boolean value"))
    }
}

/// Text with its ASCII capitals turned to small letters.
pub open spec fn lowered(text: Seq<u8>) -> Seq<u8> {
    text.map_values(|b: u8| if 65 <= b <= 90 { (b + 32) as u8 } else { b })
}

/// The spellings PostgreSQL reads as true: `t`, `true`, `1`, `y`, `yes`,
/// `on`, as bytes in small letters.
pub open spec fn true_spelling(text: Seq<u8>) -> bool {
    let l = lowered(text);
    ||| l == seq![116u8]
    ||| l == seq![116u8, 114, 117, 101]
    ||| l == seq![49u8]
    ||| l == seq![121u8]
    ||| l == seq![121u8, 101, 115]
    ||| l == seq![111u8, 110]
}

/// The spellings PostgreSQL reads as false: `f`, `false`, `0`, `n`, `no`,
/// `off`, as bytes in small letters.
pub open spec fn false_spelling(text: Seq<u8>) -> bool {
    let l = lowered(text);
    ||| l == seq![102u8]
    ||| l == seq![102u8, 97, 108, 115, 101]
    ||| l == seq![48u8]
    ||| l == seq![110u8]
    ||| l == seq![110u8, 111]
    ||| l == seq![111u8, 102, 102]
}

proof fn lemma_word_bytes(text: Seq<u8>, word: Seq<char>, bytes: Seq<u8>)
    requires
        word.len() == bytes.len(),
        forall|i: int| 0 <= i < word.len() ==> #[trigger] word[i] as u32 == bytes[i] as u32,
    ensures
        is_word(text, word) == (lowered(text) == bytes),
{
    if is_word(text, word) {
        assert forall|i: int| 0 <= i < text.len() implies #[trigger] lowered(text)[i] == bytes[i] by {
            assert(ascii_lower(text[i]) as u32 == word[i] as u32);
        }
        assert(lowered(text) =~= bytes);
    }
    if lowered(text) == bytes {
        assert forall|i: int| 0 <= i < text.len() implies ascii_lower(#[trigger] text[i]) as u32 == word[i] as u32 by {
            assert(lowered(text)[i] == bytes[i]);
        }
    }
}

proof fn lemma_ascii_valid_utf8(text: Seq<u8>)
    requires
        forall|i: int| 0 <= i < text.len() ==> text[i] < 128,
    ensures
        valid_utf8(text),
    decreases text.len(),
{
    if text.len() > 0 {
        let b = text[0];
        assert((b & 0x7F) as u32 <= 0x7f) by (bit_vector);
        let rest = text.subrange(1, text.len() as int);
        lemma_ascii_valid_utf8(rest);
    }
}

/// The Boolean spellings in any ASCII case: exactly the true spellings read
/// as true and exactly the false spellings as false; every spelling is
/// valid text, so `parse_bool` answers `Ok(true)` on a true spelling and
/// `Ok(false)` on a false one.
pub proof fn lemma_bool_spellings(text: Seq<u8>)
    ensures
        bool_of_text(text) == (if true_spelling(text) {
            Some(true)
        } else if false_spelling(text) {
            Some(false)
        } else {
            None
        }),
        true_spelling(text) || false_spelling(text) ==> valid_utf8(text),
        !(true_spelling(text) && false_spelling(text)),
{
    reveal_strlit("t");
    reveal_strlit("true");
    reveal_strlit("1");
    reveal_strlit("y");
    reveal_strlit("yes");
    reveal_strlit("on");
    reveal_strlit("f");
    reveal_strlit("false");
    reveal_strlit("0");
    reveal_strlit("n");
    reveal_strlit("no");
    reveal_strlit("off");
    lemma_word_bytes(text, "t"@, seq![116u8]);
    lemma_word_bytes(text, "true"@, seq![116u8, 114, 117, 101]);
    lemma_word_bytes(text, "1"@, seq![49u8]);
    lemma_word_bytes(text, "y"@, seq![121u8]);
    lemma_word_bytes(text, "yes"@, seq![121u8, 101, 115]);
    lemma_word_bytes(text, "on"@, seq![111u8, 110]);
    lemma_word_bytes(text, "f"@, seq![102u8]);
    lemma_word_bytes(text, "false"@, seq![102u8, 97, 108, 115, 101]);
    lemma_word_bytes(text, "0"@, seq![48u8]);
    lemma_word_bytes(text, "n"@, seq![110u8]);
    lemma_word_bytes(text, "no"@, seq![110u8, 111]);
    lemma_word_bytes(text, "off"@, seq![111u8, 102, 102]);
    if true_spelling(text) && false_spelling(text) {
        let l = lowered(text);
        assert(l.len() >= 1);
        assert(l[0] == 116 || l[0] == 49 || l[0] == 121 || l[0] == 111);
        assert(l[0] == 102 || l[0] == 48 || l[0] == 110 || l[0] == 111);
        assert(l == seq![111u8, 110] && l == seq![111u8, 102, 102]);
        assert(l[1] == 110u8 && l[1] == 102u8);
    }
    if true_spelling(text) || false_spelling(text) {
        let l = lowered(text);
        assert forall|i: int| 0 <= i < text.len() implies text[i] < 128 by {
            assert(l[i] < 128);
        }
        lemma_ascii_valid_utf8(text);
    }
}

/// The byte of the hex pair at `2 * k`, if both digits are hex.
pub open spec fn hex_pair(hex: Seq<u8>, k: int) -> Option<u8> {
    match (hex_value(hex[2 * k]), hex_value(hex[2 * k + 1])) {
        (Some(high), Some(low)) => Some((high * 16 + low) as u8),
        _ => None,
    }
}

/// How many pairs from the start of `hex` are valid.
pub open spec fn valid_pairs(hex: Seq<u8>) -> nat
    decreases hex.len(),
{
    if hex.len() < 2 || hex_pair(hex, 0) is None {
        0
    } else {
        1 + valid_pairs(hex.skip(2))
    }
}

/// The bytes of the first `n` hex pairs.
pub open spec fn pair_bytes(hex: Seq<u8>, n: nat) -> Seq<u8> {
    Seq::new(n, |k: int| hex_pair(hex, k).unwrap())
}

/// The hex digits of a binary field: after `\x`, or the whole field where
/// the bare PostGIS form is allowed.
pub open spec fn hex_digits_of(value: Seq<u8>, allow_postgis_hex: bool) -> Option<Seq<u8>> {
    if value.len() >= 2 && value[0] == 92 && value[1] == 120 {
        Some(value.skip(2))
    } else if allow_postgis_hex {
        Some(value)
    } else {
        None
    }
}

proof fn lemma_valid_pairs_step(hex: Seq<u8>, k: int)
    requires
        0 <= k,
        2 * k + 2 <= hex.len(),
        valid_pairs(hex) >= k,
    ensures
        valid_pairs(hex) > k <==> hex_pair(hex, k) is Some,
        hex_pair(hex, k) is Some ==> forall|j: int| 0 <= j <= k ==> #[trigger] hex_pair(hex, j) is Some,
    decreases k,
{
    if k > 0 {
        let rest = hex.skip(2);
        assert(hex_pair(hex, 0) is Some);
        lemma_valid_pairs_step(rest, k - 1);
        assert(hex_pair(rest, k - 1) == hex_pair(hex, k));
        assert forall|j: int| 1 <= j <= k implies hex_pair(rest, j - 1) == hex_pair(hex, j) by {}
    }
}

/// The small-letter hex digit of a value below sixteen.
pub open spec fn hex_digit(v: int) -> u8 {
    if v < 10 {
        (48 + v) as u8
    } else {
        (87 + v) as u8
    }
}

/// Bytes written as hex digits, two per byte, high digit first.
pub open spec fn hex_text(b: Seq<u8>) -> Seq<u8> {
    Seq::new(2 * b.len(), |i: int| if i % 2 == 0 { hex_digit(b[i / 2] as int / 16) } else { hex_digit(b[i / 2] as int % 16) })
}

proof fn lemma_hex_text_pairs(b: Seq<u8>)
    ensures
        forall|k: int| 0 <= k < b.len() ==> #[trigger] hex_pair(hex_text(b), k) == Some(b[k]),
{
    assert forall|k: int| 0 <= k < b.len() implies #[trigger] hex_pair(hex_text(b), k) == Some(b[k]) by {
        let t = hex_text(b);
        assert((2 * k) % 2 == 0 && (2 * k) / 2 == k);
        assert((2 * k + 1) % 2 == 1 && (2 * k + 1) / 2 == k);
        let hi = b[k] / 16;
        let lo = b[k] % 16;
        assert(t[2 * k] == hex_digit(hi as int));
        assert(t[2 * k + 1] == hex_digit(lo as int));
        assert(hex_value(hex_digit(hi as int)) == Some(hi as u8));
        assert(hex_value(hex_digit(lo as int)) == Some(lo as u8));
        assert(hi * 16 + lo == b[k]);
    }
}

proof fn lemma_hex_text_valid(b: Seq<u8>)
    ensures
        valid_pairs(hex_text(b)) == b.len(),
    decreases b.len(),
{
    lemma_hex_text_pairs(b);
    if b.len() > 0 {
        let rest = b.skip(1);
        assert forall|i: int| 0 <= i < hex_text(rest).len() implies hex_text(b).skip(2)[i] == #[trigger] hex_text(
            rest,
        )[i] by {
            assert((i + 2) % 2 == i % 2);
            assert((i + 2) / 2 == i / 2 + 1);
        }
        assert(hex_text(b).skip(2) =~= hex_text(rest));
        assert(hex_pair(hex_text(b), 0) == Some(b[0]));
        lemma_hex_text_valid(rest);
    }
}

/// Binary values read back as written: the `\x` hex text of any bytes,
/// two small-letter digits per byte, is accepted as hex of even length
/// whose every pair is valid, and decodes to exactly those bytes.
pub proof fn lemma_bytea_hex_round_trip(b: Seq<u8>, allow_postgis_hex: bool)
    ensures
        hex_digits_of(seq![92u8, 120u8] + hex_text(b), allow_postgis_hex) == Some(hex_text(b)),
        hex_text(b).len() % 2 == 0,
        valid_pairs(hex_text(b)) == hex_text(b).len() / 2,
        pair_bytes(hex_text(b), valid_pairs(hex_text(b))) == b,
{
    assert((seq![92u8, 120u8] + hex_text(b)).skip(2) =~= hex_text(b));
    lemma_hex_text_valid(b);
    lemma_hex_text_pairs(b);
    assert(pair_bytes(hex_text(b), b.len()) =~= b);
}

/// Decode a binary field's hex digits into `output`.
pub fn parse_hex_into(value: &[u8], output: &mut Vec<u8>, allow_postgis_hex: bool) -> (r: Result<
    (),
    CopyDecodeError,
>)
    ensures
        match hex_digits_of(value@, allow_postgis_hex) {
            None => *final(output) == *old(output) && fails_with(
                r,
                "22P02",
                "COPY binary value must use \\x hex format",
            ),
            Some(hex) => if hex.len() % 2 != 0 {
                *final(output) == *old(output) && fails_with(r, "22P02", "COPY binary value contains invalid hex")
            } else {
                &&& final(output)@ == pair_bytes(hex, valid_pairs(hex))
                &&& valid_pairs(hex) == hex.len() / 2 ==> r is Ok
                &&& valid_pairs(hex) < hex.len() / 2 ==> fails_with(
                    r,
                    "22P02",
                    "COPY binary value contains invalid hex",
                )
            },
        },
{
    let prefixed = value.len() >= 2 && value[0] == 92 && value[1] == 120;
    if !prefixed && !allow_postgis_hex {
        return Err(copy_error("22P02", "COPY binary value must use \\x hex format"));
    }
    let start: usize = if prefixed { 2 } else { 0 };
    let ghost hex = value@.skip(start as int);
    assert(hex_digits_of(value@, allow_postgis_hex) == Some(hex));
    let len = value.len() - start;
    if len % 2 != 0 {
        return Err(copy_error("22P02", "COPY binary value contains invalid hex"));
    }
    output.clear();
    let vlen = value.len();
    let mut k: usize = 0;
    while k < len / 2
        invariant
            vlen == value@.len(),
            hex_digits_of(value@, allow_postgis_hex) == Some(hex),
            len == hex.len(),
            len % 2 == 0,
            hex == value@.skip(start as int),
            start + len == value@.len(),
            k <= len / 2,
            valid_pairs(hex) >= k,
            output@ == pair_bytes(hex, k as nat),
        decreases len / 2 - k,
    {
        let high = hex_nibble(value[start + 2 * k]);
        let low = hex_nibble(value[start + 2 * k + 1]);
        proof {
            lemma_valid_pairs_step(hex, k as int);
        }
        match (high, low) {
            (Some(h), Some(l)) => {
                assert(h * 16 + l < 256);
                output.push(h * 16 + l);
                assert(output@ =~= pair_bytes(hex, (k + 1) as nat));
                k = k + 1;
            },
            _ => {
                assert(valid_pairs(hex) == k);
                return Err(copy_error("22P02", "COPY binary value contains invalid hex"));
            },
        }
    }
    proof {
        lemma_valid_pairs_bound(hex);
    }
    Ok(())
}

proof fn lemma_valid_pairs_bound(hex: Seq<u8>)
    ensures
        valid_pairs(hex) <= hex.len() / 2,
    decreases hex.len(),
{
    if hex.len() >= 2 && hex_pair(hex, 0) is Some {
        lemma_valid_pairs_bound(hex.skip(2));
    }
}

// ─── Decimal, date and timestamp fields ────────────────────────────────────

/// What `rust_decimal` reads from decimal text: the mantissa and scale of
/// the `Decimal` that `str::parse::<Decimal>` returns, if it returns one.
pub uninterp spec fn decimal_text_parts(text: Seq<char>) -> Option<(i128, u32)>;

/// `<rust_decimal::Decimal as FromStr>::from_str`, the parsed value given
/// by its mantissa and scale. Its contract only names the result: the
/// parsing rules are the crate's.
#[verifier::external_body]
fn parse_decimal_parts(text: &str) -> (r: Option<(i128, u32)>)
    ensures
        r == decimal_text_parts(text@),
{
    text.parse::<rust_decimal::Decimal>().ok().map(|d| (d.mantissa(), d.scale()))
}

/// Ten to the power `k`.
pub open spec fn pow10(k: nat) -> nat
    decreases k,
{
    if k == 0 { 1 } else { 10 * pow10((k - 1) as nat) }
}

fn checked_pow10(k: u32) -> (r: Option<i128>)
    ensures
        match r {
            Some(p) => p == pow10(k as nat) && pow10(k as nat) <= i128::MAX && p >= 1,
            None => pow10(k as nat) > i128::MAX,
        },
{
    let mut p: i128 = 1;
    let mut i: u32 = 0;
    while i < k
        invariant
            i <= k,
            p == pow10(i as nat),
            p <= i128::MAX,
            p >= 1,
        decreases k - i,
    {
        if p > i128::MAX / 10 {
            proof {
                lemma_pow10_grows(i as nat, k as nat);
            }
            return None;
        }
        p = p * 10;
        i = i + 1;
    }
    Some(p)
}

proof fn lemma_pow10_grows(a: nat, b: nat)
    requires
        a < b,
    ensures
        pow10(b) >= 10 * pow10(a),
    decreases b,
{
    if b > a + 1 {
        lemma_pow10_grows(a, (b - 1) as nat);
    }
}

/// The number of decimal digits of a natural number.
pub open spec fn digit_count(n: nat) -> nat
    decreases n,
{
    if n < 10 { 1 } else { 1 + digit_count(n / 10) }
}

fn count_decimal_digits(n: u128) -> (c: usize)
    ensures
        c == digit_count(n as nat),
    decreases n,
{
    if n < 10 {
        1
    } else {
        let c = count_decimal_digits(n / 10);
        proof {
            lemma_pow10_39();
            lemma_digit_count_bound(n as nat / 10, 39);
        }
        c + 1
    }
}

proof fn lemma_pow10_39()
    ensures
        pow10(39) > u128::MAX,
{
    reveal_with_fuel(pow10, 40);
    assert(pow10(39) == 1_000_000_000_000_000_000_000_000_000_000_000_000_000nat);
}

proof fn lemma_digit_count_bound(n: nat, k: nat)
    requires
        n < pow10(k),
        k >= 1,
    ensures
        digit_count(n) <= k,
    decreases k,
{
    if n >= 10 {
        if k == 1 {
            assert(pow10(0) == 1);
            assert(pow10(1) == 10);
        } else {
            lemma_digit_count_bound(n / 10, (k - 1) as nat);
        }
    }
}

/// What a decimal field becomes at the column's precision and scale, from
/// the mantissa and scale the text parsed to.
pub open spec fn rescaled_decimal(mantissa: i128, source_scale: u32, precision: u8, scale: i8) -> Result<
    i128,
    (&'static str, &'static str),
> {
    if scale < 0 {
        Err(("0A000", "negative Decimal128 COPY scale is unsupported"))
    } else {
        let target = scale as nat;
        let adjusted: Result<int, (&'static str, &'static str)> = if source_scale < target {
            let factor = pow10((target - source_scale) as nat);
            if factor > i128::MAX {
                Err(("22003", "COPY Decimal128 scale overflows"))
            } else if mantissa * factor < i128::MIN || mantissa * factor > i128::MAX {
                Err(("22003", "COPY Decimal128 value overflows"))
            } else {
                Ok(mantissa * factor)
            }
        } else if source_scale > target {
            let divisor = pow10((source_scale - target) as nat);
            if divisor > i128::MAX {
                Err(("22003", "COPY Decimal128 scale overflows"))
            } else if abs(mantissa as int) % (divisor as int) != 0 {
                Err(("22003", "COPY Decimal128 value exceeds the target scale"))
            } else {
                Ok(if mantissa < 0 { -(abs(mantissa as int) / (divisor as int)) } else { (mantissa as int) / (divisor as int) })
            }
        } else {
            Ok(mantissa as int)
        };
        match adjusted {
            Err(e) => Err(e),
            Ok(v) => if digit_count(abs(v) as nat) > precision {
                Err(("22003", "COPY Decimal128 value exceeds the target precision"))
            } else {
                Ok(v as i128)
            },
        }
    }
}

proof fn lemma_pow10_add(a: nat, b: nat)
    ensures
        pow10(a + b) == pow10(a) * pow10(b),
    decreases a,
{
    if a > 0 {
        lemma_pow10_add((a - 1) as nat, b);
        assert(pow10(a + b) == 10 * pow10((a - 1 + b) as nat));
        let x = pow10((a - 1) as nat);
        let y = pow10(b);
        assert(pow10(a) == 10 * x);
        assert(pow10((a - 1 + b) as nat) == x * y);
        assert(10 * (x * y) == (10 * x) * y) by (nonlinear_arith);
        assert(pow10(a + b) == pow10(a) * pow10(b));
    } else {
        assert(pow10(a) == 1);
        assert(a + b == b);
    }
}

/// Rescaling keeps a decimal's value: when a mantissa at one scale is
/// brought to the column's scale, the result at the column's scale stands
/// for the same number (`result * 10^source_scale == mantissa * 10^scale`)
/// and has at most the column's precision in digits; at the same scale a
/// value within the precision is kept as it is.
pub proof fn lemma_rescale_keeps_value(mantissa: i128, source_scale: u32, precision: u8, scale: i8)
    ensures
        rescaled_decimal(mantissa, source_scale, precision, scale) matches Ok(v) ==> v * pow10(source_scale as nat)
            == mantissa * pow10(scale as nat) && digit_count(abs(v as int) as nat) <= precision,
        scale >= 0 && source_scale == scale as u32 && digit_count(abs(mantissa as int) as nat) <= precision
            ==> rescaled_decimal(mantissa, source_scale, precision, scale) == Ok::<
            i128,
            (&'static str, &'static str),
        >(mantissa),
{
    if scale >= 0 {
        let t = scale as nat;
        let s = source_scale as nat;
        if s < t {
            lemma_pow10_add((t - s) as nat, s);
            let f = pow10((t - s) as nat);
            assert(mantissa * f * pow10(s) == mantissa * (f * pow10(s))) by (nonlinear_arith);
        } else if s > t {
            lemma_pow10_add((s - t) as nat, t);
            let d = pow10((s - t) as nat);
            let m = abs(mantissa as int);
            if d <= i128::MAX && m % (d as int) == 0 {
                assert(d >= 1) by {
                    lemma_pow10_positive((s - t) as nat);
                }
                vstd::arithmetic::div_mod::lemma_fundamental_div_mod(m, d as int);
                let q = m / (d as int);
                assert(m == d * q);
                let pt = pow10(t);
                if mantissa < 0 {
                    assert((-q) * (d * pt) == -(d * q) * pt) by (nonlinear_arith);
                } else {
                    assert(q * (d * pt) == (d * q) * pt) by (nonlinear_arith);
                }
            }
        }
    }
}

proof fn lemma_pow10_positive(k: nat)
    ensures
        pow10(k) >= 1,
    decreases k,
{
    if k > 0 {
        lemma_pow10_positive((k - 1) as nat);
    }
}

/// The absolute value of an integer.
pub open spec fn abs(v: int) -> int {
    if v < 0 { -v } else { v }
}

fn magnitude(v: i128) -> (m: u128)
    ensures
        m == abs(v as int),
{
    if v < 0 {
        ((-(v + 1)) as u128) + 1
    } else {
        v as u128
    }
}

/// Bring a parsed decimal to the column's precision and scale.
pub fn rescale_decimal(mantissa: i128, source_scale: u32, precision: u8, scale: i8) -> (r: Result<
    i128,
    CopyDecodeError,
>)
    ensures
        match rescaled_decimal(mantissa, source_scale, precision, scale) {
            Ok(v) => r matches Ok(w) && w == v,
            Err((state, message)) => fails_with(r, state, message),
        },
{
    if scale < 0 {
        return Err(copy_error("0A000", "negative Decimal128 COPY scale is unsupported"));
    }
    let target = scale as u32;
    let mut value = mantissa;
    if source_scale < target {
        let factor = match checked_pow10(target - source_scale) {
            Some(f) => f,
            None => return Err(copy_error("22003", "COPY Decimal128 scale overflows")),
        };
        value = match mantissa.checked_mul(factor) {
            Some(v) => v,
            None => return Err(copy_error("22003", "COPY Decimal128 value overflows")),
        };
    } else if source_scale > target {
        let divisor = match checked_pow10(source_scale - target) {
            Some(d) => d,
            None => return Err(copy_error("22003", "COPY Decimal128 scale overflows")),
        };
        let m = magnitude(mantissa);
        let d = divisor as u128;
        proof {
            lemma_pow10_grows(0, (source_scale - target) as nat);
        }
        assert(d >= 10);
        if m % d != 0 {
            return Err(copy_error("22003", "COPY Decimal128 value exceeds the target scale"));
        }
        let q = m / d;
        assert(q * 10 <= m) by (nonlinear_arith)
            requires
                q == m / d,
                d >= 10,
        ;
        value = if mantissa < 0 { -(q as i128) } else { q as i128 };
    }
    if count_decimal_digits(magnitude(value)) > precision as usize {
        return Err(copy_error("22003", "COPY Decimal128 value exceeds the target precision"));
    }
    Ok(value)
}

/// Parse a COPY Decimal128 field at the column's precision and scale.
pub fn parse_decimal(value: &[u8], precision: u8, scale: i8) -> (r: Result<i128, CopyDecodeError>)
    ensures
        !valid_utf8(value@) ==> fails_with(r, "22021", "COPY text must be valid UTF-8"),
        valid_utf8(value@) ==> match decimal_text_parts(decode_utf8(value@)) {
            None => fails_with(r, "22P02", "invalid COPY Decimal128 value"),
            Some((m, s)) => match rescaled_decimal(m, s, precision, scale) {
                Ok(v) => r matches Ok(w) && w == v,
                Err((state, message)) => fails_with(r, state, message),
            },
        },
{
    let text = field_text(value)?;
    proof {
        vstd::utf8::encode_utf8_decode_utf8(text@);
    }
    match parse_decimal_parts(text) {
        None => Err(copy_error("22P02", "invalid COPY Decimal128 value")),
        Some((m, s)) => rescale_decimal(m, s, precision, scale),
    }
}

/// What `chrono` reads from date text in the `%Y-%m-%d` format: the date's
/// day count from 1970-01-01, if the text is such a date.
pub uninterp spec fn date_text_days(text: Seq<char>) -> Option<i64>;

/// `chrono::NaiveDate::parse_from_str(text, "%Y-%m-%d")`, the date given as
/// its signed day count from the Unix epoch (`NaiveDate::to_epoch_days`).
/// Its contract only names the result: the parsing rules are the crate's.
#[verifier::external_body]
fn parse_date_days(text: &str) -> (r: Option<i64>)
    ensures
        r == date_text_days(text@),
{
    chrono::NaiveDate::parse_from_str(text, "%Y-%m-%d").ok().map(|d| d.to_epoch_days() as i64)
}

/// A Date32 value from the day count a date field parsed to.
pub fn date_from_days(days: Option<i64>) -> (r: Result<i32, CopyDecodeError>)
    ensures
        match days {
            None => fails_with(r, "22007", "invalid COPY Date32 value"),
            Some(d) => if i32::MIN <= d <= i32::MAX {
                r matches Ok(v) && v == d
            } else {
                fails_with(r, "22008", "COPY Date32 value is out of range")
            },
        },
{
    match days {
        None => Err(copy_error("22007", "invalid COPY Date32 value")),
        Some(d) => if i32::MIN as i64 <= d && d <= i32::MAX as i64 {
            Ok(d as i32)
        } else {
            Err(copy_error("22008", "COPY Date32 value is out of range"))
        },
    }
}

/// Parse a COPY Date32 field.
pub fn parse_date(value: &[u8]) -> (r: Result<i32, CopyDecodeError>)
    ensures
        !valid_utf8(value@) ==> fails_with(r, "22021", "COPY text must be valid UTF-8"),
        valid_utf8(value@) ==> match date_text_days(decode_utf8(value@)) {
            None => fails_with(r, "22007", "invalid COPY Date32 value"),
            Some(d) => if i32::MIN <= d <= i32::MAX {
                r matches Ok(v) && v == d
            } else {
                fails_with(r, "22008", "COPY Date32 value is out of range")
            },
        },
{
    let text = field_text(value)?;
    proof {
        vstd::utf8::encode_utf8_decode_utf8(text@);
    }
    date_from_days(parse_date_days(text))
}

/// What `chrono` reads from timestamp text in the `%Y-%m-%d %H:%M:%S%.f`
/// format: its microseconds from the Unix epoch, read as UTC, if the text is
/// such a timestamp.
pub uninterp spec fn timestamp_text_micros(text: Seq<char>) -> Option<i64>;

/// `chrono::NaiveDateTime::parse_from_str(text, "%Y-%m-%d %H:%M:%S%.f")`,
/// the timestamp given as UTC microseconds from the Unix epoch. Its contract
/// only names the result: the parsing rules are the crate's.
#[verifier::external_body]
fn parse_timestamp_micros(text: &str) -> (r: Option<i64>)
    ensures
        r == timestamp_text_micros(text@),
{
    chrono::NaiveDateTime::parse_from_str(text, "%Y-%m-%d %H:%M:%S%.f").ok().map(|t| t.and_utc().timestamp_micros())
}

/// A timestamp value from the microseconds a timestamp field parsed to.
pub fn timestamp_from_micros(micros: Option<i64>) -> (r: Result<i64, CopyDecodeError>)
    ensures
        match micros {
            None => fails_with(r, "22007", "invalid COPY Timestamp value"),
            Some(m) => r matches Ok(v) && v == m,
        },
{
    match micros {
        None => Err(copy_error("22007", "invalid COPY Timestamp value")),
        Some(m) => Ok(m),
    }
}

/// Parse a COPY timestamp field.
pub fn parse_timestamp(value: &[u8]) -> (r: Result<i64, CopyDecodeError>)
    ensures
        !valid_utf8(value@) ==> fails_with(r, "22021", "COPY text must be valid UTF-8"),
        valid_utf8(value@) ==> match timestamp_text_micros(decode_utf8(value@)) {
            None => fails_with(r, "22007", "invalid COPY Timestamp value"),
            Some(m) => r matches Ok(v) && v == m,
        },
{
    let text = field_text(value)?;
    proof {
        vstd::utf8::encode_utf8_decode_utf8(text@);
    }
    timestamp_from_micros(parse_timestamp_micros(text))
}

// ─── Rows of a batch ───────────────────────────────────────────────────────

/// A field's value: its raw bytes, or NULL.
pub type RawField = Option<Vec<u8>>;

pub open spec fn field_view(f: RawField) -> Option<Seq<u8>> {
    match f {
        Some(v) => Some(v@),
        None => None,
    }
}

pub open spec fn row_view(r: Vec<RawField>) -> Seq<Option<Seq<u8>>> {
    r@.map_values(|f: RawField| field_view(f))
}

pub open spec fn rows_view(rows: Seq<Vec<RawField>>) -> Seq<Seq<Option<Seq<u8>>>> {
    rows.map_values(|r: Vec<RawField>| row_view(r))
}

/// Complete rows waiting to become a batch, each with one raw field per
/// column.
#[derive(Debug)]
pub struct CopyRows {
    rows: Vec<Vec<RawField>>,
    columns: usize,
}

impl CopyRows {
    pub closed spec fn view_rows(&self) -> Seq<Seq<Option<Seq<u8>>>> {
        rows_view(self.rows@)
    }

    pub closed spec fn spec_columns(&self) -> nat {
        self.columns as nat
    }

    /// No rows, for a table of `columns` columns.
    pub fn new(columns: usize) -> (r: CopyRows)
        ensures
            r.view_rows() == Seq::<Seq<Option<Seq<u8>>>>::empty(),
            r.spec_columns() == columns,
    {
        let r = CopyRows { rows: Vec::new(), columns };
        assert(r.view_rows() =~= Seq::<Seq<Option<Seq<u8>>>>::empty());
        r
    }

    /// Rows given as owned values.
    pub fn from_owned(rows: Vec<Vec<RawField>>) -> (r: CopyRows)
        requires
            forall|i: int| 0 <= i < rows@.len() ==> (#[trigger] rows@[i])@.len() == rows@[0]@.len(),
        ensures
            r.view_rows() == rows_view(rows@),
            r.spec_columns() == if rows@.len() == 0 { 0 } else { rows@[0]@.len() },
    {
        let columns = if rows.len() == 0 { 0 } else { rows[0].len() };
        CopyRows { rows, columns }
    }

    pub fn columns(&self) -> (c: usize)
        ensures
            c == self.spec_columns(),
    {
        self.columns
    }

    pub fn len(&self) -> (n: usize)
        ensures
            n == self.view_rows().len(),
    {
        self.rows.len()
    }

    pub fn is_empty(&self) -> (b: bool)
        ensures
            b == (self.view_rows().len() == 0),
    {
        self.rows.len() == 0
    }

    /// The raw value of a field, or `None` for NULL.
    pub fn value(&self, row: usize, column: usize) -> (v: Option<&[u8]>)
        requires
            row < self.view_rows().len(),
            column < self.view_rows()[row as int].len(),
        ensures
            match v {
                Some(b) => self.view_rows()[row as int][column as int] == Some(b@),
                None => self.view_rows()[row as int][column as int] is None,
            },
    {
        let r = &self.rows[row];
        assert(row_view(*r) == self.view_rows()[row as int]);
        match &r[column] {
            Some(bytes) => Some(bytes.as_slice()),
            None => None,
        }
    }

    /// Move the rows from `row` on into a new set.
    pub fn split_off(&mut self, row: usize) -> (tail: CopyRows)
        requires
            row <= old(self).view_rows().len(),
        ensures
            final(self).view_rows() == old(self).view_rows().subrange(0, row as int),
            tail.view_rows() == old(self).view_rows().subrange(row as int, old(self).view_rows().len() as int),
            final(self).spec_columns() == old(self).spec_columns(),
            tail.spec_columns() == old(self).spec_columns(),
    {
        let ghost before = self.rows@;
        let tail = self.rows.split_off(row);
        assert(rows_view(self.rows@) =~= rows_view(before).subrange(0, row as int));
        assert(rows_view(tail@) =~= rows_view(before).subrange(row as int, before.len() as int));
        CopyRows { rows: tail, columns: self.columns }
    }

    /// The rows as owned values.
    pub fn into_rows(self) -> (rows: Vec<Vec<RawField>>)
        ensures
            rows_view(rows@) == self.view_rows(),
    {
        self.rows
    }
}

// ─── Incremental decoding ──────────────────────────────────────────────────

/// The decoder's state in mathematical terms.
#[verifier::ext_equal]
pub struct DecoderModel {
    /// Complete rows waiting to become a batch.
    pub rows: Seq<Seq<Option<Seq<u8>>>>,
    /// Completed fields of the row being read.
    pub row: Seq<Option<Seq<u8>>>,
    /// Bytes of the field being read.
    pub field: Seq<u8>,
    pub row_bytes: nat,
    pub batch_bytes: nat,
    pub row_number: nat,
    pub terminated: bool,
}

/// A decoding error: its SQLSTATE and message.
pub type ErrorModel = (Seq<char>, Seq<char>);

/// Counting `n` more bytes can stay below `usize::MAX` at most.
pub open spec fn saturating(total: nat) -> nat {
    if total > usize::MAX { usize::MAX as nat } else { total }
}

/// Count `n` more bytes of the row being read.
pub open spec fn add_row_bytes_spec(m: DecoderModel, limits: CopyBatchLimits, n: nat) -> Result<DecoderModel, ErrorModel> {
    let total = saturating(m.row_bytes + n);
    if total > limits.max_row_bytes {
        Err(("54000"@, "COPY row "@ + crate::sql_text::decimal(m.row_number) + " exceeds the configured byte limit"@))
    } else {
        Ok(DecoderModel { row_bytes: total, ..m })
    }
}

/// Add bytes to the field being read.
pub open spec fn extend_field_spec(m: DecoderModel, limits: CopyBatchLimits, bytes: Seq<u8>) -> Result<DecoderModel, ErrorModel> {
    match add_row_bytes_spec(m, limits, bytes.len()) {
        Ok(m2) => Ok(DecoderModel { field: m2.field + bytes, ..m2 }),
        Err(e) => Err(e),
    }
}

/// The marker of a NULL field.
pub open spec fn null_marker() -> Seq<u8> {
    seq![92u8, 78u8]
}

/// The end-of-data marker.
pub open spec fn end_marker() -> Seq<u8> {
    seq![92u8, 46u8]
}

/// End the field being read.
pub open spec fn finish_field_spec(m: DecoderModel, columns: nat) -> Result<DecoderModel, ErrorModel> {
    if m.row.len() >= columns {
        Err(("22P04"@, "COPY row "@ + crate::sql_text::decimal(m.row_number) + " has too many columns"@))
    } else {
        Ok(DecoderModel {
            row: m.row.push(if m.field == null_marker() { None } else { Some(m.field) }),
            field: Seq::empty(),
            ..m
        })
    }
}

/// End the row being read.
pub open spec fn finish_row_spec(m: DecoderModel, columns: nat) -> Result<DecoderModel, ErrorModel> {
    match finish_field_spec(m, columns) {
        Err(e) => Err(e),
        Ok(m2) => if m2.row.len() != columns {
            Err((
                "22P04"@,
                "COPY row "@ + crate::sql_text::decimal(m2.row_number) + " has "@ + crate::sql_text::decimal(
                    m2.row.len(),
                ) + " columns; expected "@ + crate::sql_text::decimal(columns),
            ))
        } else {
            Ok(DecoderModel {
                rows: m2.rows.push(m2.row),
                row: Seq::empty(),
                row_bytes: 0,
                batch_bytes: saturating(m2.batch_bytes + m2.row_bytes),
                row_number: m2.row_number + 1,
                ..m2
            })
        },
    }
}

/// Whether the pending rows make a full batch.
pub open spec fn should_flush_spec(m: DecoderModel, limits: CopyBatchLimits) -> bool {
    m.rows.len() >= limits.max_rows || m.batch_bytes >= limits.max_bytes
}

/// The first tab or line feed in `data` at or after `i`.
pub open spec fn first_delimiter(data: Seq<u8>, i: int) -> Option<int>
    decreases data.len() - i,
{
    if i < 0 || i >= data.len() {
        None
    } else if data[i] == 9 || data[i] == 10 {
        Some(i)
    } else {
        first_delimiter(data, i + 1)
    }
}

pub proof fn lemma_first_delimiter(data: Seq<u8>, i: int)
    ensures
        match first_delimiter(data, i) {
            Some(d) => 0 <= i <= d < data.len() && (data[d] == 9 || data[d] == 10) && forall|k: int|
                i <= k < d ==> data[k] != 9 && data[k] != 10,
            None => forall|k: int| 0 <= i <= k < data.len() ==> data[k] != 9 && data[k] != 10,
        },
    decreases data.len() - i,
{
    if 0 <= i < data.len() && !(data[i] == 9 || data[i] == 10) {
        lemma_first_delimiter(data, i + 1);
    }
}

/// What reading on from `offset` leads to.
pub enum PushOutcome {
    /// The data is consumed; the decoder waits for more.
    Consumed,
    /// A batch is full: its rows, and where reading resumes.
    Flushed(Seq<Seq<Option<Seq<u8>>>>, int),
}

/// What reading a field up to a delimiter leads to.
pub enum DelimiterStep {
    /// An error stops the stream.
    Failed(ErrorModel),
    /// The end-of-data marker was read.
    EndOfData,
    /// Reading goes on after the delimiter, in this state.
    Next(DecoderModel),
    /// A batch is full: the state after it is taken, and its rows.
    Full(DecoderModel, Seq<Seq<Option<Seq<u8>>>>),
}

/// Read the last `bytes` of a field and then its delimiter `delimiter`, a
/// tab or a line feed.
pub open spec fn delimiter_step(
    m: DecoderModel,
    limits: CopyBatchLimits,
    columns: nat,
    bytes: Seq<u8>,
    delimiter: u8,
) -> DelimiterStep {
    match extend_field_spec(m, limits, bytes) {
        Err(e) => DelimiterStep::Failed(e),
        Ok(m1) => match add_row_bytes_spec(m1, limits, 1) {
            Err(e) => DelimiterStep::Failed(e),
            Ok(m2) => if delimiter == 9 {
                match finish_field_spec(m2, columns) {
                    Err(e) => DelimiterStep::Failed(e),
                    Ok(m3) => DelimiterStep::Next(m3),
                }
            } else {
                let m3 = if m2.field.len() > 0 && m2.field.last() == 13 {
                    DecoderModel { field: m2.field.drop_last(), ..m2 }
                } else {
                    m2
                };
                if m3.row.len() == 0 && m3.field == end_marker() {
                    DelimiterStep::EndOfData
                } else {
                    match finish_row_spec(m3, columns) {
                        Err(e) => DelimiterStep::Failed(e),
                        Ok(m4) => if should_flush_spec(m4, limits) {
                            DelimiterStep::Full(DecoderModel { rows: Seq::empty(), batch_bytes: 0, ..m4 }, m4.rows)
                        } else {
                            DelimiterStep::Next(m4)
                        },
                    }
                }
            },
        },
    }
}

/// Read `data` from `offset` until it is consumed, a batch is full, or an
/// error stops it.
pub open spec fn push_spec(
    m: DecoderModel,
    limits: CopyBatchLimits,
    columns: nat,
    data: Seq<u8>,
    offset: int,
) -> Result<(DecoderModel, PushOutcome), ErrorModel>
    decreases data.len() - offset,
{
    if offset < 0 || offset >= data.len() {
        Ok((m, PushOutcome::Consumed))
    } else if m.terminated {
        Err(("22P04"@, "COPY data follows the end marker"@))
    } else {
        proof {
            lemma_first_delimiter(data, offset);
        }
        match first_delimiter(data, offset) {
            None => match extend_field_spec(m, limits, data.subrange(offset, data.len() as int)) {
                Ok(m2) => Ok((m2, PushOutcome::Consumed)),
                Err(e) => Err(e),
            },
            Some(d) => match delimiter_step(m, limits, columns, data.subrange(offset, d), data[d]) {
                DelimiterStep::Failed(e) => Err(e),
                DelimiterStep::EndOfData => Err(("22P04"@, "COPY data follows the end marker"@)),
                DelimiterStep::Full(m4, rows) => Ok((m4, PushOutcome::Flushed(rows, d + 1))),
                DelimiterStep::Next(m3) => push_spec(m3, limits, columns, data, d + 1),
            },
        }
    }
}

/// Whether reading `data` from `offset` stops at the end-of-data marker.
pub open spec fn push_ends_data(
    m: DecoderModel,
    limits: CopyBatchLimits,
    columns: nat,
    data: Seq<u8>,
    offset: int,
) -> bool
    decreases data.len() - offset,
{
    if offset < 0 || offset >= data.len() || m.terminated {
        false
    } else {
        proof {
            lemma_first_delimiter(data, offset);
        }
        match first_delimiter(data, offset) {
            None => false,
            Some(d) => match delimiter_step(m, limits, columns, data.subrange(offset, d), data[d]) {
                DelimiterStep::EndOfData => true,
                DelimiterStep::Next(m3) => push_ends_data(m3, limits, columns, data, d + 1),
                _ => false,
            },
        }
    }
}

/// `memchr::memchr2(b'\t', b'\n', &data[start..])`, the index it finds
/// given relative to the whole of `data`: the first tab or line feed at or
/// after `start`, if there is one.
#[verifier::external_body]
fn find_delimiter_from(data: &[u8], start: usize) -> (r: Option<usize>)
    requires
        start <= data@.len(),
    ensures
        match r {
            Some(i) => start <= i < data@.len() && (data@[i as int] == 9 || data@[i as int] == 10) && forall|k: int|
                start <= k < i ==> data@[k] != 9 && data@[k] != 10,
            None => forall|k: int| start <= k < data@.len() ==> data@[k] != 9 && data@[k] != 10,
        },
{
    memchr::memchr2(b'\t', b'\n', &data[start..]).map(|i| start + i)
}

/// A COPY decoding error as returned to the client.
pub open spec fn error_model(e: CopyDecodeError) -> ErrorModel {
    (e.sqlstate@, e.message@)
}

/// Whether what `push_from` returned, and the state it left, are what
/// reading was to lead to.
pub open spec fn push_result(
    r: Result<PushProgress, CopyDecodeError>,
    state: DecoderModel,
    columns: nat,
    expected: Result<(DecoderModel, PushOutcome), ErrorModel>,
) -> bool {
    match expected {
        Ok((m, outcome)) => state == m && match (r, outcome) {
            (Ok(PushProgress::Consumed), PushOutcome::Consumed) => true,
            (Ok(PushProgress::Flushed(batch, at)), PushOutcome::Flushed(rows, next)) => batch.view_rows() == rows
                && at == next && batch.spec_columns() == columns,
            _ => false,
        },
        Err(e) => match r {
            Err(x) => error_model(x) == e,
            Ok(_) => false,
        },
    }
}

/// The incremental decoder of one COPY stream.
pub struct CopyTextDecoder {
    columns: usize,
    limits: CopyBatchLimits,
    rows: Vec<Vec<RawField>>,
    row: Vec<RawField>,
    field: Vec<u8>,
    row_bytes: usize,
    batch_bytes: usize,
    row_number: usize,
    terminated: bool,
}

/// What a call of `push_from` produced.
pub enum PushProgress {
    /// The chunk is consumed.
    Consumed,
    /// A batch is full: its rows, and the offset where reading resumes.
    Flushed(CopyRows, usize),
}

impl CopyTextDecoder {
    pub closed spec fn model(&self) -> DecoderModel {
        DecoderModel {
            rows: rows_view(self.rows@),
            row: row_view(self.row),
            field: self.field@,
            row_bytes: self.row_bytes as nat,
            batch_bytes: self.batch_bytes as nat,
            row_number: self.row_number as nat,
            terminated: self.terminated,
        }
    }

    pub closed spec fn spec_columns(&self) -> nat {
        self.columns as nat
    }

    pub closed spec fn spec_limits(&self) -> CopyBatchLimits {
        self.limits
    }

    /// A decoder for a table of `columns` columns.
    pub fn new(columns: usize, limits: CopyBatchLimits) -> (r: Result<CopyTextDecoder, CopyDecodeError>)
        ensures
            limits.max_rows == 0 || limits.max_bytes == 0 || limits.max_row_bytes == 0 ==> fails_with(
                r,
                "22023",
                "COPY batch limits must be positive",
            ),
            limits.max_rows > 0 && limits.max_bytes > 0 && limits.max_row_bytes > 0 ==> (r matches Ok(d) && d.model()
                == (DecoderModel {
                rows: Seq::empty(),
                row: Seq::empty(),
                field: Seq::empty(),
                row_bytes: 0,
                batch_bytes: 0,
                row_number: 1,
                terminated: false,
            }) && d.spec_columns() == columns && d.spec_limits() == limits),
    {
        if limits.max_rows == 0 || limits.max_bytes == 0 || limits.max_row_bytes == 0 {
            return Err(copy_error("22023", "COPY batch limits must be positive"));
        }
        let d = CopyTextDecoder {
            columns,
            limits,
            rows: Vec::new(),
            row: Vec::new(),
            field: Vec::new(),
            row_bytes: 0,
            batch_bytes: 0,
            row_number: 1,
            terminated: false,
        };
        assert(d.model().rows =~= Seq::<Seq<Option<Seq<u8>>>>::empty());
        assert(d.model().row =~= Seq::<Option<Seq<u8>>>::empty());
        Ok(d)
    }

    fn add_row_bytes(&mut self, bytes: usize) -> (r: Result<(), CopyDecodeError>)
        ensures
            match add_row_bytes_spec(old(self).model(), old(self).limits, bytes as nat) {
                Ok(m) => r is Ok && final(self).model() == m,
                Err(e) => r matches Err(x) && error_model(x) == e,
            },
            final(self).columns == old(self).columns,
            final(self).limits == old(self).limits,
            final(self).row_number == old(self).row_number,
    {
        self.row_bytes = self.row_bytes.saturating_add(bytes);
        if self.row_bytes > self.limits.max_row_bytes {
            let mut message = String::from_str("COPY row ");
            crate::sql_text::push_decimal(&mut message, self.row_number as u64);
            message.append(" exceeds the configured byte limit");
            return Err(CopyDecodeError { sqlstate: "54000", message });
        }
        Ok(())
    }

    fn extend_field(&mut self, data: &[u8], from: usize, to: usize) -> (r: Result<(), CopyDecodeError>)
        requires
            from <= to <= data@.len(),
        ensures
            match extend_field_spec(old(self).model(), old(self).limits, data@.subrange(from as int, to as int)) {
                Ok(m) => r is Ok && final(self).model() == m,
                Err(e) => r matches Err(x) && error_model(x) == e,
            },
            final(self).columns == old(self).columns,
            final(self).limits == old(self).limits,
            final(self).row_number == old(self).row_number,
    {
        match self.add_row_bytes(to - from) {
            Ok(()) => {},
            Err(e) => return Err(e),
        }
        let ghost m1 = self.model();
        let mut i = from;
        while i < to
            invariant
                from <= i <= to <= data@.len(),
                self.model() == (DecoderModel { field: m1.field + data@.subrange(from as int, i as int), ..m1 }),
                self.columns == old(self).columns,
                self.limits == old(self).limits,
                self.row_number == old(self).row_number,
            decreases to - i,
        {
            self.field.push(data[i]);
            i = i + 1;
            assert(self.model() =~= DecoderModel { field: m1.field + data@.subrange(from as int, i as int), ..m1 });
        }
        Ok(())
    }

    fn finish_field(&mut self) -> (r: Result<(), CopyDecodeError>)
        ensures
            match finish_field_spec(old(self).model(), old(self).columns as nat) {
                Ok(m) => r is Ok && final(self).model() == m,
                Err(e) => r matches Err(x) && error_model(x) == e,
            },
            final(self).columns == old(self).columns,
            final(self).limits == old(self).limits,
            final(self).row_number == old(self).row_number,
    {
        if self.row.len() >= self.columns {
            let mut message = String::from_str("COPY row ");
            crate::sql_text::push_decimal(&mut message, self.row_number as u64);
            message.append(" has too many columns");
            return Err(CopyDecodeError { sqlstate: "22P04", message });
        }
        let mut value: Vec<u8> = Vec::new();
        std::mem::swap(&mut value, &mut self.field);
        let is_null = value.len() == 2 && value[0] == 92 && value[1] == 78;
        assert(is_null == (value@ == null_marker())) by {
            if value@.len() == 2 {
                if value@ == null_marker() {
                    assert(value@[0] == 92 && value@[1] == 78);
                }
                if value@[0] == 92 && value@[1] == 78 {
                    assert(value@ =~= null_marker());
                }
            }
        }
        let field: RawField = if is_null { None } else { Some(value) };
        let ghost before = self.row;
        self.row.push(field);
        assert(row_view(self.row) =~= row_view(before).push(field_view(field)));
        assert(self.model() =~= DecoderModel {
            row: old(self).model().row.push(if old(self).model().field == null_marker() {
                None
            } else {
                Some(old(self).model().field)
            }),
            field: Seq::empty(),
            ..old(self).model()
        });
        Ok(())
    }

    fn finish_row(&mut self) -> (r: Result<(), CopyDecodeError>)
        requires
            old(self).row_number < usize::MAX,
        ensures
            match finish_row_spec(old(self).model(), old(self).columns as nat) {
                Ok(m) => r is Ok && final(self).model() == m,
                Err(e) => r matches Err(x) && error_model(x) == e,
            },
            final(self).columns == old(self).columns,
            final(self).limits == old(self).limits,
            final(self).row_number <= old(self).row_number + 1,
    {
        match self.finish_field() {
            Ok(()) => {},
            Err(e) => return Err(e),
        }
        if self.row.len() != self.columns {
            let mut message = String::from_str("COPY row ");
            crate::sql_text::push_decimal(&mut message, self.row_number as u64);
            message.append(" has ");
            crate::sql_text::push_decimal(&mut message, self.row.len() as u64);
            message.append(" columns; expected ");
            crate::sql_text::push_decimal(&mut message, self.columns as u64);
            return Err(CopyDecodeError { sqlstate: "22P04", message });
        }
        let ghost m2 = self.model();
        self.batch_bytes = self.batch_bytes.saturating_add(self.row_bytes);
        self.row_bytes = 0;
        self.row_number = self.row_number + 1;
        let mut row: Vec<RawField> = Vec::new();
        std::mem::swap(&mut row, &mut self.row);
        let ghost before = self.rows@;
        self.rows.push(row);
        assert(rows_view(self.rows@) =~= rows_view(before).push(row_view(row)));
        assert(row_view(self.row) =~= Seq::<Option<Seq<u8>>>::empty());
        assert(self.model() =~= DecoderModel {
            rows: m2.rows.push(m2.row),
            row: Seq::empty(),
            row_bytes: 0,
            batch_bytes: saturating(m2.batch_bytes + m2.row_bytes),
            row_number: m2.row_number + 1,
            ..m2
        });
        Ok(())
    }

    fn take_rows(&mut self) -> (rows: CopyRows)
        ensures
            rows.view_rows() == old(self).model().rows,
            rows.spec_columns() == old(self).columns,
            final(self).model() == (DecoderModel { rows: Seq::empty(), batch_bytes: 0, ..old(self).model() }),
            final(self).columns == old(self).columns,
            final(self).limits == old(self).limits,
            final(self).row_number == old(self).row_number,
    {
        let mut rows: Vec<Vec<RawField>> = Vec::new();
        std::mem::swap(&mut rows, &mut self.rows);
        self.batch_bytes = 0;
        assert(rows_view(self.rows@) =~= Seq::<Seq<Option<Seq<u8>>>>::empty());
        CopyRows { rows, columns: self.columns }
    }

    /// Read `data` from `offset` on: until it is consumed, or until a batch
    /// is full, which is returned with the offset where reading resumes.
    pub fn push_from(&mut self, data: &[u8], offset: usize) -> (r: Result<PushProgress, CopyDecodeError>)
        requires
            offset <= data@.len(),
            old(self).model().row_number + (data@.len() - offset) < usize::MAX,
        ensures
            r matches Ok(PushProgress::Flushed(_, next)) ==> final(self).model().row_number
                <= old(self).model().row_number + (next - offset),
            old(self).model().terminated ==> final(self).model() == old(self).model(),
            push_ends_data(old(self).model(), old(self).spec_limits(), old(self).spec_columns(), data@, offset as int)
                ==> final(self).model().terminated,
            push_result(
                r,
                final(self).model(),
                old(self).spec_columns(),
                push_spec(old(self).model(), old(self).spec_limits(), old(self).spec_columns(), data@, offset as int),
            ),
            final(self).spec_columns() == old(self).spec_columns(),
            final(self).spec_limits() == old(self).spec_limits(),
    {
        let ghost target = push_spec(self.model(), self.limits, self.columns as nat, data@, offset as int);
        assert(target == push_spec(old(self).model(), old(self).spec_limits(), old(self).spec_columns(), data@, offset as int));
        let ghost start_row = self.row_number;
        let mut at = offset;
        loop
            invariant
                offset <= at <= data@.len(),
                self.columns == old(self).columns,
                self.limits == old(self).limits,
                push_spec(self.model(), self.limits, self.columns as nat, data@, at as int) == target,
                push_ends_data(self.model(), self.limits, self.columns as nat, data@, at as int) == push_ends_data(
                    old(self).model(),
                    old(self).spec_limits(),
                    old(self).spec_columns(),
                    data@,
                    offset as int,
                ),
                old(self).model().terminated ==> self.model() == old(self).model(),
                target == push_spec(old(self).model(), old(self).spec_limits(), old(self).spec_columns(), data@, offset as int),
                self.row_number <= start_row + (at - offset),
                start_row == old(self).row_number,
                start_row + (data@.len() - offset) < usize::MAX,
            decreases data@.len() - at,
        {
            if at >= data.len() {
                return Ok(PushProgress::Consumed);
            }
            if self.terminated {
                return Err(copy_error("22P04", "COPY data follows the end marker"));
            }
            proof {
                lemma_first_delimiter(data@, at as int);
            }
            match find_delimiter_from(data, at) {
                None => {
                    let len = data.len();
                    return match self.extend_field(data, at, len) {
                        Ok(()) => Ok(PushProgress::Consumed),
                        Err(e) => Err(e),
                    };
                },
                Some(d) => {
                    assert(first_delimiter(data@, at as int) == Some(d as int));
                    match self.extend_field(data, at, d) {
                        Ok(()) => {},
                        Err(e) => return Err(e),
                    }
                    match self.add_row_bytes(1) {
                        Ok(()) => {},
                        Err(e) => return Err(e),
                    }
                    if data[d] == 9 {
                        match self.finish_field() {
                            Ok(()) => {},
                            Err(e) => return Err(e),
                        }
                        at = d + 1;
                    } else {
                        let n = self.field.len();
                        if n > 0 && self.field[n - 1] == 13 {
                            let _ = self.field.pop();
                        }
                        let n = self.field.len();
                        let at_end = self.row.len() == 0 && n == 2 && self.field[0] == 92 && self.field[1] == 46;
                        assert(at_end == (self.model().row.len() == 0 && self.model().field == end_marker())) by {
                            if self.field@.len() == 2 {
                                if self.field@ == end_marker() {
                                    assert(self.field@[0] == 92 && self.field@[1] == 46);
                                }
                                if self.field@[0] == 92 && self.field@[1] == 46 {
                                    assert(self.field@ =~= end_marker());
                                }
                            }
                        }
                        if at_end {
                            self.field.clear();
                            self.row_bytes = 0;
                            self.terminated = true;
                            return Err(copy_error("22P04", "COPY data follows the end marker"));
                        }
                        match self.finish_row() {
                            Ok(()) => {},
                            Err(e) => return Err(e),
                        }
                        if self.rows.len() >= self.limits.max_rows || self.batch_bytes >= self.limits.max_bytes {
                            let rows = self.take_rows();
                            return Ok(PushProgress::Flushed(rows, d + 1));
                        }
                        at = d + 1;
                    }
                },
            }
        }
    }

    /// Read a whole chunk of COPY data, taking every batch that fills on the
    /// way.
    pub fn push(&mut self, data: &[u8]) -> (r: Result<Vec<CopyRows>, CopyDecodeError>)
        requires
            old(self).model().row_number + data@.len() < usize::MAX,
        ensures
            match decode_spec(old(self).model(), old(self).spec_limits(), old(self).spec_columns(), data@, 0) {
                Ok((m, batches)) => r matches Ok(v) && final(self).model() == m && v@.len() == batches.len()
                    && forall|k: int|
                    0 <= k < v@.len() ==> (#[trigger] v@[k]).view_rows() == batches[k] && v@[k].spec_columns()
                        == old(self).spec_columns(),
                Err(e) => r matches Err(x) && error_model(x) == e,
            },
            old(self).model().terminated ==> final(self).model() == old(self).model(),
            decode_ends_data(old(self).model(), old(self).spec_limits(), old(self).spec_columns(), data@, 0)
                ==> final(self).model().terminated,
            final(self).spec_columns() == old(self).spec_columns(),
            final(self).spec_limits() == old(self).spec_limits(),
    {
        let ghost start = self.model();
        let ghost start_row = self.model().row_number;
        let ghost limits = self.spec_limits();
        let ghost columns = self.spec_columns();
        let mut batches: Vec<CopyRows> = Vec::new();
        let ghost mut taken: Batches = Seq::empty();
        let mut at: usize = 0;
        loop
            invariant
                at <= data@.len(),
                self.spec_limits() == limits,
                self.spec_columns() == columns,
                limits == old(self).spec_limits(),
                columns == old(self).spec_columns(),
                start == old(self).model(),
                start_row == start.row_number,
                self.model().row_number <= start_row + at,
                start_row + data@.len() < usize::MAX,
                batches@.len() == taken.len(),
                forall|k: int|
                    0 <= k < batches@.len() ==> (#[trigger] batches@[k]).view_rows() == taken[k]
                        && batches@[k].spec_columns() == columns,
                decode_ends_data(self.model(), limits, columns, data@, at as int) == decode_ends_data(
                    start,
                    limits,
                    columns,
                    data@,
                    0,
                ),
                start.terminated ==> self.model() == start,
                decode_spec(start, limits, columns, data@, 0) == (match decode_spec(
                    self.model(),
                    limits,
                    columns,
                    data@,
                    at as int,
                ) {
                    Err(e) => Err(e),
                    Ok((m, later)) => Ok((m, taken + later)),
                }),
            decreases data@.len() - at,
        {
            proof {
                lemma_push_progress(self.model(), limits, columns, data@, at as int);
            }
            let ghost before = self.model();
            match self.push_from(data, at) {
                Err(e) => {
                    return Err(e);
                },
                Ok(PushProgress::Consumed) => {
                    assert(taken + Seq::<Seq<Seq<Option<Seq<u8>>>>>::empty() =~= taken);
                    return Ok(batches);
                },
                Ok(PushProgress::Flushed(rows, next)) => {
                    proof {
                        match decode_spec(self.model(), limits, columns, data@, next as int) {
                            Err(_) => {},
                            Ok((m, later)) => {
                                assert(taken + (seq![rows.view_rows()] + later) =~= taken.push(rows.view_rows())
                                    + later);
                            },
                        }
                        taken = taken.push(rows.view_rows());
                    }
                    batches.push(rows);
                    at = next;
                },
            }
        }
    }

    /// End the stream: complete a row left without its line feed, then give
    /// the pending rows as the last batch, if there are any.
    pub fn finish(&mut self) -> (r: Result<Option<CopyRows>, CopyDecodeError>)
        requires
            old(self).model().row_number < usize::MAX,
        ensures
            ({
                let m = old(self).model();
                let completed = if !m.terminated && (m.field.len() > 0 || m.row.len() > 0) {
                    finish_row_spec(m, old(self).spec_columns())
                } else {
                    Ok(m)
                };
                match completed {
                    Err(e) => r matches Err(x) && error_model(x) == e,
                    Ok(m2) => if m2.rows.len() == 0 {
                        r matches Ok(None) && final(self).model() == m2
                    } else {
                        r matches Ok(Some(batch)) && batch.view_rows() == m2.rows && batch.spec_columns()
                            == old(self).spec_columns() && final(self).model() == (DecoderModel {
                            rows: Seq::empty(),
                            batch_bytes: 0,
                            ..m2
                        })
                    },
                }
            }),
            final(self).spec_columns() == old(self).spec_columns(),
            final(self).spec_limits() == old(self).spec_limits(),
    {
        if !self.terminated && (self.field.len() > 0 || self.row.len() > 0) {
            match self.finish_row() {
                Ok(()) => {},
                Err(e) => return Err(e),
            }
        }
        if self.rows.len() == 0 {
            return Ok(None);
        }
        Ok(Some(self.take_rows()))
    }
}

// ─── Typed columns ─────────────────────────────────────────────────────────

/// How the fields of a column are decoded, by its Arrow type.
#[derive(Debug)]
pub enum CopyColumnKind {
    Boolean,
    Int16,
    Int32,
    Int64,
    Float32,
    Float64,
    Decimal128(u8, i8),
    Date32,
    TimestampMicros,
    Utf8,
    /// Binary; the flag allows bare PostGIS hex (spatial columns).
    Binary(bool),
    /// Any other type, by its name.
    Unsupported(String),
}

/// One decoded cell.
pub enum Cell {
    Null,
    Bool(bool),
    Int(int),
    Text(Seq<char>),
    Bytes(Seq<u8>),
}

/// A decoded value; NULL is `None` around it.
#[derive(Debug)]
pub enum CellValue {
    Bool(bool),
    Int16(i16),
    Int32(i32),
    Int64(i64),
    Decimal(i128),
    /// Text, also of floating-point fields, for the caller to parse.
    Text(String),
    Bytes(Vec<u8>),
}

/// The cell of a decoded value.
pub open spec fn value_cell(v: Option<CellValue>) -> Cell {
    match v {
        None => Cell::Null,
        Some(CellValue::Bool(b)) => Cell::Bool(b),
        Some(CellValue::Int16(x)) => Cell::Int(x as int),
        Some(CellValue::Int32(x)) => Cell::Int(x as int),
        Some(CellValue::Int64(x)) => Cell::Int(x as int),
        Some(CellValue::Decimal(x)) => Cell::Int(x as int),
        Some(CellValue::Text(t)) => Cell::Text(t@),
        Some(CellValue::Bytes(b)) => Cell::Bytes(b@),
    }
}

/// The error of a failed escape decoding.
pub open spec fn escape_error(f: EscapeFailure) -> ErrorModel {
    if f == EscapeFailure::TrailingBackslash {
        ("22P04"@, "COPY field ends with a backslash escape"@)
    } else {
        ("22P04"@, "COPY field has an invalid hex escape"@)
    }
}

pub open spec fn utf8_error() -> ErrorModel {
    ("22021"@, "COPY text must be valid UTF-8"@)
}

/// The cell a field's decoded text gives in a column of `kind`.
pub open spec fn text_cell(kind: CopyColumnKind, b: Seq<u8>) -> Result<Cell, ErrorModel> {
    match kind {
        CopyColumnKind::Boolean => if !valid_utf8(b) {
            Err(utf8_error())
        } else {
            match bool_of_text(b) {
                Some(v) => Ok(Cell::Bool(v)),
                None => Err(("22P02"@, "invalid COPY Boolean value"@)),
            }
        },
        CopyColumnKind::Int16 => if !is_i64_text(b) {
            Err(("22P02"@, "invalid COPY Int16 value"@))
        } else if i16::MIN <= signed_value(b) <= i16::MAX {
            Ok(Cell::Int(signed_value(b)))
        } else {
            Err(("22P02"@, "invalid COPY Int16 value"@))
        },
        CopyColumnKind::Int32 => if !is_i64_text(b) {
            Err(("22P02"@, "invalid COPY Int32 value"@))
        } else if i32::MIN <= signed_value(b) <= i32::MAX {
            Ok(Cell::Int(signed_value(b)))
        } else {
            Err(("22P02"@, "invalid COPY Int32 value"@))
        },
        CopyColumnKind::Int64 => if !is_i64_text(b) {
            Err(("22P02"@, "invalid COPY Int64 value"@))
        } else {
            Ok(Cell::Int(signed_value(b)))
        },
        CopyColumnKind::Float32 | CopyColumnKind::Float64 | CopyColumnKind::Utf8 => if !valid_utf8(b) {
            Err(utf8_error())
        } else {
            Ok(Cell::Text(decode_utf8(b)))
        },
        CopyColumnKind::Decimal128(precision, scale) => if !valid_utf8(b) {
            Err(utf8_error())
        } else {
            match decimal_text_parts(decode_utf8(b)) {
                None => Err(("22P02"@, "invalid COPY Decimal128 value"@)),
                Some((m, sc)) => match rescaled_decimal(m, sc, precision, scale) {
                    Ok(v) => Ok(Cell::Int(v as int)),
                    Err((state, message)) => Err((state@, message@)),
                },
            }
        },
        CopyColumnKind::Date32 => if !valid_utf8(b) {
            Err(utf8_error())
        } else {
            match date_text_days(decode_utf8(b)) {
                None => Err(("22007"@, "invalid COPY Date32 value"@)),
                Some(d) => if i32::MIN <= d <= i32::MAX {
                    Ok(Cell::Int(d as int))
                } else {
                    Err(("22008"@, "COPY Date32 value is out of range"@))
                },
            }
        },
        CopyColumnKind::TimestampMicros => if !valid_utf8(b) {
            Err(utf8_error())
        } else {
            match timestamp_text_micros(decode_utf8(b)) {
                None => Err(("22007"@, "invalid COPY Timestamp value"@)),
                Some(m) => Ok(Cell::Int(m as int)),
            }
        },
        CopyColumnKind::Binary(allow) => match hex_digits_of(b, allow) {
            None => Err(("22P02"@, "COPY binary value must use \\x hex format"@)),
            Some(hex) => if hex.len() % 2 != 0 || valid_pairs(hex) < hex.len() / 2 {
                Err(("22P02"@, "COPY binary value contains invalid hex"@))
            } else {
                Ok(Cell::Bytes(pair_bytes(hex, valid_pairs(hex))))
            },
        },
        CopyColumnKind::Unsupported(name) => Err(("0A000"@, "unsupported DuckDB COPY Arrow type "@ + name@)),
    }
}

/// Whether binary fields of a column keep the single-backslash hex form.
pub open spec fn keeps_legacy_hex(kind: CopyColumnKind) -> bool {
    kind is Binary
}

/// The cell of a raw field in a column of `kind`.
pub open spec fn cell_of(kind: CopyColumnKind, raw: Option<Seq<u8>>) -> Result<Cell, ErrorModel> {
    match raw {
        None => Ok(Cell::Null),
        Some(r) => match decoded_field(r, keeps_legacy_hex(kind)) {
            Err(f) => Err(escape_error(f)),
            Ok(b) => text_cell(kind, b),
        },
    }
}

/// The cells of a column of rows from row `i` on, or the first error.
pub open spec fn cells_from(rows: Seq<Seq<Option<Seq<u8>>>>, column: int, kind: CopyColumnKind, i: int) -> Result<Seq<Cell>, ErrorModel>
    decreases rows.len() - i,
{
    if i < 0 || i >= rows.len() {
        Ok(Seq::empty())
    } else {
        match cell_of(kind, rows[i][column]) {
            Err(e) => Err(e),
            Ok(c) => match cells_from(rows, column, kind, i + 1) {
                Err(e) => Err(e),
                Ok(rest) => Ok(seq![c] + rest),
            },
        }
    }
}

/// Whether every field of a column can be unescaped without an octal escape
/// above 255.
pub open spec fn column_decodable(rows: Seq<Seq<Option<Seq<u8>>>>, column: int, kind: CopyColumnKind) -> bool {
    forall|i: int| 0 <= i < rows.len() ==> match #[trigger] rows[i][column] {
        Some(r) => escapes_decodable(r, keeps_legacy_hex(kind)),
        None => true,
    }
}

/// Whether every field of a column can be unescaped.
pub fn column_escapes_decodable(rows: &CopyRows, column: usize, kind: &CopyColumnKind) -> (r: bool)
    requires
        forall|i: int| 0 <= i < rows.view_rows().len() ==> column < (#[trigger] rows.view_rows()[i]).len(),
    ensures
        r == column_decodable(rows.view_rows(), column as int, *kind),
{
    let preserve = match kind {
        CopyColumnKind::Binary(_) => true,
        _ => false,
    };
    let mut i: usize = 0;
    while i < rows.len()
        invariant
            i <= rows.view_rows().len(),
            preserve == keeps_legacy_hex(*kind),
            forall|k: int| 0 <= k < rows.view_rows().len() ==> column < (#[trigger] rows.view_rows()[k]).len(),
            forall|k: int| 0 <= k < i ==> match #[trigger] rows.view_rows()[k][column as int] {
                Some(r) => escapes_decodable(r, preserve),
                None => true,
            },
        decreases rows.view_rows().len() - i,
    {
        match rows.value(i, column) {
            Some(raw) => {
                if !escapes_decodable_exec(raw, preserve) {
                    assert(rows.view_rows()[i as int][column as int] == Some(raw@));
                    return false;
                }
            },
            None => {},
        }
        i = i + 1;
    }
    true
}

fn escapes_decodable_exec(raw: &[u8], preserve: bool) -> (r: bool)
    ensures
        r == escapes_decodable(raw@, preserve),
{
    if preserve && legacy_hex(raw) {
        return true;
    }
    let mut index: usize = 0;
    while index < raw.len()
        invariant
            index <= raw@.len(),
            !(preserve && is_legacy_hex(raw@)),
            (unescape_from(raw@, 0) == Err::<Seq<u8>, EscapeFailure>(EscapeFailure::OctalOverflow)) == (
            unescape_from(raw@, index as int) == Err::<Seq<u8>, EscapeFailure>(EscapeFailure::OctalOverflow)),
        decreases raw.len() - index,
    {
        if raw[index] != 92 {
            index = index + 1;
            continue;
        }
        if index + 1 >= raw.len() {
            return true;
        }
        let j = index + 1;
        let e = raw[j];
        assert(unescape_from(raw@, index as int) == unescape_escape(raw@, j as int));
        if e == 120 {
            let n = count_digits(raw, j + 1, 2, false);
            if n == 0 {
                return true;
            }
            index = j + 1 + n;
        } else if 48 <= e && e <= 55 {
            let n = count_digits(raw, j, 3, true);
            proof {
                lemma_digit_run_digits(raw@, j as int, 3, true);
                lemma_digit_run_bounds(raw@, j as int, 3, true);
            }
            let v = digits_value_at(raw, j, n, true);
            if v > 255 {
                return false;
            }
            index = j + n;
        } else {
            index = j + 1;
        }
    }
    true
}

fn cell_text(bytes: &[u8]) -> (r: Result<String, CopyDecodeError>)
    ensures
        match r {
            Ok(t) => valid_utf8(bytes@) && t@ == decode_utf8(bytes@),
            Err(e) => !valid_utf8(bytes@) && error_model(e) == utf8_error(),
        },
{
    match field_text(bytes) {
        Ok(text) => {
            proof {
                vstd::utf8::encode_utf8_decode_utf8(text@);
            }
            Ok(text.to_owned())
        },
        Err(e) => Err(e),
    }
}

fn decode_cell(kind: &CopyColumnKind, raw: &[u8], scratch: &mut Vec<u8>) -> (r: Result<CellValue, CopyDecodeError>)
    requires
        escapes_decodable(raw@, keeps_legacy_hex(*kind)),
        !(kind is Unsupported),
    ensures
        match cell_of(*kind, Some(raw@)) {
            Ok(c) => r matches Ok(v) && value_cell(Some(v)) == c,
            Err(e) => r matches Err(x) && error_model(x) == e,
        },
{
    let preserve = match kind {
        CopyColumnKind::Binary(_) => true,
        _ => false,
    };
    let decoded = match decode_copy_field(raw, preserve) {
        Ok(d) => d,
        Err(e) => return Err(e),
    };
    let ghost b = decoded@;
    assert(decoded_field(raw@, keeps_legacy_hex(*kind)) == Ok::<Seq<u8>, EscapeFailure>(b));
    let bytes = decoded.as_slice();
    match kind {
        CopyColumnKind::Boolean => match parse_bool(bytes) {
            Ok(v) => Ok(CellValue::Bool(v)),
            Err(e) => Err(e),
        },
        CopyColumnKind::Int16 => match parse_integer(bytes, "Int16") {
            Ok(v) => if -32768 <= v && v <= 32767 {
                Ok(CellValue::Int16(v as i16))
            } else {
                Err(copy_error("22P02", "invalid COPY Int16 value"))
            },
            Err(e) => {
                proof {
                    reveal_strlit("invalid COPY ");
                    reveal_strlit("Int16");
                    reveal_strlit(" value");
                    reveal_strlit("invalid COPY Int16 value");
                }
                assert(e.message@ =~= "invalid COPY Int16 value"@);
                Err(e)
            },
        },
        CopyColumnKind::Int32 => match parse_integer(bytes, "Int32") {
            Ok(v) => if -2147483648 <= v && v <= 2147483647 {
                Ok(CellValue::Int32(v as i32))
            } else {
                Err(copy_error("22P02", "invalid COPY Int32 value"))
            },
            Err(e) => {
                proof {
                    reveal_strlit("invalid COPY ");
                    reveal_strlit("Int32");
                    reveal_strlit(" value");
                    reveal_strlit("invalid COPY Int32 value");
                }
                assert(e.message@ =~= "invalid COPY Int32 value"@);
                Err(e)
            },
        },
        CopyColumnKind::Int64 => match parse_integer(bytes, "Int64") {
            Ok(v) => Ok(CellValue::Int64(v)),
            Err(e) => {
                proof {
                    reveal_strlit("invalid COPY ");
                    reveal_strlit("Int64");
                    reveal_strlit(" value");
                    reveal_strlit("invalid COPY Int64 value");
                }
                assert(e.message@ =~= "invalid COPY Int64 value"@);
                Err(e)
            },
        },
        CopyColumnKind::Float32 | CopyColumnKind::Float64 | CopyColumnKind::Utf8 => match cell_text(bytes) {
            Ok(t) => Ok(CellValue::Text(t)),
            Err(e) => Err(e),
        },
        CopyColumnKind::Decimal128(precision, scale) => match parse_decimal(bytes, *precision, *scale) {
            Ok(v) => Ok(CellValue::Decimal(v)),
            Err(e) => Err(e),
        },
        CopyColumnKind::Date32 => match parse_date(bytes) {
            Ok(v) => Ok(CellValue::Int32(v)),
            Err(e) => Err(e),
        },
        CopyColumnKind::TimestampMicros => match parse_timestamp(bytes) {
            Ok(v) => Ok(CellValue::Int64(v)),
            Err(e) => Err(e),
        },
        CopyColumnKind::Binary(allow) => {
            proof {
                if let Some(hex) = hex_digits_of(b, *allow) {
                    lemma_valid_pairs_bound(hex);
                }
            }
            match parse_hex_into(bytes, scratch, *allow) {
            Ok(()) => {
                proof {
                    if let Some(hex) = hex_digits_of(b, *allow) {
                        lemma_valid_pairs_bound(hex);
                    }
                }
                let out = copy_bytes(scratch.as_slice());
                Ok(CellValue::Bytes(out))
            },
            Err(e) => Err(e),
        }},
        CopyColumnKind::Unsupported(_) => Err(copy_error("0A000", "unsupported")),
    }
}

/// What decoding a column gives: an unsupported type fails outright;
/// otherwise the cells of every row, or the first row's error.
pub open spec fn column_result(rows: Seq<Seq<Option<Seq<u8>>>>, column: int, kind: CopyColumnKind) -> Result<Seq<Cell>, ErrorModel> {
    match kind {
        CopyColumnKind::Unsupported(name) => Err(("0A000"@, "unsupported DuckDB COPY Arrow type "@ + name@)),
        _ => cells_from(rows, column, kind, 0),
    }
}

/// Decode the fields of one column of a batch into typed values.
pub fn decode_column(rows: &CopyRows, column: usize, kind: &CopyColumnKind) -> (r: Result<
    Vec<Option<CellValue>>,
    CopyDecodeError,
>)
    requires
        forall|i: int| 0 <= i < rows.view_rows().len() ==> column < (#[trigger] rows.view_rows()[i]).len(),
        column_decodable(rows.view_rows(), column as int, *kind),
    ensures
        match column_result(rows.view_rows(), column as int, *kind) {
            Ok(cells) => r matches Ok(v) && v@.map_values(|c: Option<CellValue>| value_cell(c)) == cells,
            Err(e) => r matches Err(x) && error_model(x) == e,
        },
{
    if let CopyColumnKind::Unsupported(name) = kind {
        let mut message = String::from_str("unsupported DuckDB COPY Arrow type ");
        message.append(name.as_str());
        return Err(CopyDecodeError { sqlstate: "0A000", message });
    }
    let ghost all = rows.view_rows();
    let ghost target = cells_from(all, column as int, *kind, 0);
    let mut values: Vec<Option<CellValue>> = Vec::new();
    let mut scratch: Vec<u8> = Vec::new();
    let mut i: usize = 0;
    while i < rows.len()
        invariant
            all == rows.view_rows(),
            i <= all.len(),
            !(*kind is Unsupported),
            target == cells_from(all, column as int, *kind, 0),
            forall|k: int| 0 <= k < all.len() ==> column < (#[trigger] all[k]).len(),
            column_decodable(all, column as int, *kind),
            match cells_from(all, column as int, *kind, i as int) {
                Ok(rest) => target == Ok::<Seq<Cell>, ErrorModel>(
                    values@.map_values(|c: Option<CellValue>| value_cell(c)) + rest,
                ),
                Err(e) => target == Err::<Seq<Cell>, ErrorModel>(e),
            },
        decreases all.len() - i,
    {
        let ghost before = values@.map_values(|c: Option<CellValue>| value_cell(c));
        match rows.value(i, column) {
            Some(raw) => {
                assert(all[i as int][column as int] == Some(raw@));
                match decode_cell(kind, raw, &mut scratch) {
                    Ok(v) => values.push(Some(v)),
                    Err(e) => return Err(e),
                }
            },
            None => values.push(None),
        }
        assert(values@.map_values(|c: Option<CellValue>| value_cell(c)) =~= before.push(
            value_cell(values@.last()),
        ));
        i = i + 1;
        proof {
            match cells_from(all, column as int, *kind, i as int) {
                Ok(rest) => {
                    assert(values@.map_values(|c: Option<CellValue>| value_cell(c)) + rest =~= before + (seq![
                        value_cell(values@.last()),
                    ] + rest));
                },
                Err(_) => {},
            }
        }
    }
    Ok(values)
}

// ─── Batch limits ──────────────────────────────────────────────────────────

/// What to do with a batch built from `rows` rows whose arrays take
/// `memory_bytes`: keep it (`None`), split its rows at the returned index,
/// or give up when a single row is over the limit.
pub fn batch_split(memory_bytes: usize, max_bytes: usize, rows: usize) -> (r: Result<Option<usize>, CopyDecodeError>)
    requires
        rows > 0,
    ensures
        memory_bytes <= max_bytes ==> r matches Ok(None),
        memory_bytes > max_bytes && rows == 1 ==> fails_with(
            r,
            "54000",
            "one COPY row exceeds the configured Arrow batch byte limit",
        ),
        memory_bytes > max_bytes && rows > 1 ==> r == Ok::<Option<usize>, CopyDecodeError>(Some((rows / 2) as usize)),
{
    if memory_bytes <= max_bytes {
        return Ok(None);
    }
    if rows == 1 {
        return Err(copy_error("54000", "one COPY row exceeds the configured Arrow batch byte limit"));
    }
    Ok(Some(rows / 2))
}

/// Refuse a data chunk larger than one batch may be.
pub fn check_chunk_size(chunk_bytes: usize, max_bytes: usize) -> (r: Result<(), CopyDecodeError>)
    ensures
        chunk_bytes <= max_bytes ==> r is Ok,
        chunk_bytes > max_bytes ==> fails_with(r, "54000", "one COPY data chunk exceeds the configured batch byte limit"),
{
    if chunk_bytes > max_bytes {
        Err(copy_error("54000", "one COPY data chunk exceeds the configured batch byte limit"))
    } else {
        Ok(())
    }
}

/// What a COPY has taken in so far, each total stopping at `usize::MAX`.
#[derive(Clone, Copy, Debug, PartialEq, Eq)]
pub struct CopyTotals {
    pub rows: usize,
    pub bytes: usize,
    pub batches: usize,
}

/// `total + n`, stopping at `usize::MAX`.
pub open spec fn capped(total: usize, n: usize) -> usize {
    if total + n > usize::MAX { usize::MAX } else { (total + n) as usize }
}

impl CopyTotals {
    pub fn new() -> (t: CopyTotals)
        ensures
            t == (CopyTotals { rows: 0, bytes: 0, batches: 0 }),
    {
        CopyTotals { rows: 0, bytes: 0, batches: 0 }
    }

    /// Count a data chunk of `bytes` bytes that produced `batches` batches
    /// holding `rows` rows.
    pub fn record_chunk(&mut self, bytes: usize, batches: usize, rows: usize)
        ensures
            *final(self) == (CopyTotals {
                rows: capped(old(self).rows, rows),
                bytes: capped(old(self).bytes, bytes),
                batches: capped(old(self).batches, batches),
            }),
    {
        self.bytes = self.bytes.saturating_add(bytes);
        self.batches = self.batches.saturating_add(batches);
        self.rows = self.rows.saturating_add(rows);
    }
}

/// Refuse a data chunk that has produced more batches than one chunk may.
pub fn check_chunk_batches(batches: usize) -> (r: Result<(), CopyDecodeError>)
    ensures
        batches <= MAX_BATCHES_PER_COPY_CHUNK ==> r is Ok,
        batches > MAX_BATCHES_PER_COPY_CHUNK ==> fails_with(
            r,
            "54000",
            "one COPY data chunk produces too many Arrow batches",
        ),
{
    if batches > MAX_BATCHES_PER_COPY_CHUNK {
        Err(copy_error("54000", "one COPY data chunk produces too many Arrow batches"))
    } else {
        Ok(())
    }
}

} // verus!
