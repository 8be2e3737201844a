//! What COPY text fields read back as: the typed value of each field of a
//! column, field by field, and the round trips of the text forms of
//! integers, Booleans, escapes and binary values.
use vstd::prelude::*;

use crate::copy_text::{
    bool_of_text, cell_of, cells_from, false_spelling, lemma_bool_spellings, signed_value, text_cell, true_spelling,
    Cell, CopyColumnKind, ErrorModel,
};
use crate::mvt::{digits_value, is_digit, is_i64_text};
use crate::sql_text::{decimal, digit_char};

verus! {

/// The ASCII bytes of a natural number in decimal.
pub open spec fn decimal_bytes(n: nat) -> Seq<u8> {
    decimal(n).map_values(|c: char| c as u8)
}

proof fn lemma_decimal_bytes_value(n: nat)
    ensures
        decimal_bytes(n).len() > 0,
        forall|i: int| 0 <= i < decimal_bytes(n).len() ==> is_digit(#[trigger] decimal_bytes(n)[i]),
        digits_value(decimal_bytes(n)) == n,
    decreases n,
{
    let d = (n % 10) as nat;
    assert((digit_char(d) as u8) == 48 + d);
    if n >= 10 {
        lemma_decimal_bytes_value(n / 10);
        let c = digit_char(d) as u8;
        assert(decimal(n) == decimal(n / 10).push(digit_char(d)));
        assert(decimal_bytes(n) =~= decimal_bytes(n / 10).push(c));
        assert(decimal_bytes(n).drop_last() =~= decimal_bytes(n / 10));
        assert(decimal_bytes(n).last() == c);
        assert(n == (n / 10) * 10 + d);
        assert(digits_value(decimal_bytes(n)) == digits_value(decimal_bytes(n).drop_last()) * 10 + (
        decimal_bytes(n).last() - 48) as nat);
    } else {
        assert(n == d);
        assert(decimal(n) == seq![digit_char(n)]);
        assert(decimal_bytes(n) =~= seq![digit_char(n) as u8]);
        assert(decimal_bytes(n).drop_last() =~= Seq::<u8>::empty());
        assert(digits_value(decimal_bytes(n)) == digits_value(decimal_bytes(n).drop_last()) * 10 + (
        decimal_bytes(n).last() - 48) as nat);
    }
}

/// Integer text reads back as the number it writes: for every `i64`, its
/// decimal text, with a `-` before a negative number, is accepted and has
/// that value; a `+` before a non-negative number changes nothing.
pub proof fn lemma_integer_text_round_trip(n: i64)
    ensures
        n < 0 ==> is_i64_text(seq![45u8] + decimal_bytes((-n) as nat)) && signed_value(
            seq![45u8] + decimal_bytes((-n) as nat),
        ) == n,
        n >= 0 ==> is_i64_text(decimal_bytes(n as nat)) && signed_value(decimal_bytes(n as nat)) == n,
        n >= 0 ==> is_i64_text(seq![43u8] + decimal_bytes(n as nat)) && signed_value(
            seq![43u8] + decimal_bytes(n as nat),
        ) == n,
{
    if n < 0 {
        let m = (-n) as nat;
        lemma_decimal_bytes_value(m);
        let t = seq![45u8] + decimal_bytes(m);
        assert(t.skip(1) =~= decimal_bytes(m));
    } else {
        let m = n as nat;
        lemma_decimal_bytes_value(m);
        let b = decimal_bytes(m);
        assert(b.skip(0) =~= b);
        assert(is_digit(b[0]));
        let t = seq![43u8] + b;
        assert(t.skip(1) =~= b);
    }
}

/// The cells of a column are the cells of its fields, row by row: the
/// column decodes exactly when every field does, to one cell per row in
/// row order, and a failing column fails with the error of its first
/// failing field.
pub proof fn lemma_column_cells_row_by_row(
    rows: Seq<Seq<Option<Seq<u8>>>>,
    column: int,
    kind: CopyColumnKind,
    i: int,
)
    requires
        0 <= i <= rows.len(),
    ensures
        (forall|k: int| i <= k < rows.len() ==> #[trigger] cell_of(kind, rows[k][column]) is Ok) ==> cells_from(
            rows,
            column,
            kind,
            i,
        ) is Ok,
        cells_from(rows, column, kind, i) matches Ok(cells) ==> cells.len() == rows.len() - i && forall|k: int|
            i <= k < rows.len() ==> cell_of(kind, rows[k][column]) == Ok::<Cell, ErrorModel>(
                #[trigger] cells[k - i],
            ),
        cells_from(rows, column, kind, i) matches Err(e) ==> exists|k: int|
            i <= k < rows.len() && #[trigger] cell_of(kind, rows[k][column]) == Err::<Cell, ErrorModel>(e) && forall|
                j: int,
            |
                i <= j < k ==> cell_of(kind, rows[j][column]) is Ok,
    decreases rows.len() - i,
{
    if i < rows.len() {
        lemma_column_cells_row_by_row(rows, column, kind, i + 1);
        match cell_of(kind, rows[i][column]) {
            Err(e) => {
                assert(cell_of(kind, rows[i][column]) == Err::<Cell, ErrorModel>(e));
            },
            Ok(c) => {
                match cells_from(rows, column, kind, i + 1) {
                    Ok(rest) => {
                        let cells = seq![c] + rest;
                        assert forall|k: int| i <= k < rows.len() implies cell_of(kind, rows[k][column]) == Ok::<
                            Cell,
                            ErrorModel,
                        >(#[trigger] cells[k - i]) by {
                            if k > i {
                                assert(cells[k - i] == rest[k - (i + 1)]);
                            }
                        }
                    },
                    Err(e) => {
                        let k = choose|k: int|
                            i + 1 <= k < rows.len() && #[trigger] cell_of(kind, rows[k][column]) == Err::<
                                Cell,
                                ErrorModel,
                            >(e) && forall|j: int| i + 1 <= j < k ==> cell_of(kind, rows[j][column]) is Ok;
                        assert(forall|j: int| i <= j < k ==> cell_of(kind, rows[j][column]) is Ok);
                    },
                }
            },
        }
    }
}

/// Typed fields read back as written: a Boolean field in any true
/// spelling is true and in any false spelling false; an integer field
/// holding the decimal text of a number that fits the column is that
/// number, in 16-, 32- and 64-bit columns alike.
pub proof fn lemma_typed_fields_read_back(b: Seq<u8>, n: i64)
    ensures
        true_spelling(b) ==> text_cell(CopyColumnKind::Boolean, b) == Ok::<Cell, ErrorModel>(Cell::Bool(true)),
        false_spelling(b) ==> text_cell(CopyColumnKind::Boolean, b) == Ok::<Cell, ErrorModel>(Cell::Bool(false)),
        n >= 0 ==> text_cell(CopyColumnKind::Int64, decimal_bytes(n as nat)) == Ok::<Cell, ErrorModel>(
            Cell::Int(n as int),
        ),
        n < 0 ==> text_cell(CopyColumnKind::Int64, seq![45u8] + decimal_bytes((-n) as nat)) == Ok::<
            Cell,
            ErrorModel,
        >(Cell::Int(n as int)),
        0 <= n <= i32::MAX ==> text_cell(CopyColumnKind::Int32, decimal_bytes(n as nat)) == Ok::<Cell, ErrorModel>(
            Cell::Int(n as int),
        ),
        0 <= n <= i16::MAX ==> text_cell(CopyColumnKind::Int16, decimal_bytes(n as nat)) == Ok::<Cell, ErrorModel>(
            Cell::Int(n as int),
        ),
{
    lemma_bool_spellings(b);
    lemma_integer_text_round_trip(n);
}

} // verus!
