//! What a whole COPY stream decodes to, and the law that where the stream
//! is cut into chunks makes no difference to it.
use vstd::prelude::*;

use crate::copy_text::{
    delimiter_step, extend_field_spec, first_delimiter, lemma_first_delimiter, push_ends_data, push_spec,
    CopyBatchLimits,
    DecoderModel, DelimiterStep, ErrorModel, PushOutcome,
};

verus! {

/// Batches of complete rows, in the order they were flushed.
pub type Batches = Seq<Seq<Seq<Option<Seq<u8>>>>>;

/// A batch flushed while reading from `offset` leaves reading to resume
/// after `offset`, inside the data.
pub proof fn lemma_push_progress(
    m: DecoderModel,
    limits: CopyBatchLimits,
    columns: nat,
    data: Seq<u8>,
    offset: int,
)
    ensures
        push_spec(m, limits, columns, data, offset) matches Ok((_, PushOutcome::Flushed(_, next))) ==> offset
            < next <= data.len(),
    decreases data.len() - offset,
{
    if 0 <= offset < data.len() && !m.terminated {
        lemma_first_delimiter(data, offset);
        if let Some(d) = first_delimiter(data, offset) {
            if let DelimiterStep::Next(m3) = delimiter_step(m, limits, columns, data.subrange(offset, d), data[d]) {
                lemma_push_progress(m3, limits, columns, data, d + 1);
            }
        }
    }
}

/// Read `data` from `offset` to its end, taking every batch that fills:
/// the state reached and the batches, or the error that stopped it.
pub open spec fn decode_spec(
    m: DecoderModel,
    limits: CopyBatchLimits,
    columns: nat,
    data: Seq<u8>,
    offset: int,
) -> Result<(DecoderModel, Batches), ErrorModel>
    decreases data.len() - offset,
{
    proof {
        lemma_push_progress(m, limits, columns, data, offset);
    }
    match push_spec(m, limits, columns, data, offset) {
        Err(e) => Err(e),
        Ok((m1, PushOutcome::Consumed)) => Ok((m1, Seq::empty())),
        Ok((m1, PushOutcome::Flushed(rows, next))) => match decode_spec(m1, limits, columns, data, next) {
            Err(e) => Err(e),
            Ok((m2, batches)) => Ok((m2, seq![rows] + batches)),
        },
    }
}

/// Whether reading `data` from `offset` to its end stops at the
/// end-of-data marker.
pub open spec fn decode_ends_data(
    m: DecoderModel,
    limits: CopyBatchLimits,
    columns: nat,
    data: Seq<u8>,
    offset: int,
) -> bool
    decreases data.len() - offset,
{
    proof {
        lemma_push_progress(m, limits, columns, data, offset);
    }
    match push_spec(m, limits, columns, data, offset) {
        Ok((m1, PushOutcome::Flushed(_, next))) => decode_ends_data(m1, limits, columns, data, next),
        _ => push_ends_data(m, limits, columns, data, offset),
    }
}

/// Go on from what reading a first chunk gave by reading `more`.
pub open spec fn decode_on(
    first: Result<(DecoderModel, Batches), ErrorModel>,
    limits: CopyBatchLimits,
    columns: nat,
    more: Seq<u8>,
) -> Result<(DecoderModel, Batches), ErrorModel> {
    match first {
        Err(e) => Err(e),
        Ok((m1, batches)) => match decode_spec(m1, limits, columns, more, 0) {
            Err(e) => Err(e),
            Ok((m2, later)) => Ok((m2, batches + later)),
        },
    }
}

/// A push result with the resume offset moved by `by`.
pub open spec fn shifted(r: Result<(DecoderModel, PushOutcome), ErrorModel>, by: int) -> Result<
    (DecoderModel, PushOutcome),
    ErrorModel,
> {
    match r {
        Ok((m, PushOutcome::Flushed(rows, next))) => Ok((m, PushOutcome::Flushed(rows, next + by))),
        _ => r,
    }
}

proof fn lemma_first_delimiter_shift(a: Seq<u8>, b: Seq<u8>, k: int)
    requires
        0 <= k,
    ensures
        first_delimiter(a + b, a.len() + k) == match first_delimiter(b, k) {
            Some(d) => Some(d + a.len()),
            None => None::<int>,
        },
    decreases b.len() - k,
{
    if k < b.len() {
        assert((a + b)[a.len() + k] == b[k]);
        lemma_first_delimiter_shift(a, b, k + 1);
    }
}

proof fn lemma_first_delimiter_prefix(a: Seq<u8>, b: Seq<u8>, i: int)
    requires
        0 <= i <= a.len(),
    ensures
        first_delimiter(a + b, i) == match first_delimiter(a, i) {
            Some(d) => Some(d),
            None => first_delimiter(a + b, a.len() as int),
        },
    decreases a.len() - i,
{
    if i < a.len() {
        assert((a + b)[i] == a[i]);
        lemma_first_delimiter_prefix(a, b, i + 1);
    }
}

/// Adding bytes to a field in two steps is adding them in one.
proof fn lemma_extend_field_split(m: DecoderModel, limits: CopyBatchLimits, x: Seq<u8>, y: Seq<u8>)
    ensures
        extend_field_spec(m, limits, x + y) == match extend_field_spec(m, limits, x) {
            Err(e) => Err(e),
            Ok(m1) => extend_field_spec(m1, limits, y),
        },
{
    if let Ok(m1) = extend_field_spec(m, limits, x) {
        assert(m1.field + y =~= m.field + (x + y));
    }
}

proof fn lemma_push_shift(
    m: DecoderModel,
    limits: CopyBatchLimits,
    columns: nat,
    a: Seq<u8>,
    b: Seq<u8>,
    k: int,
)
    requires
        0 <= k,
    ensures
        push_spec(m, limits, columns, a + b, a.len() + k) == shifted(
            push_spec(m, limits, columns, b, k),
            a.len() as int,
        ),
    decreases b.len() - k,
{
    if k < b.len() && !m.terminated {
        lemma_first_delimiter_shift(a, b, k);
        lemma_first_delimiter(b, k);
        match first_delimiter(b, k) {
            None => {
                assert((a + b).subrange(a.len() + k, (a + b).len() as int) =~= b.subrange(k, b.len() as int));
            },
            Some(d) => {
                assert((a + b).subrange(a.len() + k, a.len() + d) =~= b.subrange(k, d));
                assert((a + b)[a.len() + d] == b[d]);
                if let DelimiterStep::Next(m3) = delimiter_step(m, limits, columns, b.subrange(k, d), b[d]) {
                    lemma_push_shift(m3, limits, columns, a, b, d + 1);
                }
            },
        }
    }
}

proof fn lemma_push_prefix(
    m: DecoderModel,
    limits: CopyBatchLimits,
    columns: nat,
    a: Seq<u8>,
    b: Seq<u8>,
    i: int,
)
    requires
        0 <= i <= a.len(),
    ensures
        match push_spec(m, limits, columns, a, i) {
            Ok((m1, PushOutcome::Consumed)) => push_spec(m, limits, columns, a + b, i) == push_spec(
                m1,
                limits,
                columns,
                a + b,
                a.len() as int,
            ),
            r => push_spec(m, limits, columns, a + b, i) == r,
        },
    decreases a.len() - i,
{
    if i < a.len() && !m.terminated {
        lemma_first_delimiter_prefix(a, b, i);
        lemma_first_delimiter(a, i);
        match first_delimiter(a, i) {
            Some(d) => {
                assert((a + b).subrange(i, d) =~= a.subrange(i, d));
                assert((a + b)[d] == a[d]);
                if let DelimiterStep::Next(m3) = delimiter_step(m, limits, columns, a.subrange(i, d), a[d]) {
                    lemma_push_prefix(m3, limits, columns, a, b, d + 1);
                }
            },
            None => {
                let x = a.subrange(i, a.len() as int);
                let ab = a + b;
                lemma_first_delimiter_shift(a, b, 0);
                lemma_first_delimiter(ab, a.len() as int);
                match first_delimiter(ab, a.len() as int) {
                    None => {
                        let y = ab.subrange(a.len() as int, ab.len() as int);
                        assert(ab.subrange(i, ab.len() as int) =~= x + y);
                        lemma_extend_field_split(m, limits, x, y);
                        if b.len() == 0 {
                            assert(y =~= Seq::<u8>::empty());
                            assert(x + y =~= x);
                        }
                    },
                    Some(d) => {
                        let y = ab.subrange(a.len() as int, d);
                        assert(ab.subrange(i, d) =~= x + y);
                        lemma_extend_field_split(m, limits, x, y);
                    },
                }
            },
        }
    }
}

proof fn lemma_decode_shift(
    m: DecoderModel,
    limits: CopyBatchLimits,
    columns: nat,
    a: Seq<u8>,
    b: Seq<u8>,
    k: int,
)
    requires
        0 <= k,
    ensures
        decode_spec(m, limits, columns, a + b, a.len() + k) == decode_spec(m, limits, columns, b, k),
    decreases b.len() - k,
{
    lemma_push_shift(m, limits, columns, a, b, k);
    lemma_push_progress(m, limits, columns, b, k);
    lemma_push_progress(m, limits, columns, a + b, a.len() + k);
    if let Ok((m1, PushOutcome::Flushed(rows, next))) = push_spec(m, limits, columns, b, k) {
        lemma_decode_shift(m1, limits, columns, a, b, next);
    }
}

proof fn lemma_decode_prefix(
    m: DecoderModel,
    limits: CopyBatchLimits,
    columns: nat,
    a: Seq<u8>,
    b: Seq<u8>,
    i: int,
)
    requires
        0 <= i <= a.len(),
    ensures
        decode_spec(m, limits, columns, a + b, i) == decode_on(
            decode_spec(m, limits, columns, a, i),
            limits,
            columns,
            b,
        ),
    decreases a.len() - i,
{
    lemma_push_prefix(m, limits, columns, a, b, i);
    lemma_push_progress(m, limits, columns, a, i);
    lemma_push_progress(m, limits, columns, a + b, i);
    match push_spec(m, limits, columns, a, i) {
        Err(_) => {},
        Ok((m1, PushOutcome::Consumed)) => {
            lemma_push_progress(m1, limits, columns, a + b, a.len() as int);
            lemma_decode_shift(m1, limits, columns, a, b, 0);
            assert(decode_spec(m, limits, columns, a + b, i) == decode_spec(
                m1,
                limits,
                columns,
                a + b,
                a.len() as int,
            ));
            if let Ok((m2, later)) = decode_spec(m1, limits, columns, b, 0) {
                assert(Seq::<Seq<Seq<Option<Seq<u8>>>>>::empty() + later =~= later);
            }
        },
        Ok((m1, PushOutcome::Flushed(rows, next))) => {
            lemma_decode_prefix(m1, limits, columns, a, b, next);
            if let Ok((m2, first)) = decode_spec(m1, limits, columns, a, next) {
                if let Ok((m3, later)) = decode_spec(m2, limits, columns, b, 0) {
                    assert(seq![rows] + (first + later) =~= (seq![rows] + first) + later);
                }
            }
        },
    }
}

proof fn lemma_push_bounded(m: DecoderModel, limits: CopyBatchLimits, columns: nat, data: Seq<u8>, offset: int)
    requires
        m.rows.len() < limits.max_rows,
    ensures
        match push_spec(m, limits, columns, data, offset) {
            Ok((m2, PushOutcome::Consumed)) => m2.rows.len() < limits.max_rows,
            Ok((m2, PushOutcome::Flushed(rows, _))) => m2.rows.len() == 0 && 0 < rows.len() <= limits.max_rows,
            Err(_) => true,
        },
    decreases data.len() - offset,
{
    if 0 <= offset < data.len() && !m.terminated {
        lemma_first_delimiter(data, offset);
        if let Some(d) = first_delimiter(data, offset) {
            if let DelimiterStep::Next(m3) = delimiter_step(m, limits, columns, data.subrange(offset, d), data[d]) {
                lemma_push_bounded(m3, limits, columns, data, d + 1);
            }
        }
    }
}

/// Batches are bounded: while fewer rows than a batch holds are pending,
/// reading a stream flushes only batches of at least one and at most
/// `max_rows` rows, and leaves fewer than `max_rows` rows pending.
pub proof fn lemma_batches_bounded(
    m: DecoderModel,
    limits: CopyBatchLimits,
    columns: nat,
    data: Seq<u8>,
    offset: int,
)
    requires
        m.rows.len() < limits.max_rows,
    ensures
        decode_spec(m, limits, columns, data, offset) matches Ok((m2, batches)) ==> {
            &&& m2.rows.len() < limits.max_rows
            &&& forall|k: int| 0 <= k < batches.len() ==> 0 < #[trigger] batches[k].len() <= limits.max_rows
        },
    decreases data.len() - offset,
{
    lemma_push_bounded(m, limits, columns, data, offset);
    lemma_push_progress(m, limits, columns, data, offset);
    if let Ok((m1, PushOutcome::Flushed(rows, next))) = push_spec(m, limits, columns, data, offset) {
        lemma_batches_bounded(m1, limits, columns, data, next);
        if let Ok((m2, later)) = decode_spec(m1, limits, columns, data, next) {
            let all = seq![rows] + later;
            assert forall|k: int| 0 <= k < all.len() implies 0 < #[trigger] all[k].len() <= limits.max_rows by {
                if k > 0 {
                    assert(all[k] == later[k - 1]);
                }
            }
        }
    }
}

proof fn lemma_end_marker_fails(m: DecoderModel, limits: CopyBatchLimits, columns: nat, data: Seq<u8>, offset: int)
    requires
        push_ends_data(m, limits, columns, data, offset),
    ensures
        push_spec(m, limits, columns, data, offset) == Err::<(DecoderModel, PushOutcome), ErrorModel>(
            ("22P04"@, "COPY data follows the end marker"@),
        ),
    decreases data.len() - offset,
{
    lemma_first_delimiter(data, offset);
    if let Some(d) = first_delimiter(data, offset) {
        if let DelimiterStep::Next(m3) = delimiter_step(m, limits, columns, data.subrange(offset, d), data[d]) {
            lemma_end_marker_fails(m3, limits, columns, data, d + 1);
        }
    }
}

/// The end-of-data marker stops a stream: reading up to it fails with
/// "COPY data follows the end marker", and a stream stopped there refuses
/// every later chunk that holds data with the same error.
pub proof fn lemma_end_marker_stops_the_stream(
    m: DecoderModel,
    limits: CopyBatchLimits,
    columns: nat,
    data: Seq<u8>,
    later: Seq<u8>,
)
    ensures
        decode_ends_data(m, limits, columns, data, 0) ==> decode_spec(m, limits, columns, data, 0) == Err::<
            (DecoderModel, Batches),
            ErrorModel,
        >(("22P04"@, "COPY data follows the end marker"@)),
        m.terminated && later.len() > 0 ==> decode_spec(m, limits, columns, later, 0) == Err::<
            (DecoderModel, Batches),
            ErrorModel,
        >(("22P04"@, "COPY data follows the end marker"@)),
{
    lemma_decode_ends_data_fails(m, limits, columns, data, 0);
}

proof fn lemma_decode_ends_data_fails(m: DecoderModel, limits: CopyBatchLimits, columns: nat, data: Seq<u8>, offset: int)
    ensures
        decode_ends_data(m, limits, columns, data, offset) ==> decode_spec(m, limits, columns, data, offset)
            == Err::<(DecoderModel, Batches), ErrorModel>(("22P04"@, "COPY data follows the end marker"@)),
    decreases data.len() - offset,
{
    lemma_push_progress(m, limits, columns, data, offset);
    match push_spec(m, limits, columns, data, offset) {
        Ok((m1, PushOutcome::Flushed(_, next))) => {
            lemma_decode_ends_data_fails(m1, limits, columns, data, next);
        },
        _ => {
            if push_ends_data(m, limits, columns, data, offset) {
                lemma_end_marker_fails(m, limits, columns, data, offset);
            }
        },
    }
}

/// Where a COPY stream is cut into chunks makes no difference: reading `a`
/// and then `b` reaches the same state with the same batches, or stops
/// with the same error, as reading `a + b` in one piece.
pub proof fn lemma_chunking_is_invisible(
    m: DecoderModel,
    limits: CopyBatchLimits,
    columns: nat,
    a: Seq<u8>,
    b: Seq<u8>,
)
    ensures
        decode_spec(m, limits, columns, a + b, 0) == decode_on(
            decode_spec(m, limits, columns, a, 0),
            limits,
            columns,
            b,
        ),
{
    lemma_decode_prefix(m, limits, columns, a, b, 0);
}

} // verus!
