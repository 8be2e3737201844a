use quackgis_server::copy_text::{
    field_text, batch_split, check_chunk_size, CopyTotals, check_chunk_batches, decode_column, decode_copy_field, parse_bool, parse_date, parse_decimal,
    parse_hex_into, parse_integer, parse_timestamp, rescale_decimal, CellValue, CopyBatchLimits, CopyColumnKind,
    CopyDecodeError, CopyRows, CopyTextDecoder, PushProgress,
};

fn limits(max_rows: usize, max_row_bytes: usize) -> CopyBatchLimits {
    CopyBatchLimits { max_rows, max_bytes: 65_536, max_row_bytes }
}

fn ints(rows: &CopyRows, column: usize) -> Vec<Option<i32>> {
    decode_column(rows, column, &CopyColumnKind::Int32)
        .expect("ids")
        .into_iter()
        .map(|v| match v {
            Some(CellValue::Int32(i)) => Some(i),
            None => None,
            other => panic!("unexpected {other:?}"),
        })
        .collect()
}

fn texts(rows: &CopyRows, column: usize) -> Vec<Option<String>> {
    decode_column(rows, column, &CopyColumnKind::Utf8)
        .expect("names")
        .into_iter()
        .map(|v| match v {
            Some(CellValue::Text(t)) => Some(t),
            None => None,
            other => panic!("unexpected {other:?}"),
        })
        .collect()
}

fn bytes(rows: &CopyRows, column: usize, spatial: bool) -> Result<Vec<Option<Vec<u8>>>, CopyDecodeError> {
    decode_column(rows, column, &CopyColumnKind::Binary(spatial)).map(|values| {
        values
            .into_iter()
            .map(|v| match v {
                Some(CellValue::Bytes(b)) => Some(b),
                None => None,
                other => panic!("unexpected {other:?}"),
            })
            .collect()
    })
}

#[test]
fn decodes_chunks_escapes_nulls_and_binary() {
    let mut decoder = CopyTextDecoder::new(3, limits(2, 256)).expect("decoder");
    assert!(decoder.push(b"1\thello\\").expect("partial escape").is_empty());
    let batches = decoder.push(b"tworld\t\\x00ff\n2\t\\N\t\\\\x0102\n").expect("remaining chunks");
    assert_eq!(batches.len(), 1);
    assert_eq!(batches[0].len(), 2);
    assert_eq!(ints(&batches[0], 0), vec![Some(1), Some(2)]);
    let names = texts(&batches[0], 1);
    assert_eq!(names[0].as_deref(), Some("hello\tworld"));
    assert!(names[1].is_none());
    let payload = bytes(&batches[0], 2, false).expect("payload");
    assert_eq!(payload[0].as_deref(), Some(&[0u8, 255][..]));
    assert_eq!(payload[1].as_deref(), Some(&[1u8, 2][..]));
}

#[test]
fn accepts_postgis_hex_only_for_spatial_binary_fields() {
    let mut spatial = CopyTextDecoder::new(2, limits(8, 256)).expect("spatial decoder");
    assert!(spatial
        .push(b"1\t0101000000000000000000F03F0000000000000040\n")
        .expect("GDAL PostGIS COPY geometry")
        .is_empty());
    let batch = spatial.finish().expect("finish spatial COPY").expect("one batch");
    let geometry = bytes(&batch, 1, true).expect("geometry");
    assert_eq!(geometry[0].as_ref().map(Vec::len), Some(21));

    let mut ordinary = CopyTextDecoder::new(3, limits(8, 256)).expect("ordinary decoder");
    assert!(ordinary.push(b"1\tvalue\t00ff\n").expect("buffer ordinary binary").is_empty());
    let batch = ordinary.finish().expect("rows").expect("one batch");
    let error = bytes(&batch, 2, false).expect_err("ordinary binary must retain bytea syntax");
    assert_eq!(error.sqlstate, "22P02");
}

#[test]
fn contiguous_rows_preserve_empty_null_and_crlf_fields() {
    let mut decoder = CopyTextDecoder::new(3, limits(8, 256)).expect("decoder");
    assert!(decoder.push(b"1\t\t\\N\r\n2\tname\t\\x00\n").expect("empty/null/CRLF rows").is_empty());
    let batch = decoder.finish().expect("finish rows").expect("one batch");
    let names = texts(&batch, 1);
    assert_eq!(names[0].as_deref(), Some(""));
    assert_eq!(names[1].as_deref(), Some("name"));
    let payloads = bytes(&batch, 2, false).expect("payloads");
    assert!(payloads[0].is_none());
    assert_eq!(payloads[1].as_deref(), Some(&[0u8][..]));
}

#[test]
fn enforces_row_and_arrow_batch_limits() {
    let mut decoder = CopyTextDecoder::new(3, limits(1, 16)).expect("decoder");
    let batches = decoder.push(b"1\ta\t\\x00\n2\tb\t\\x01\n").expect("bounded rows");
    assert_eq!(batches.len(), 2);
    assert!(batches.iter().all(|batch| batch.len() == 1));
    assert!(decoder.push(b"3\tthis-row-is-too-large").is_err());
    assert_eq!(decode_copy_field(br"\x41", false).expect("text hex escape"), b"A".to_vec());
    assert_eq!(decode_copy_field(br"\x41", true).expect("legacy binary hex"), br"\x41".to_vec());
    assert_eq!(parse_integer(b"-9223372036854775808", "Int64").unwrap(), i64::MIN);
    assert_eq!(parse_integer(b"+42", "Int64").unwrap(), 42);
    assert!(parse_integer(b"9223372036854775808", "Int64").is_err());
    assert!(parse_integer(b"12x", "Int64").is_err());
}

#[test]
fn end_marker_rejects_trailing_data_in_the_same_chunk() {
    let mut decoder = CopyTextDecoder::new(3, limits(8, 256)).expect("decoder");
    assert!(decoder.push(b"\\.\n1\ta\t\\x00\n").is_err());
}

#[test]
fn chunk_boundaries_do_not_change_the_rows() {
    let data: &[u8] = b"1\tab\\tc\t\\x01\r\n2\t\\N\t\\\\x02\n3\tz\t\\x03";
    let whole = {
        let mut d = CopyTextDecoder::new(3, limits(2, 256)).expect("decoder");
        let mut all = d.push(data).expect("whole");
        all.extend(d.finish().expect("finish"));
        all.into_iter().map(|b| b.into_rows()).collect::<Vec<_>>()
    };
    for cut in 0..=data.len() {
        let mut d = CopyTextDecoder::new(3, limits(2, 256)).expect("decoder");
        let mut all = d.push(&data[..cut]).expect("first chunk");
        all.extend(d.push(&data[cut..]).expect("second chunk"));
        all.extend(d.finish().expect("finish"));
        let rows = all.into_iter().map(|b| b.into_rows()).collect::<Vec<_>>();
        assert_eq!(rows, whole, "cut at {cut}");
    }
    assert_eq!(whole.len(), 2);
    assert_eq!(whole[0].len(), 2);
    assert_eq!(whole[1].len(), 1);
}

#[test]
fn push_from_resumes_after_a_full_batch() {
    let mut d = CopyTextDecoder::new(1, limits(1, 256)).expect("decoder");
    let data = b"a\nb\n";
    match d.push_from(data, 0).expect("first") {
        PushProgress::Flushed(rows, next) => {
            assert_eq!(rows.len(), 1);
            assert_eq!(next, 2);
        },
        PushProgress::Consumed => panic!("expected a full batch"),
    }
    match d.push_from(data, 2).expect("second") {
        PushProgress::Flushed(rows, next) => {
            assert_eq!(rows.value(0, 0), Some(&b"b"[..]));
            assert_eq!(next, 4);
        },
        PushProgress::Consumed => panic!("expected a full batch"),
    }
    assert!(matches!(d.push_from(data, 4), Ok(PushProgress::Consumed)));
    assert!(d.finish().expect("finish").is_none());
}

#[test]
fn decoder_errors_name_the_row() {
    assert_eq!(
        CopyTextDecoder::new(1, CopyBatchLimits { max_rows: 0, max_bytes: 1, max_row_bytes: 1 }).err().map(|e| e.sqlstate),
        Some("22023")
    );
    let mut d = CopyTextDecoder::new(2, limits(8, 256)).expect("decoder");
    let e = d.push(b"1\t2\t3\n").expect_err("too many columns");
    assert_eq!(e.sqlstate, "22P04");
    assert_eq!(e.message, "COPY row 1 has too many columns");
    let mut d = CopyTextDecoder::new(2, limits(8, 256)).expect("decoder");
    let e = d.push(b"a\tb\nc\n").expect_err("too few columns");
    assert_eq!(e.message, "COPY row 2 has 1 columns; expected 2");
    let mut d = CopyTextDecoder::new(1, limits(8, 4)).expect("decoder");
    let e = d.push(b"abcdef").expect_err("row too large");
    assert_eq!(e.sqlstate, "54000");
    assert_eq!(e.message, "COPY row 1 exceeds the configured byte limit");
    let mut d = CopyTextDecoder::new(1, limits(8, 256)).expect("decoder");
    assert!(d.push(b"\\.\n").is_err());
    assert!(d.push(b"more").is_err());
}

#[test]
fn field_escapes_decode_as_postgresql_text() {
    assert_eq!(decode_copy_field(b"a\\tb\\nc\\\\", false).unwrap(), b"a\tb\nc\\".to_vec());
    assert_eq!(decode_copy_field(b"\\101\\x4a\\q", false).unwrap(), b"AJq".to_vec());
    assert_eq!(decode_copy_field(b"plain", true).unwrap(), b"plain".to_vec());
    assert_eq!(decode_copy_field(b"\\b\\f\\r\\v", false).unwrap(), vec![8u8, 12, 13, 11]);
    let e = decode_copy_field(b"x\\", false).expect_err("dangling backslash");
    assert_eq!(e.sqlstate, "22P04");
    assert_eq!(e.message, "COPY field ends with a backslash escape");
    let e = decode_copy_field(b"\\xg", false).expect_err("bad hex escape");
    assert_eq!(e.message, "COPY field has an invalid hex escape");
}

#[test]
fn typed_values_parse_or_fail_with_sqlstate() {
    assert_eq!(parse_bool(b"TRUE").unwrap(), true);
    assert_eq!(parse_bool(b"f").unwrap(), false);
    assert!(parse_bool(b"maybe").is_err());
    assert_eq!(parse_decimal(b"12.5", 10, 2).unwrap(), 1250);
    assert_eq!(parse_decimal(b"-0.120", 10, 2).unwrap(), -12);
    assert_eq!(parse_decimal(b"-0.125", 10, 2).err().map(|e| e.message), Some("COPY Decimal128 value exceeds the target scale".to_string()));
    assert_eq!(parse_decimal(b"1", 10, -1).err().map(|e| e.sqlstate), Some("0A000"));
    assert!(parse_decimal(b"123456", 4, 0).is_err());
    assert!(parse_decimal(b"abc", 10, 2).is_err());
    assert_eq!(rescale_decimal(125, 1, 10, 3).unwrap(), 12500);
    assert_eq!(parse_date(b"1970-01-02").unwrap(), 1);
    assert_eq!(parse_date(b"1969-12-31").unwrap(), -1);
    assert!(parse_date(b"1970-13-01").is_err());
    assert_eq!(parse_timestamp(b"1970-01-01 00:00:01").unwrap(), 1_000_000);
    assert_eq!(parse_timestamp(b"1970-01-01 00:00:00.5").unwrap(), 500_000);
    assert!(parse_timestamp(b"yesterday").is_err());
    let mut out = Vec::new();
    assert!(parse_hex_into(b"\\x0aFF", &mut out, false).is_ok());
    assert_eq!(out, vec![10u8, 255]);
    let mut out = Vec::new();
    assert!(parse_hex_into(b"0aff", &mut out, true).is_ok());
    assert_eq!(out, vec![10u8, 255]);
    let mut out = Vec::new();
    assert!(parse_hex_into(b"0aff", &mut out, false).is_err());
    let unsupported = decode_column(&CopyRows::from_owned(vec![vec![None]]), 0, &CopyColumnKind::Unsupported("Map".to_string()));
    assert_eq!(unsupported.err().map(|e| e.sqlstate), Some("0A000"));
}

#[test]
fn batch_limits_split_or_refuse() {
    assert!(matches!(batch_split(10, 10, 5), Ok(None)));
    assert!(matches!(batch_split(11, 10, 5), Ok(Some(2))));
    assert_eq!(batch_split(11, 10, 1).err().map(|e| e.sqlstate), Some("54000"));
    assert!(check_chunk_batches(128).is_ok());
    assert_eq!(check_chunk_batches(129).err().map(|e| e.message), Some("one COPY data chunk produces too many Arrow batches".to_string()));
}

#[test]
fn field_text_requires_utf8() {
    assert_eq!(field_text(b"caf\xc3\xa9").unwrap(), "caf\u{e9}");
    let e = field_text(&[0x66, 0xff]).unwrap_err();
    assert_eq!(e.sqlstate, "22021");
    assert_eq!(e.message, "COPY text must be valid UTF-8");
    assert_eq!(parse_date(b"2024-02-29").unwrap(), 19782);
    assert!(parse_date(b"2023-02-29").is_err());
}

#[test]
fn end_marker_stops_the_stream_but_keeps_complete_rows() {
    let mut d = CopyTextDecoder::new(1, limits(8, 256)).expect("decoder");
    let e = d.push(b"a\n\\.\n").expect_err("end marker");
    assert_eq!(e.sqlstate, "22P04");
    assert_eq!(e.message, "COPY data follows the end marker");
    assert!(d.push(b"b\n").is_err());
    assert!(d.push(b"").expect("no data").is_empty());
    let rows = d.finish().expect("finish").expect("pending rows");
    assert_eq!(rows.len(), 1);
    assert_eq!(rows.value(0, 0), Some(&b"a"[..]));
}

#[test]
fn chunks_are_bounded_and_totals_saturate() {
    assert!(check_chunk_size(16, 16).is_ok());
    let e = check_chunk_size(17, 16).unwrap_err();
    assert_eq!(e.sqlstate, "54000");
    assert_eq!(e.message, "one COPY data chunk exceeds the configured batch byte limit");
    let mut totals = CopyTotals::new();
    totals.record_chunk(10, 2, 7);
    totals.record_chunk(5, 1, 1);
    assert_eq!(totals, CopyTotals { rows: 8, bytes: 15, batches: 3 });
    totals.record_chunk(usize::MAX, 0, 0);
    assert_eq!(totals.bytes, usize::MAX);
}
