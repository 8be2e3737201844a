use std::sync::Arc;

use arrow_array::{RecordBatch, StringArray};
use arrow_schema::{DataType, Field, Schema};
use quackgis_server::metrics::MetricsCounters;
use quackgis_server::result_batches::check_result_batch_size;

#[test]
fn result_batch_byte_limit_fails_closed() {
    let batch = RecordBatch::try_new(
        Arc::new(Schema::new(vec![Field::new("value", DataType::Utf8, false)])),
        vec![Arc::new(StringArray::from(vec!["bounded-result"]))],
    )
    .expect("batch");
    let bytes = batch.get_array_memory_size();
    let mut metrics = MetricsCounters::new();
    assert_eq!(check_result_batch_size(&mut metrics, bytes, bytes).expect("exact ceiling"), bytes);
    assert_eq!(metrics.query_batch_limit_rejections, 0);
    assert!(check_result_batch_size(&mut metrics, bytes, bytes - 1).is_err());
    assert_eq!(metrics.query_batch_limit_rejections, 1);
}
