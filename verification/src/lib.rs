//! QuackGIS server library: the verified core of the PostgreSQL/DuckDB edge.
//!
//! Each module holds the decisions, encoders and parsers of one part of the
//! server; the network, runtime and Arrow plumbing around them lives outside.
use vstd::prelude::*;

pub mod copy_stream;
pub mod copy_text;
pub mod copy_values;
pub mod execution_control;
pub mod lifecycle;
pub mod metrics;
pub mod mvt;
pub mod pg_names;
pub mod pgwire_server;
pub mod postgis_compat;
pub mod postgres_compat;
pub mod requests;
pub mod result_batches;
pub mod session;
pub mod sql_text;
pub mod startup;
pub mod statement_policy;

verus! {

} // verus!
