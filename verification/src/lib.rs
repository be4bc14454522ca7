//! Row-to-column ingestion of newline-delimited JSON: a schema-driven reader
//! that turns lines of JSON text into fixed-size columnar blocks.

pub mod block;
pub mod call;
pub mod column;
pub mod cursor;
pub mod error;
pub mod format;
pub mod json;
pub mod plan;
pub mod record;
pub mod schema;
pub mod source;
pub mod text;
