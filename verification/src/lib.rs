//! Pipeline models, connector registry and record encoding for a stream
//! analytics test bench.

pub mod text;
pub mod json;
pub mod models;
pub mod connectors;
pub mod csv_source;
pub mod websocket;
pub mod subscription;
