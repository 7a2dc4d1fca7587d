//! Loads a delimited dataset into a relational table, runs one ad-hoc query
//! against it and exports the result as delimited text.
//!
//! The library holds the decisions of that pipeline: the table schema and the
//! statements that provision and fill the table, the barrier that joins the
//! concurrent inserts, the decoding of result cells, and the export writer.
//! Talking to the store, the files and the console is left to the caller.
pub mod barrier;
pub mod config;
pub mod console;
pub mod decode;
pub mod delimited;
pub mod export;
pub mod ingest;
pub mod schema;
pub mod session;
pub mod store;
pub mod text;
