//! Code generation for the Spire game backend: the logic that turns data,
//! enumeration and protocol schemas into Rust, SQL and protobuf source text.

pub mod text;
pub mod names;
pub mod schema;
pub mod rust_types;
pub mod generator;
pub mod concrete_table;
pub mod abstract_table;
pub mod enumeration;
pub mod module;
pub mod server_schema;
pub mod server_generate;
pub mod dependency;
pub mod load_order;
pub mod server_collect;
pub mod protocol_source;
pub mod game_protocol;
pub mod server_protocol;
pub mod data_tables;
pub mod db;

