pub mod json;
pub mod text;
pub mod ir;
pub mod sse;
pub mod errors;
pub mod wire;
pub mod table;
pub mod index_set;
pub mod headers;
pub mod providers;
pub mod config;
pub mod router;
pub mod codec;
pub mod agents;
pub mod laws;
pub mod round_trips;
