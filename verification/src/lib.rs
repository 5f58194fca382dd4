//! Storage layer of comemory: the SQLite mirror's statement builders, row
//! decoders and the decisions taken between queries, each with its contract.
pub mod store;
