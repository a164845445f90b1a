//! Row building for session transcripts: typed transcript entries are turned
//! into table rows whose cells are JSON values.

pub mod json;
pub mod types;
pub mod encode;
pub mod cells;
pub mod variants;
pub mod parse;
pub mod lines;
pub mod paths;
pub mod laws;
pub mod columns;
