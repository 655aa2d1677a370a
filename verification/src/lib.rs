//! A read-only query library over a catalog of game-unit records kept as a
//! JSON document: a tolerant per-record projection to `{name, points}`,
//! list and first-match-by-name lookup, JSON rendering of the results, and
//! the mapping of each route's outcome to an HTTP status and body.

pub mod http;
pub mod lookup;
pub mod model;
pub mod parse;
pub mod render;
