//! Type erasure for generic artifacts that cross a boundary which cannot name
//! generic types, and the dispatch from textual type tags back to them.
pub mod error;
pub mod float;
pub mod util;
pub mod value;
pub mod erase;
pub mod any;
pub mod traits;
pub mod dist;
pub mod dom;
pub mod distance;
pub mod function;
pub mod relation;
pub mod carrier;
pub mod dispatch;
pub mod meas;
pub mod trans;
