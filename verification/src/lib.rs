//! A request-parameter adapter for UUIDs: a wrapper around `uuid::Uuid` that is
//! parsed from path segments and form values and rendered back to text.

pub mod laws;
pub mod order;
pub mod param;
pub mod text;
pub mod trusted;

pub use param::UUID;
pub use uuid::ParseError as UuidParseError;
