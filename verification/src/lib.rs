//! Category catalogue: the record type and the request handlers of a small
//! category service, as plain functions from values to values.

pub mod category;
pub mod handlers;

pub use category::Category;
pub use category::CategoryView;
