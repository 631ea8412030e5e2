//! Core logic of a gateway over a remote content-pinning service:
//! cursor-pagination aggregation, thumbnail composition, category
//! filtering, and the multipart-upload pipeline with bounded retry.
//!
//! Network transport lives outside this crate; every function here works
//! on plain values (pages already fetched, outcomes already observed) so
//! that the aggregation, composition and retry decisions are verified.

pub mod categories;
pub mod errors;
pub mod groups;
pub mod models;
pub mod multipart;
pub mod pagination;
pub mod text;
pub mod uploads;

pub use errors::ApiError;
pub use models::PinataFile;
pub use models::PinataGroup;
