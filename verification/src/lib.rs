//! Resolution of artwork identifiers into downloadable images.
//!
//! A work on the service is known by a number, and each of its images by its
//! position, counted from one. The library works out where the file of an
//! image is to be found, which questions have to be put to the service and
//! to a store of remembered addresses on the way, and what is handed back in
//! the end. It does no input or output of its own: see `work`.

pub mod cache;
pub mod error;
pub mod fetch;
pub mod laws;
pub mod metadata;
pub mod response;
pub mod text;
pub mod url;
pub mod work;

pub use crate::error::AppError;
pub use crate::work::{info, source, InfoResponse};
