//! Typed client-side model of the Zenkit project-management service: identifier
//! matching, cached reference data, and the codec between logical field values
//! and the service's sparse JSON documents.
pub mod activity;
pub mod cache;
pub mod codec;
pub mod datetime;
pub mod error;
pub mod item;
pub mod json;
pub mod laws;
pub mod list;
pub mod records;
pub mod requests;
pub mod types;
pub mod user;
pub mod util;

pub use cache::ApiConfig;
pub use error::Error;
pub use user::UserCache;
