//! Upload ingestion and storage for a media-sharing backend: content
//! classification, collision-resistant storage naming, the ingestion saga,
//! retrieval, and the attachment of stored assets to posts.

pub mod media_type;
pub mod error;
pub mod naming;
pub mod asset;
pub mod provision;
pub mod ingest;
pub mod retrieval;
pub mod post;
pub mod account;
pub mod history;
pub mod thumbnail;
