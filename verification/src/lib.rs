//! Projection of raw repository records into privacy-aware views, and the
//! rules by which a collection of such views is assembled and presented.

pub mod collect;
pub mod error;
pub mod listing;
pub mod raw;
pub mod repo;

pub use collect::repositories;
pub use error::{CollectorError, ProjectionError, RequiredField, TransportError};
pub use listing::{listing, render_listing, ListingRow};
pub use raw::RawRepo;
pub use repo::{project, RepoType, UserRepo};
