//! Typed Spotify resource identifiers.
//!
//! This crate represents, validates, parses and converts Spotify resource
//! identifiers ("this string is a track identifier, not an album identifier")
//! with a single validation and parsing algorithm shared by every kind of
//! resource.
//!
//! An identifier is a non-empty sequence of ASCII alphanumeric characters,
//! tagged at the type level with the kind of resource it names. Identifiers
//! come in two representations: a borrowed, zero-copy view ([`IdRef`]) over
//! text owned elsewhere, and a self-contained owning buffer ([`IdOwned`]).
//! Both are created only by parsing (`from_id`, `from_uri`, `from_id_or_uri`)
//! or by a widening conversion from an already-valid identifier, so a
//! constructed identifier always holds a validated character sequence.
//!
//! Beside the identifier core stand the pure decisions of the surrounding
//! client plumbing: scope-list comparison, token expiry and request
//! building in [`auth`], and the paged-endpoint walk in [`pagination`].
//! Everything that touches the file system, the environment, the clock or
//! the random source stays outside this crate and hands in plain values.

pub mod errors;
pub mod kinds;
pub mod text;
pub mod parse;
pub mod ids;
pub mod laws;
pub mod auth;
pub mod pagination;

pub use errors::IdError;
pub use kinds::Kind;
pub use ids::Id;
pub use ids::IdBuf;
pub use ids::IdRef;
pub use ids::IdOwned;
pub use ids::AlbumId;
pub use ids::AlbumIdBuf;
pub use ids::AnyId;
pub use ids::AnyIdBuf;
pub use ids::ArtistId;
pub use ids::ArtistIdBuf;
pub use ids::EpisodeId;
pub use ids::EpisodeIdBuf;
pub use ids::PlayContextId;
pub use ids::PlayContextIdBuf;
pub use ids::PlayableId;
pub use ids::PlayableIdBuf;
pub use ids::PlaylistId;
pub use ids::PlaylistIdBuf;
pub use ids::ShowId;
pub use ids::ShowIdBuf;
pub use ids::TrackId;
pub use ids::TrackIdBuf;
pub use ids::UserId;
pub use ids::UserIdBuf;
