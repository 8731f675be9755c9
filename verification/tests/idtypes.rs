//! Parsing behavior of the identifier types, on valid and invalid inputs.

use spotify_ids::AnyId;
use spotify_ids::Id;
use spotify_ids::IdError;
use spotify_ids::TrackId;

// Valid values:
const ID: &str = "4iV5W9uYEdYUVa79Axb7Rh";
const URI: &str = "spotify:track:4iV5W9uYEdYUVa79Axb7Rh";
const URI_SLASHES: &str = "spotify/track/4iV5W9uYEdYUVa79Axb7Rh";
// Invalid values:
const URI_EMPTY: &str = "spotify::4iV5W9uYEdYUVa79Axb7Rh";
const URI_WRONGTYPE1: &str = "spotify:unknown:4iV5W9uYEdYUVa79Axb7Rh";
const URI_WRONGTYPE2: &str = "spotify:something:4iV5W9uYEdYUVa79Axb7Rh";
const URI_SHORT: &str = "track:4iV5W9uYEdYUVa79Axb7Rh";
const URI_MIXED1: &str = "spotify/track:4iV5W9uYEdYUVa79Axb7Rh";
const URI_MIXED2: &str = "spotify:track/4iV5W9uYEdYUVa79Axb7Rh";

#[test]
fn test_id_parse() {
    assert!(TrackId::from_id(ID).is_ok());
    assert_eq!(TrackId::from_id(URI), Err(IdError::InvalidId));
    assert_eq!(TrackId::from_id(URI_SLASHES), Err(IdError::InvalidId));
    assert_eq!(TrackId::from_id(URI_EMPTY), Err(IdError::InvalidId));
    assert_eq!(TrackId::from_id(URI_WRONGTYPE1), Err(IdError::InvalidId));
    assert_eq!(TrackId::from_id(URI_WRONGTYPE2), Err(IdError::InvalidId));
    assert_eq!(TrackId::from_id(URI_SHORT), Err(IdError::InvalidId));
    assert_eq!(TrackId::from_id(URI_MIXED1), Err(IdError::InvalidId));
    assert_eq!(TrackId::from_id(URI_MIXED2), Err(IdError::InvalidId));
}

#[test]
fn test_uri_parse() {
    assert!(TrackId::from_uri(URI).is_ok());
    assert!(TrackId::from_uri(URI_SLASHES).is_ok());
    assert_eq!(TrackId::from_uri(ID), Err(IdError::InvalidPrefix));
    assert_eq!(TrackId::from_uri(URI_SHORT), Err(IdError::InvalidPrefix));
    assert_eq!(TrackId::from_uri(URI_EMPTY), Err(IdError::InvalidType));
    assert_eq!(TrackId::from_uri(URI_WRONGTYPE1), Err(IdError::InvalidType));
    assert_eq!(TrackId::from_uri(URI_WRONGTYPE2), Err(IdError::InvalidType));
    assert_eq!(TrackId::from_uri(URI_MIXED1), Err(IdError::InvalidFormat));
    assert_eq!(TrackId::from_uri(URI_MIXED2), Err(IdError::InvalidFormat));
}

#[test]
fn test_id_or_uri_parse() {
    assert!(TrackId::from_id_or_uri(ID).is_ok());
    assert!(TrackId::from_id_or_uri(URI).is_ok());
    assert!(TrackId::from_id_or_uri(URI_SLASHES).is_ok());
    assert_eq!(TrackId::from_id_or_uri(URI_SHORT), Err(IdError::InvalidId));
    assert_eq!(TrackId::from_id_or_uri(URI_EMPTY), Err(IdError::InvalidType));
    assert_eq!(
        TrackId::from_id_or_uri(URI_WRONGTYPE1),
        Err(IdError::InvalidType)
    );
    assert_eq!(
        TrackId::from_id_or_uri(URI_WRONGTYPE2),
        Err(IdError::InvalidType)
    );
    assert_eq!(
        TrackId::from_id_or_uri(URI_MIXED1),
        Err(IdError::InvalidFormat)
    );
    assert_eq!(
        TrackId::from_id_or_uri(URI_MIXED2),
        Err(IdError::InvalidFormat)
    );
}

#[test]
fn test_unknown() {
    // Passing a track id to the any-kind group type works just fine.
    assert!(AnyId::from_id(ID).is_ok());
    assert!(AnyId::from_uri(URI).is_ok());
    assert!(AnyId::from_uri(URI_WRONGTYPE1).is_ok());
    assert!(AnyId::from_id_or_uri(ID).is_ok());
    assert!(AnyId::from_id_or_uri(URI).is_ok());

    // The given kind must still be a recognized name, so parsing fails for
    // invalid ones.
    assert_eq!(AnyId::from_uri(URI_EMPTY), Err(IdError::InvalidType));
    assert_eq!(AnyId::from_uri(URI_WRONGTYPE2), Err(IdError::InvalidType));

    // But it will still catch other kinds of error.
    assert_eq!(AnyId::from_id_or_uri(URI_SHORT), Err(IdError::InvalidId));
    assert_eq!(
        AnyId::from_id_or_uri(URI_MIXED1),
        Err(IdError::InvalidFormat)
    );
    assert_eq!(
        AnyId::from_id_or_uri(URI_MIXED2),
        Err(IdError::InvalidFormat)
    );
}

#[test]
fn test_empty_id_rejected() {
    // The empty string is alphanumeric only vacuously; it is rejected by an
    // explicit decision.
    assert_eq!(TrackId::from_id(""), Err(IdError::InvalidId));
    assert_eq!(AnyId::from_id(""), Err(IdError::InvalidId));
    assert_eq!(TrackId::from_id_or_uri(""), Err(IdError::InvalidId));
    // A URI whose id segment is empty is rejected the same way.
    assert_eq!(TrackId::from_uri("spotify:track:"), Err(IdError::InvalidId));
}

#[test]
fn test_bare_id_same_as_uri_id() {
    // A bare id and a URI carrying the same id parse to the same value.
    let bare = TrackId::from_id_or_uri(ID).unwrap();
    let from_uri = TrackId::from_id_or_uri(URI).unwrap();
    assert_eq!(bare.id(), ID);
    assert_eq!(bare, from_uri);
}

#[test]
fn test_uri_round_trip() {
    let x = TrackId::from_uri(URI).unwrap();
    assert_eq!(TrackId::from_uri(&x.uri()).unwrap(), x);
    let y = AnyId::from_uri(URI_WRONGTYPE1).unwrap();
    assert_eq!(AnyId::from_uri(&y.uri()).unwrap(), y);
}
