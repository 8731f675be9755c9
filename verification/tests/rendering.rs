//! Rendering, widening conversions, the borrowed/owned duality, and the
//! kind registry.

use spotify_ids::AlbumIdBuf;
use spotify_ids::AnyId;
use spotify_ids::ArtistId;
use spotify_ids::EpisodeId;
use spotify_ids::Id;
use spotify_ids::IdError;
use spotify_ids::Kind;
use spotify_ids::PlayableId;
use spotify_ids::ShowIdBuf;
use spotify_ids::TrackId;
use spotify_ids::TrackIdBuf;
use spotify_ids::UserId;
use spotify_ids::kinds::kind_from_name;
use spotify_ids::kinds::kind_name_of;

const ID: &str = "4iV5W9uYEdYUVa79Axb7Rh";
const URI: &str = "spotify:track:4iV5W9uYEdYUVa79Axb7Rh";

#[test]
fn test_uri_rendering() {
    let track = TrackId::from_id(ID).unwrap();
    assert_eq!(track.uri(), "spotify:track:4iV5W9uYEdYUVa79Axb7Rh");
    let album = AlbumIdBuf::from_id("6IcGNaXFRf5Y1jc7QsE9O2").unwrap();
    assert_eq!(album.uri(), "spotify:album:6IcGNaXFRf5Y1jc7QsE9O2");
    let user = UserId::from_id("smedjan").unwrap();
    assert_eq!(user.uri(), "spotify:user:smedjan");
}

#[test]
fn test_url_rendering() {
    let track = TrackId::from_id("4y4VO05kYgUTo2bzbox1an").unwrap();
    assert_eq!(track.url(), "https://open.spotify.com/track/4y4VO05kYgUTo2bzbox1an");
    let artist = ArtistId::from_id("2QI8e2Vwgg9KXOz2zjcrkI").unwrap();
    assert_eq!(artist.url(), "https://open.spotify.com/artist/2QI8e2Vwgg9KXOz2zjcrkI");
}

#[test]
fn test_both_spellings_same_id() {
    let colon = TrackId::from_uri("spotify:track:4iV5W9uYEdYUVa79Axb7Rh").unwrap();
    let slash = TrackId::from_uri("spotify/track/4iV5W9uYEdYUVa79Axb7Rh").unwrap();
    assert_eq!(colon.id(), ID);
    assert_eq!(slash.id(), ID);
    assert_eq!(colon, slash);
}

#[test]
fn test_widening_track() {
    // Widening relaxes only the kind tag: the character data is preserved
    // exactly, and only the kind segment of the rendered URI changes.
    let track = TrackId::from_id(ID).unwrap();
    let playable = track.into_playable();
    let any = playable.into_any();
    assert_eq!(track.id(), ID);
    assert_eq!(playable.id(), ID);
    assert_eq!(any.id(), ID);
    assert_eq!(track.uri(), "spotify:track:4iV5W9uYEdYUVa79Axb7Rh");
    assert_eq!(playable.uri(), "spotify:unknown:4iV5W9uYEdYUVa79Axb7Rh");
    assert_eq!(any.uri(), "spotify:unknown:4iV5W9uYEdYUVa79Axb7Rh");
}

#[test]
fn test_widening_play_context() {
    let artist = ArtistId::from_id("2QI8e2Vwgg9KXOz2zjcrkI").unwrap();
    let context = artist.into_play_context();
    assert_eq!(context.id(), "2QI8e2Vwgg9KXOz2zjcrkI");
    let show = ShowIdBuf::from_id("5AvwZVawapvyhJUIx71pdJ").unwrap();
    let context = show.into_play_context();
    assert_eq!(context.id(), "5AvwZVawapvyhJUIx71pdJ");
    let episode = EpisodeId::from_id("0lbiy3LKzIY2fnyjioC11p").unwrap();
    let playable = episode.into_playable();
    assert_eq!(playable.id(), "0lbiy3LKzIY2fnyjioC11p");
}

#[test]
fn test_owned_and_borrowed() {
    let owned = TrackIdBuf::from_uri(URI).unwrap();
    assert_eq!(owned.id(), ID);
    let view = owned.as_borrowed();
    assert_eq!(view.id(), ID);
    assert_eq!(view.to_owned(), owned);
    assert_eq!(view.uri(), owned.uri());
    let widened = owned.clone().into_any();
    assert_eq!(widened.id(), ID);
}

#[test]
fn test_group_types_accept_any_recognized_kind() {
    // The playable/play-context restriction is enforced only by which
    // conversions exist, not by a runtime check on parsed text.
    assert!(PlayableId::from_uri("spotify:artist:2QI8e2Vwgg9KXOz2zjcrkI").is_ok());
    assert_eq!(
        PlayableId::from_uri("spotify:something:2QI8e2Vwgg9KXOz2zjcrkI"),
        Err(IdError::InvalidType)
    );
}

#[test]
fn test_kind_registry() {
    assert_eq!(kind_name_of(Kind::Track), "track");
    assert_eq!(kind_name_of(Kind::Unknown), "unknown");
    assert_eq!(kind_from_name("track"), Some(Kind::Track));
    assert_eq!(kind_from_name("episode"), Some(Kind::Episode));
    assert_eq!(kind_from_name("unknown"), Some(Kind::Unknown));
    // No case normalization and no fuzzy matching.
    assert_eq!(kind_from_name("Track"), None);
    assert_eq!(kind_from_name("tracks"), None);
    assert_eq!(kind_from_name(""), None);
}

#[test]
fn test_error_messages() {
    assert_eq!(IdError::InvalidPrefix.message(), "invalid prefix");
    assert_eq!(IdError::InvalidFormat.message(), "invalid format");
    assert_eq!(IdError::InvalidType.message(), "invalid type");
    assert_eq!(IdError::InvalidId.message(), "invalid id");
}

#[test]
fn test_display_string() {
    let track = TrackId::from_id(ID).unwrap();
    assert_eq!(track.display_string(), "spotify:track:4iV5W9uYEdYUVa79Axb7Rh");
    // A group identifier shows its bare id: its URI would only repeat the
    // wildcard tag.
    assert_eq!(track.into_any().display_string(), ID);
}

#[test]
fn test_from_str() {
    let owned: TrackIdBuf = URI.parse().unwrap();
    assert_eq!(owned.id(), ID);
    let wrong_kind: Result<TrackIdBuf, IdError> = "spotify:album:6IcGNaXFRf5Y1jc7QsE9O2".parse();
    assert_eq!(wrong_kind, Err(IdError::InvalidType));
}

#[test]
fn test_non_ascii_rejected() {
    assert_eq!(TrackId::from_id("4iV5W9uYEdYUVa79Axb7Rh\u{e9}"), Err(IdError::InvalidId));
    assert_eq!(AnyId::from_id("caf\u{e9}"), Err(IdError::InvalidId));
    assert_eq!(TrackId::from_uri("spotify:track:caf\u{e9}"), Err(IdError::InvalidId));
}
