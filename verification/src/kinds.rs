//! The registry of resource kinds and their canonical textual names.

use vstd::prelude::*;
use crate::text::str_eq;

verus! {

/// The kind of resource an identifier names.
///
/// Seven concrete categories, plus the wildcard [`Kind::Unknown`] carried by
/// the group identifier types whose concrete kind is only known at run time.
#[derive(Debug, Clone, Copy, PartialEq, Eq, Hash, Structural)]
pub enum Kind {
    Artist,
    Album,
    Track,
    Playlist,
    User,
    Show,
    Episode,
    /// The wildcard kind used by the group identifier types.
    Unknown,
}

/// The canonical lowercase name of a kind, used when rendering URIs and URLs.
pub open spec fn kind_name(k: Kind) -> Seq<char> {
    match k {
        Kind::Artist => "artist"@,
        Kind::Album => "album"@,
        Kind::Track => "track"@,
        Kind::Playlist => "playlist"@,
        Kind::User => "user"@,
        Kind::Show => "show"@,
        Kind::Episode => "episode"@,
        Kind::Unknown => "unknown"@,
    }
}

/// The kind whose canonical name is exactly `s`, if any.
pub open spec fn kind_of_name(s: Seq<char>) -> Option<Kind> {
    if s == "artist"@ {
        Some(Kind::Artist)
    } else if s == "album"@ {
        Some(Kind::Album)
    } else if s == "track"@ {
        Some(Kind::Track)
    } else if s == "playlist"@ {
        Some(Kind::Playlist)
    } else if s == "user"@ {
        Some(Kind::User)
    } else if s == "show"@ {
        Some(Kind::Show)
    } else if s == "episode"@ {
        Some(Kind::Episode)
    } else if s == "unknown"@ {
        Some(Kind::Unknown)
    } else {
        None
    }
}

/// Whether a kind parsed out of a URI satisfies the kind the caller asked
/// for: a concrete target accepts exactly itself, while the wildcard target
/// of the group identifier types accepts every recognized kind.
pub open spec fn kind_accepted(target: Kind, parsed: Kind) -> bool {
    parsed == target || target == Kind::Unknown
}

/// The canonical lowercase name of a kind.
pub fn kind_name_of(k: Kind) -> (r: &'static str)
    ensures
        r@ == kind_name(k),
{
    match k {
        Kind::Artist => "artist",
        Kind::Album => "album",
        Kind::Track => "track",
        Kind::Playlist => "playlist",
        Kind::User => "user",
        Kind::Show => "show",
        Kind::Episode => "episode",
        Kind::Unknown => "unknown",
    }
}

/// Parses a kind from its canonical name.
pub fn kind_from_name(s: &str) -> (r: Option<Kind>)
    ensures
        r == kind_of_name(s@),
{
    if str_eq(s, "artist") {
        Some(Kind::Artist)
    } else if str_eq(s, "album") {
        Some(Kind::Album)
    } else if str_eq(s, "track") {
        Some(Kind::Track)
    } else if str_eq(s, "playlist") {
        Some(Kind::Playlist)
    } else if str_eq(s, "user") {
        Some(Kind::User)
    } else if str_eq(s, "show") {
        Some(Kind::Show)
    } else if str_eq(s, "episode") {
        Some(Kind::Episode)
    } else if str_eq(s, "unknown") {
        Some(Kind::Unknown)
    } else {
        None
    }
}

/// A type-level tag tying an identifier type to its [`Kind`].
///
/// The tag of a concrete identifier type is fixed here, at the type level,
/// and never changes after construction: a track identifier is never
/// silently treated as an album identifier.
pub trait KindMarker: Sized + Copy {
    /// The kind this marker stands for.
    spec fn kind() -> Kind;

    /// The kind this marker stands for, as a run-time value.
    fn tag() -> (k: Kind)
        ensures
            k == Self::kind(),
    ;

    /// The (zero-sized) marker value itself.
    fn value() -> Self;
}

/// Marker of the kinds whose identifiers widen to the playback-context
/// group: artists, albums, playlists and shows.
pub trait PlayContextMarker: KindMarker {

}

/// Marker of the kinds whose identifiers widen to the playable-media group:
/// tracks and episodes.
pub trait PlayableMarker: KindMarker {

}

/// Type-level tag of artist identifiers.
#[derive(Debug, Clone, Copy, PartialEq, Eq, Hash)]
pub struct ArtistKind;

/// Type-level tag of album identifiers.
#[derive(Debug, Clone, Copy, PartialEq, Eq, Hash)]
pub struct AlbumKind;

/// Type-level tag of track identifiers.
#[derive(Debug, Clone, Copy, PartialEq, Eq, Hash)]
pub struct TrackKind;

/// Type-level tag of playlist identifiers.
#[derive(Debug, Clone, Copy, PartialEq, Eq, Hash)]
pub struct PlaylistKind;

/// Type-level tag of user identifiers.
#[derive(Debug, Clone, Copy, PartialEq, Eq, Hash)]
pub struct UserKind;

/// Type-level tag of show identifiers.
#[derive(Debug, Clone, Copy, PartialEq, Eq, Hash)]
pub struct ShowKind;

/// Type-level tag of episode identifiers.
#[derive(Debug, Clone, Copy, PartialEq, Eq, Hash)]
pub struct EpisodeKind;

/// Type-level tag of the group identifiers that may hold any kind of id.
#[derive(Debug, Clone, Copy, PartialEq, Eq, Hash)]
pub struct AnyKind;

/// Type-level tag of the group identifiers restricted by convention to
/// playback-context resources (artists, albums, playlists, shows).
#[derive(Debug, Clone, Copy, PartialEq, Eq, Hash)]
pub struct PlayContextKind;

/// Type-level tag of the group identifiers restricted by convention to
/// playable media (tracks, episodes).
#[derive(Debug, Clone, Copy, PartialEq, Eq, Hash)]
pub struct PlayableKind;

impl KindMarker for ArtistKind {
    open spec fn kind() -> Kind {
        Kind::Artist
    }

    fn tag() -> Kind {
        Kind::Artist
    }

    fn value() -> Self {
        ArtistKind
    }
}

impl KindMarker for AlbumKind {
    open spec fn kind() -> Kind {
        Kind::Album
    }

    fn tag() -> Kind {
        Kind::Album
    }

    fn value() -> Self {
        AlbumKind
    }
}

impl KindMarker for TrackKind {
    open spec fn kind() -> Kind {
        Kind::Track
    }

    fn tag() -> Kind {
        Kind::Track
    }

    fn value() -> Self {
        TrackKind
    }
}

impl KindMarker for PlaylistKind {
    open spec fn kind() -> Kind {
        Kind::Playlist
    }

    fn tag() -> Kind {
        Kind::Playlist
    }

    fn value() -> Self {
        PlaylistKind
    }
}

impl KindMarker for UserKind {
    open spec fn kind() -> Kind {
        Kind::User
    }

    fn tag() -> Kind {
        Kind::User
    }

    fn value() -> Self {
        UserKind
    }
}

impl KindMarker for ShowKind {
    open spec fn kind() -> Kind {
        Kind::Show
    }

    fn tag() -> Kind {
        Kind::Show
    }

    fn value() -> Self {
        ShowKind
    }
}

impl KindMarker for EpisodeKind {
    open spec fn kind() -> Kind {
        Kind::Episode
    }

    fn tag() -> Kind {
        Kind::Episode
    }

    fn value() -> Self {
        EpisodeKind
    }
}

impl KindMarker for AnyKind {
    open spec fn kind() -> Kind {
        Kind::Unknown
    }

    fn tag() -> Kind {
        Kind::Unknown
    }

    fn value() -> Self {
        AnyKind
    }
}

impl KindMarker for PlayContextKind {
    open spec fn kind() -> Kind {
        Kind::Unknown
    }

    fn tag() -> Kind {
        Kind::Unknown
    }

    fn value() -> Self {
        PlayContextKind
    }
}

impl KindMarker for PlayableKind {
    open spec fn kind() -> Kind {
        Kind::Unknown
    }

    fn tag() -> Kind {
        Kind::Unknown
    }

    fn value() -> Self {
        PlayableKind
    }
}

impl PlayContextMarker for ArtistKind {

}

impl PlayContextMarker for AlbumKind {

}

impl PlayContextMarker for PlaylistKind {

}

impl PlayContextMarker for ShowKind {

}

impl PlayableMarker for TrackKind {

}

impl PlayableMarker for EpisodeKind {

}

} // verus!
