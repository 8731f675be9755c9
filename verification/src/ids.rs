//! The identifier types: a borrowed, zero-copy view and an owning buffer,
//! both generic over the type-level kind tag, plus the widening conversions
//! between them.

use vstd::prelude::*;
use crate::errors::IdError;
use crate::kinds::AnyKind;
use crate::kinds::Kind;
use crate::kinds::KindMarker;
use crate::kinds::PlayContextKind;
use crate::kinds::PlayContextMarker;
use crate::kinds::PlayableKind;
use crate::kinds::PlayableMarker;
use crate::parse::parse_id_or_uri_spec;
use crate::parse::parse_uri_spec;
use crate::parse::parse_uri_segment;
use crate::parse::render_uri;
use crate::parse::render_url;
use crate::parse::uri_chars;
use crate::parse::url_chars;
use crate::text::is_valid_id;
use crate::text::valid_id_chars;

verus! {

/// The read interface shared by every identifier type.
///
/// A constructed identifier always holds a validated character sequence:
/// `id()` returns it exactly, and `uri()` and `url()` render it together
/// with the canonical name of the identifier's kind.
pub trait Id {
    /// The character sequence of the identifier.
    spec fn id_chars(&self) -> Seq<char>;

    /// The kind tag of the identifier. Fixed by the type, never by the
    /// parsed text: group identifier types carry [`Kind::Unknown`].
    spec fn kind(&self) -> Kind;

    /// The validated id text.
    fn id(&self) -> (r: &str)
        ensures
            r@ == self.id_chars(),
            valid_id_chars(self.id_chars()),
    ;

    /// The identifier's URI, `spotify:{kind}:{id}`.
    fn uri(&self) -> (r: String)
        ensures
            r@ == uri_chars(self.kind(), self.id_chars()),
    ;

    /// The identifier's open.spotify.com URL,
    /// `https://open.spotify.com/{kind}/{id}`.
    fn url(&self) -> (r: String)
        ensures
            r@ == url_chars(self.kind(), self.id_chars()),
    ;

    /// The identifier as shown to a reader: the full URI when the kind is
    /// concrete, and the bare id for the group identifier types, whose URI
    /// would only repeat the wildcard tag.
    fn display_string(&self) -> (r: String)
        ensures
            r@ == if self.kind() == Kind::Unknown {
                self.id_chars()
            } else {
                uri_chars(self.kind(), self.id_chars())
            },
    ;
}

/// An owning identifier is an identifier all the same; this marks the
/// owning buffer types apart from the borrowed views.
pub trait IdBuf: Id {

}

/// A borrowed identifier: a validated, kind-tagged view of a character
/// sequence owned elsewhere. Obtaining one never copies the text.
#[derive(Debug, Copy, PartialEq, Eq, Hash)]
pub struct IdRef<'a, K: KindMarker> {
    tag: K,
    id: &'a str,
}

/// An owning identifier: holds its own character data, with a lifetime
/// independent of the text it was parsed from.
#[derive(Debug, PartialEq, Eq, Hash)]
pub struct IdOwned<K: KindMarker> {
    tag: K,
    id: String,
}

impl<'a, K: KindMarker> Clone for IdRef<'a, K> {
    /// A borrowed view is freely copied; the copy is the same view.
    fn clone(&self) -> (r: Self)
        ensures
            r == *self,
    {
        proof {
            use_type_invariant(&*self);
        }
        IdRef { tag: self.tag, id: self.id }
    }
}

impl<K: KindMarker> Clone for IdOwned<K> {
    /// Cloning copies the character buffer; the clone is equal to the
    /// original.
    fn clone(&self) -> (r: Self)
        ensures
            r == *self,
    {
        proof {
            use_type_invariant(&*self);
        }
        IdOwned { tag: self.tag, id: self.id.clone() }
    }
}

impl<'a, K: KindMarker> IdRef<'a, K> {
    /// Every reachable value of this type holds validated id text: no
    /// construction path bypasses validation.
    #[verifier::type_invariant]
    spec fn inv(self) -> bool {
        valid_id_chars(self.id@)
    }

    /// Validates `id` as identifier text and tags it with this type's kind.
    /// No kind is checked against the text: a bare id carries no kind
    /// information, so the kind is asserted by the caller's choice of type.
    ///
    /// Returns `Err(IdError::InvalidId)` exactly when `id` is empty or
    /// holds a character that is not ASCII alphanumeric.
    pub fn from_id(id: &'a str) -> (r: Result<Self, IdError>)
        ensures
            match r {
                Ok(x) => valid_id_chars(id@) && x.id_chars() == id@,
                Err(e) => !valid_id_chars(id@) && e == IdError::InvalidId,
            },
    {
        if is_valid_id(id) {
            Ok(IdRef { tag: K::value(), id })
        } else {
            Err(IdError::InvalidId)
        }
    }

    /// Parses `uri` as `spotify:{kind}:{id}` or `spotify/{kind}/{id}`,
    /// against this type's kind, borrowing the id segment.
    ///
    /// Succeeds exactly when [`parse_uri_spec`] does, and fails with the
    /// error it prescribes.
    pub fn from_uri(uri: &'a str) -> (r: Result<Self, IdError>)
        ensures
            match r {
                Ok(x) => parse_uri_spec(K::kind(), uri@) == Ok::<Seq<char>, IdError>(x.id_chars()),
                Err(e) => parse_uri_spec(K::kind(), uri@) == Err::<Seq<char>, IdError>(e),
            },
    {
        match parse_uri_segment(uri, K::tag()) {
            Ok(seg) => Ok(IdRef { tag: K::value(), id: seg }),
            Err(e) => Err(e),
        }
    }

    /// Parses `text` as a URI if it is in URI form, and as a bare id
    /// otherwise. Only the `InvalidPrefix` failure falls back to bare-id
    /// validation: a malformed URI is reported as such.
    pub fn from_id_or_uri(text: &'a str) -> (r: Result<Self, IdError>)
        ensures
            match r {
                Ok(x) => parse_id_or_uri_spec(K::kind(), text@) == Ok::<Seq<char>, IdError>(
                    x.id_chars(),
                ),
                Err(e) => parse_id_or_uri_spec(K::kind(), text@) == Err::<Seq<char>, IdError>(e),
            },
    {
        match Self::from_uri(text) {
            Ok(x) => Ok(x),
            Err(e) => match e {
                IdError::InvalidPrefix => Self::from_id(text),
                _ => Err(e),
            },
        }
    }

    /// Copies this view's characters into an owning identifier of the same
    /// kind.
    pub fn to_owned(&self) -> (r: IdOwned<K>)
        ensures
            r.id_chars() == self.id_chars(),
    {
        proof {
            use_type_invariant(&*self);
        }
        IdOwned { tag: self.tag, id: self.id.to_owned() }
    }

    /// Widens to the group that accepts identifiers of any kind. The
    /// character data is untouched; only the kind tag is relaxed.
    pub fn into_any(self) -> (r: IdRef<'a, AnyKind>)
        ensures
            r.id_chars() == self.id_chars(),
    {
        proof {
            use_type_invariant(&self);
        }
        IdRef { tag: AnyKind, id: self.id }
    }
}

impl<'a, K: PlayContextMarker> IdRef<'a, K> {
    /// Widens to the playback-context group. The character data is
    /// untouched; only the kind tag is relaxed.
    pub fn into_play_context(self) -> (r: IdRef<'a, PlayContextKind>)
        ensures
            r.id_chars() == self.id_chars(),
    {
        proof {
            use_type_invariant(&self);
        }
        IdRef { tag: PlayContextKind, id: self.id }
    }
}

impl<'a, K: PlayableMarker> IdRef<'a, K> {
    /// Widens to the playable-media group. The character data is untouched;
    /// only the kind tag is relaxed.
    pub fn into_playable(self) -> (r: IdRef<'a, PlayableKind>)
        ensures
            r.id_chars() == self.id_chars(),
    {
        proof {
            use_type_invariant(&self);
        }
        IdRef { tag: PlayableKind, id: self.id }
    }
}

impl<'a, K: KindMarker> Id for IdRef<'a, K> {
    closed spec fn id_chars(&self) -> Seq<char> {
        self.id@
    }

    open spec fn kind(&self) -> Kind {
        <K as KindMarker>::kind()
    }

    fn id(&self) -> (r: &str) {
        proof {
            use_type_invariant(&*self);
        }
        self.id
    }

    fn uri(&self) -> (r: String) {
        render_uri(K::tag(), self.id)
    }

    fn url(&self) -> (r: String) {
        render_url(K::tag(), self.id)
    }

    fn display_string(&self) -> (r: String) {
        let k = K::tag();
        if k == Kind::Unknown {
            self.id.to_owned()
        } else {
            render_uri(k, self.id)
        }
    }
}

impl<K: KindMarker> IdOwned<K> {
    /// Every reachable value of this type holds validated id text: no
    /// construction path bypasses validation.
    #[verifier::type_invariant]
    spec fn inv(self) -> bool {
        valid_id_chars(self.id@)
    }

    /// Validates `id` as identifier text and copies it into an owning
    /// identifier tagged with this type's kind.
    ///
    /// Returns `Err(IdError::InvalidId)` exactly when `id` is empty or
    /// holds a character that is not ASCII alphanumeric.
    pub fn from_id(id: &str) -> (r: Result<Self, IdError>)
        ensures
            match r {
                Ok(x) => valid_id_chars(id@) && x.id_chars() == id@,
                Err(e) => !valid_id_chars(id@) && e == IdError::InvalidId,
            },
    {
        if is_valid_id(id) {
            Ok(IdOwned { tag: K::value(), id: id.to_owned() })
        } else {
            Err(IdError::InvalidId)
        }
    }

    /// Parses `uri` as `spotify:{kind}:{id}` or `spotify/{kind}/{id}`,
    /// against this type's kind, copying the id segment into fresh storage.
    ///
    /// Succeeds exactly when [`parse_uri_spec`] does, and fails with the
    /// error it prescribes.
    pub fn from_uri(uri: &str) -> (r: Result<Self, IdError>)
        ensures
            match r {
                Ok(x) => parse_uri_spec(K::kind(), uri@) == Ok::<Seq<char>, IdError>(x.id_chars()),
                Err(e) => parse_uri_spec(K::kind(), uri@) == Err::<Seq<char>, IdError>(e),
            },
    {
        match parse_uri_segment(uri, K::tag()) {
            Ok(seg) => Ok(IdOwned { tag: K::value(), id: seg.to_owned() }),
            Err(e) => Err(e),
        }
    }

    /// Parses `text` as a URI if it is in URI form, and as a bare id
    /// otherwise. Only the `InvalidPrefix` failure falls back to bare-id
    /// validation: a malformed URI is reported as such.
    pub fn from_id_or_uri(text: &str) -> (r: Result<Self, IdError>)
        ensures
            match r {
                Ok(x) => parse_id_or_uri_spec(K::kind(), text@) == Ok::<Seq<char>, IdError>(
                    x.id_chars(),
                ),
                Err(e) => parse_id_or_uri_spec(K::kind(), text@) == Err::<Seq<char>, IdError>(e),
            },
    {
        match Self::from_uri(text) {
            Ok(x) => Ok(x),
            Err(e) => match e {
                IdError::InvalidPrefix => Self::from_id(text),
                _ => Err(e),
            },
        }
    }

    /// Exposes this owning identifier as a borrowed view of the same kind,
    /// at zero cost: a re-interpretation of the internal buffer, not a copy.
    pub fn as_borrowed(&self) -> (r: IdRef<'_, K>)
        ensures
            r.id_chars() == self.id_chars(),
    {
        proof {
            use_type_invariant(&*self);
        }
        IdRef { tag: self.tag, id: self.id.as_str() }
    }

    /// Widens to the group that accepts identifiers of any kind. The
    /// character buffer is moved, not copied; only the kind tag is relaxed.
    pub fn into_any(self) -> (r: IdOwned<AnyKind>)
        ensures
            r.id_chars() == self.id_chars(),
    {
        proof {
            use_type_invariant(&self);
        }
        IdOwned { tag: AnyKind, id: self.id }
    }
}

impl<K: PlayContextMarker> IdOwned<K> {
    /// Widens to the playback-context group. The character buffer is moved,
    /// not copied; only the kind tag is relaxed.
    pub fn into_play_context(self) -> (r: IdOwned<PlayContextKind>)
        ensures
            r.id_chars() == self.id_chars(),
    {
        proof {
            use_type_invariant(&self);
        }
        IdOwned { tag: PlayContextKind, id: self.id }
    }
}

impl<K: PlayableMarker> IdOwned<K> {
    /// Widens to the playable-media group. The character buffer is moved,
    /// not copied; only the kind tag is relaxed.
    pub fn into_playable(self) -> (r: IdOwned<PlayableKind>)
        ensures
            r.id_chars() == self.id_chars(),
    {
        proof {
            use_type_invariant(&self);
        }
        IdOwned { tag: PlayableKind, id: self.id }
    }
}

impl<K: KindMarker> Id for IdOwned<K> {
    closed spec fn id_chars(&self) -> Seq<char> {
        self.id@
    }

    open spec fn kind(&self) -> Kind {
        <K as KindMarker>::kind()
    }

    fn id(&self) -> (r: &str) {
        proof {
            use_type_invariant(&*self);
        }
        self.id.as_str()
    }

    fn uri(&self) -> (r: String) {
        render_uri(K::tag(), self.id.as_str())
    }

    fn url(&self) -> (r: String) {
        render_url(K::tag(), self.id.as_str())
    }

    fn display_string(&self) -> (r: String) {
        let k = K::tag();
        if k == Kind::Unknown {
            self.id.clone()
        } else {
            render_uri(k, self.id.as_str())
        }
    }
}

impl<K: KindMarker> IdBuf for IdOwned<K> {

}

impl<K: KindMarker> core::str::FromStr for IdOwned<K> {
    type Err = IdError;

    /// An owning identifier parses from a string through the combined
    /// id-or-URI parsing.
    fn from_str(s: &str) -> Result<Self, IdError> {
        Self::from_id_or_uri(s)
    }
}

/// A borrowed artist identifier.
pub type ArtistId<'a> = IdRef<'a, crate::kinds::ArtistKind>;

/// An owning artist identifier.
pub type ArtistIdBuf = IdOwned<crate::kinds::ArtistKind>;

/// A borrowed album identifier.
pub type AlbumId<'a> = IdRef<'a, crate::kinds::AlbumKind>;

/// An owning album identifier.
pub type AlbumIdBuf = IdOwned<crate::kinds::AlbumKind>;

/// A borrowed track identifier.
pub type TrackId<'a> = IdRef<'a, crate::kinds::TrackKind>;

/// An owning track identifier.
pub type TrackIdBuf = IdOwned<crate::kinds::TrackKind>;

/// A borrowed playlist identifier.
pub type PlaylistId<'a> = IdRef<'a, crate::kinds::PlaylistKind>;

/// An owning playlist identifier.
pub type PlaylistIdBuf = IdOwned<crate::kinds::PlaylistKind>;

/// A borrowed user identifier.
pub type UserId<'a> = IdRef<'a, crate::kinds::UserKind>;

/// An owning user identifier.
pub type UserIdBuf = IdOwned<crate::kinds::UserKind>;

/// A borrowed show identifier.
pub type ShowId<'a> = IdRef<'a, crate::kinds::ShowKind>;

/// An owning show identifier.
pub type ShowIdBuf = IdOwned<crate::kinds::ShowKind>;

/// A borrowed episode identifier.
pub type EpisodeId<'a> = IdRef<'a, crate::kinds::EpisodeKind>;

/// An owning episode identifier.
pub type EpisodeIdBuf = IdOwned<crate::kinds::EpisodeKind>;

/// A borrowed identifier of any kind.
pub type AnyId<'a> = IdRef<'a, AnyKind>;

/// An owning identifier of any kind.
pub type AnyIdBuf = IdOwned<AnyKind>;

/// A borrowed playback-context identifier (artist, album, playlist, show).
pub type PlayContextId<'a> = IdRef<'a, PlayContextKind>;

/// An owning playback-context identifier.
pub type PlayContextIdBuf = IdOwned<PlayContextKind>;

/// A borrowed playable-media identifier (track, episode).
pub type PlayableId<'a> = IdRef<'a, PlayableKind>;

/// An owning playable-media identifier.
pub type PlayableIdBuf = IdOwned<PlayableKind>;

} // verus!
