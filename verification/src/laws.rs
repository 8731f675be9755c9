//! General laws of the identifier grammar, stated and proved once over the
//! specification functions that every identifier type's contracts use.

use vstd::prelude::*;
use crate::errors::IdError;
use crate::kinds::Kind;
use crate::kinds::kind_name;
use crate::kinds::kind_of_name;
use crate::parse::parse_id_or_uri_spec;
use crate::parse::parse_uri_spec;
use crate::parse::uri_chars;
use crate::parse::uri_prefix_ok;
use crate::text::lemma_id_chars_are_not_separators;
use crate::text::lemma_last_index_of_at;
use crate::text::valid_id_chars;

verus! {

/// Rendering a kind's canonical name and parsing it back yields the same
/// kind, for every kind including the wildcard.
pub proof fn lemma_kind_name_round_trip(k: Kind)
    ensures
        kind_of_name(kind_name(k)) == Some(k),
{
    reveal_strlit("artist");
    reveal_strlit("album");
    reveal_strlit("track");
    reveal_strlit("playlist");
    reveal_strlit("user");
    reveal_strlit("show");
    reveal_strlit("episode");
    reveal_strlit("unknown");
    assert("artist"@.len() == 6);
    assert("album"@.len() == 5);
    assert("track"@.len() == 5);
    assert("playlist"@.len() == 8);
    assert("user"@.len() == 4);
    assert("show"@.len() == 4);
    assert("episode"@.len() == 7);
    assert("unknown"@.len() == 7);
    assert("album"@[0] == 'a' && "track"@[0] == 't');
    assert("user"@[0] == 'u' && "show"@[0] == 's');
    assert("episode"@[0] == 'e' && "unknown"@[0] == 'u');
    match k {
        Kind::Artist => assert(kind_of_name("artist"@) == Some(Kind::Artist)),
        Kind::Album => assert(kind_of_name("album"@) == Some(Kind::Album)),
        Kind::Track => assert(kind_of_name("track"@) == Some(Kind::Track)),
        Kind::Playlist => assert(kind_of_name("playlist"@) == Some(Kind::Playlist)),
        Kind::User => assert(kind_of_name("user"@) == Some(Kind::User)),
        Kind::Show => assert(kind_of_name("show"@) == Some(Kind::Show)),
        Kind::Episode => assert(kind_of_name("episode"@) == Some(Kind::Episode)),
        Kind::Unknown => assert(kind_of_name("unknown"@) == Some(Kind::Unknown)),
    }
}

/// Parsing a URI built from a kind's canonical name and a valid id, with
/// either separator, succeeds and yields exactly that id.
proof fn lemma_parse_built_uri(k: Kind, sep: char, id: Seq<char>)
    requires
        valid_id_chars(id),
        sep == ':' || sep == '/',
    ensures
        parse_uri_spec(k, "spotify"@ + seq![sep] + kind_name(k) + seq![sep] + id) == Ok::<
            Seq<char>,
            IdError,
        >(id),
{
    reveal_strlit("spotify");
    let u = "spotify"@ + seq![sep] + kind_name(k) + seq![sep] + id;
    let name = kind_name(k);
    assert(u.subrange(0, 7) =~= "spotify"@);
    assert(u[7] == sep);
    assert(uri_prefix_ok(u));
    let rest = u.skip(8);
    assert(rest =~= name + seq![sep] + id);
    let m = name.len() as int;
    assert(rest[m] == sep);
    lemma_id_chars_are_not_separators(id);
    assert forall|j: int| m < j < rest.len() implies rest[j] != sep by {
        assert(rest[j] == id[j - m - 1]);
    }
    lemma_last_index_of_at(rest, sep, m);
    assert(rest.take(m) =~= name);
    assert(rest.skip(m + 1) =~= id);
    lemma_kind_name_round_trip(k);
}

/// Both URI spellings of a valid id parse back to exactly that id, for
/// every kind, when parsed against that same kind.
pub proof fn lemma_both_spellings_parse(k: Kind, id: Seq<char>)
    requires
        valid_id_chars(id),
    ensures
        parse_uri_spec(k, "spotify"@ + ":"@ + kind_name(k) + ":"@ + id) == Ok::<
            Seq<char>,
            IdError,
        >(id),
        parse_uri_spec(k, "spotify"@ + "/"@ + kind_name(k) + "/"@ + id) == Ok::<
            Seq<char>,
            IdError,
        >(id),
{
    reveal_strlit(":");
    reveal_strlit("/");
    assert(":"@ =~= seq![':']);
    assert("/"@ =~= seq!['/']);
    lemma_parse_built_uri(k, ':', id);
    lemma_parse_built_uri(k, '/', id);
}

/// Round trip: the URI rendered by an identifier parses back, against the
/// identifier's own kind, to exactly the identifier's character data, both
/// through URI parsing alone and through the combined id-or-URI parsing.
pub proof fn lemma_uri_round_trip(k: Kind, id: Seq<char>)
    requires
        valid_id_chars(id),
    ensures
        parse_uri_spec(k, uri_chars(k, id)) == Ok::<Seq<char>, IdError>(id),
        parse_id_or_uri_spec(k, uri_chars(k, id)) == Ok::<Seq<char>, IdError>(id),
{
    lemma_both_spellings_parse(k, id);
}

/// Valid identifier text is never in URI form (its characters exclude both
/// separators), so the combined id-or-URI parsing accepts a bare id exactly
/// as bare-id validation does.
pub proof fn lemma_bare_id_parses(k: Kind, t: Seq<char>)
    requires
        valid_id_chars(t),
    ensures
        parse_id_or_uri_spec(k, t) == Ok::<Seq<char>, IdError>(t),
{
    if uri_prefix_ok(t) {
        lemma_id_chars_are_not_separators(t);
        assert(t[7] != ':' && t[7] != '/');
        assert(false);
    }
}

/// The rendered URI decomposes into the fixed prefix `spotify:`, the kind
/// name, a separator and the id. Two identifiers with the same character
/// data therefore render URIs that differ only in the kind segment, which
/// is what a widening conversion changes.
pub proof fn lemma_uri_decomposition(k: Kind, id: Seq<char>)
    ensures
        uri_chars(k, id).len() == 9 + kind_name(k).len() + id.len(),
        uri_chars(k, id).take(8) == "spotify"@ + ":"@,
        uri_chars(k, id).subrange(8, 8 + kind_name(k).len() as int) == kind_name(k),
        uri_chars(k, id)[8 + kind_name(k).len() as int] == ':',
        uri_chars(k, id).skip(9 + kind_name(k).len() as int) == id,
{
    reveal_strlit("spotify");
    reveal_strlit(":");
    let u = uri_chars(k, id);
    let name = kind_name(k);
    assert(u.take(8) =~= "spotify"@ + ":"@);
    assert(u.subrange(8, 8 + name.len() as int) =~= name);
    assert(u[8 + name.len() as int] == ':');
    assert(u.skip(9 + name.len() as int) =~= id);
}

} // verus!
