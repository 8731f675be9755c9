//! The single validation, parsing and formatting algorithm shared by every
//! kind of identifier.
//!
//! A URI is one of two spellings, `spotify:{kind}:{id}` or
//! `spotify/{kind}/{id}`: the literal word `spotify`, a separator that is
//! exactly `:` or `/`, and then a kind segment and an id segment split at the
//! *last* occurrence of that same separator. Mixing the two separators is
//! invalid.

use vstd::prelude::*;
use vstd::string::StrSliceExecFns;
use crate::errors::IdError;
use crate::kinds::Kind;
use crate::kinds::kind_accepted;
use crate::kinds::kind_from_name;
use crate::kinds::kind_name;
use crate::kinds::kind_name_of;
use crate::kinds::kind_of_name;
use crate::text::is_valid_id;
use crate::text::last_index_of;
use crate::text::lemma_last_index_of_at;
use crate::text::lemma_last_index_of_none;
use crate::text::str_eq;
use crate::text::valid_id_chars;

verus! {

/// The rendered URI of an identifier: `spotify:{kind}:{id}`.
pub open spec fn uri_chars(k: Kind, id: Seq<char>) -> Seq<char> {
    "spotify"@ + ":"@ + kind_name(k) + ":"@ + id
}

/// The rendered URL of an identifier: `https://open.spotify.com/{kind}/{id}`.
pub open spec fn url_chars(k: Kind, id: Seq<char>) -> Seq<char> {
    "https://open.spotify.com/"@ + kind_name(k) + "/"@ + id
}

/// Whether `u` opens like a URI: the literal word `spotify` followed by a
/// separator character that is exactly `:` or `/`.
pub open spec fn uri_prefix_ok(u: Seq<char>) -> bool {
    u.len() >= 8 && u.subrange(0, 7) == "spotify"@ && (u[7] == ':' || u[7] == '/')
}

/// What parsing text as a URI against a target kind yields: the validated id
/// segment, or the precise error.
///
/// The algorithm: strip the word `spotify` (else `InvalidPrefix`); read the
/// separator, which must be `:` or `/` (else `InvalidPrefix`); split the rest
/// at the last occurrence of that separator (none left: `InvalidFormat`);
/// the kind segment must name a kind the target accepts (else
/// `InvalidType`); the id segment must be valid identifier text (else
/// `InvalidId`).
pub open spec fn parse_uri_spec(target: Kind, u: Seq<char>) -> Result<Seq<char>, IdError> {
    if !uri_prefix_ok(u) {
        Err(IdError::InvalidPrefix)
    } else {
        let sep = u[7];
        let rest = u.skip(8);
        let m = last_index_of(rest, sep);
        if m < 0 {
            Err(IdError::InvalidFormat)
        } else {
            let kind_segment = rest.take(m);
            let id_segment = rest.skip(m + 1);
            match kind_of_name(kind_segment) {
                Some(k) => if kind_accepted(target, k) {
                    if valid_id_chars(id_segment) {
                        Ok(id_segment)
                    } else {
                        Err(IdError::InvalidId)
                    }
                } else {
                    Err(IdError::InvalidType)
                },
                None => Err(IdError::InvalidType),
            }
        }
    }
}

/// What parsing text as either a bare id or a URI yields: URI parsing is
/// tried first, and only the `InvalidPrefix` failure (the text simply is not
/// in URI form) falls back to bare-id validation; every other URI failure is
/// reported as such.
pub open spec fn parse_id_or_uri_spec(target: Kind, t: Seq<char>) -> Result<Seq<char>, IdError> {
    match parse_uri_spec(target, t) {
        Ok(id) => Ok(id),
        Err(e) => if e == IdError::InvalidPrefix {
            if valid_id_chars(t) {
                Ok(t)
            } else {
                Err(IdError::InvalidId)
            }
        } else {
            Err(e)
        },
    }
}

/// Parses `uri` against `target`, returning the id segment as a slice of
/// `uri` (no copy), or the error that [`parse_uri_spec`] prescribes.
pub fn parse_uri_segment<'a>(uri: &'a str, target: Kind) -> (r: Result<&'a str, IdError>)
    ensures
        match r {
            Ok(seg) => parse_uri_spec(target, uri@) == Ok::<Seq<char>, IdError>(seg@)
                && valid_id_chars(seg@),
            Err(e) => parse_uri_spec(target, uri@) == Err::<Seq<char>, IdError>(e),
        },
{
    let n = uri.unicode_len();
    if n < 8 {
        return Err(IdError::InvalidPrefix);
    }
    let prefix = uri.substring_char(0, 7);
    if !str_eq(prefix, "spotify") {
        return Err(IdError::InvalidPrefix);
    }
    let sep = uri.get_char(7);
    if !(sep == ':' || sep == '/') {
        return Err(IdError::InvalidPrefix);
    }
    let rest = uri.substring_char(8, n);
    let rlen = n - 8;
    proof {
        assert(rest@ == uri@.skip(8));
        assert(rlen == rest@.len());
    }
    let mut i: usize = rlen;
    while i > 0
        invariant
            i <= rlen,
            rlen == rest@.len(),
            rest@ == uri@.skip(8),
            uri_prefix_ok(uri@),
            sep == uri@[7],
            forall|j: int| i <= j < rlen ==> rest@[j] != sep,
        decreases i,
    {
        i -= 1;
        if rest.get_char(i) == sep {
            proof {
                lemma_last_index_of_at(rest@, sep, i as int);
            }
            let kind_segment = rest.substring_char(0, i);
            let id_segment = rest.substring_char(i + 1, rlen);
            proof {
                assert(kind_segment@ == rest@.take(i as int));
                assert(id_segment@ == rest@.skip(i as int + 1));
            }
            match kind_from_name(kind_segment) {
                Some(k) => {
                    if k == target || target == Kind::Unknown {
                        if is_valid_id(id_segment) {
                            return Ok(id_segment);
                        } else {
                            return Err(IdError::InvalidId);
                        }
                    } else {
                        return Err(IdError::InvalidType);
                    }
                },
                None => {
                    return Err(IdError::InvalidType);
                },
            }
        }
    }
    proof {
        lemma_last_index_of_none(rest@, sep);
    }
    Err(IdError::InvalidFormat)
}

/// Renders `spotify:{kind}:{id}`.
pub fn render_uri(k: Kind, id: &str) -> (r: String)
    ensures
        r@ == uri_chars(k, id@),
{
    let mut s = String::new();
    s.append("spotify");
    s.append(":");
    s.append(kind_name_of(k));
    s.append(":");
    s.append(id);
    proof {
        assert(s@ =~= uri_chars(k, id@));
    }
    s
}

/// Renders `https://open.spotify.com/{kind}/{id}`.
pub fn render_url(k: Kind, id: &str) -> (r: String)
    ensures
        r@ == url_chars(k, id@),
{
    let mut s = String::new();
    s.append("https://open.spotify.com/");
    s.append(kind_name_of(k));
    s.append("/");
    s.append(id);
    proof {
        assert(s@ =~= url_chars(k, id@));
    }
    s
}

} // verus!
