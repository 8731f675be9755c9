//! Pure decision logic of the authorization support around the client:
//! comparing whitespace-separated scope lists, deciding token expiry, and
//! mapping caller-supplied random bytes into the state-string alphabet.
//!
//! Everything here computes on plain values; reading the environment, the
//! clock or the random source is the surrounding (unverified) plumbing's
//! job.

use vstd::prelude::*;
use vstd::string::StrSliceExecFns;
use vstd::string::StringExecFns;
use crate::text::is_id_char;
use crate::text::str_eq;
use crate::text::valid_id_chars;

verus! {

/// Whether `c` separates entries of a scope list: the Unicode White_Space
/// set.
pub open spec fn is_space_char(c: char) -> bool {
    (9 <= c as u32 && c as u32 <= 13) || c as u32 == 32 || c as u32 == 0x85 || c as u32 == 0xA0
        || c as u32 == 0x1680 || (0x2000 <= c as u32 && c as u32 <= 0x200A) || c as u32 == 0x2028
        || c as u32 == 0x2029 || c as u32 == 0x202F || c as u32 == 0x205F || c as u32 == 0x3000
}

/// Whether `c` separates entries of a scope list.
pub fn is_space_char_exec(c: char) -> (r: bool)
    ensures
        r == is_space_char(c),
{
    let u = c as u32;
    (9 <= u && u <= 13) || u == 32 || u == 0x85 || u == 0xA0 || u == 0x1680 || (0x2000 <= u && u
        <= 0x200A) || u == 0x2028 || u == 0x2029 || u == 0x202F || u == 0x205F || u == 0x3000
}

/// `s[i..j]` is a maximal whitespace-free run of `s`: non-empty, free of
/// whitespace, and bounded by whitespace or by the ends of `s`.
pub open spec fn is_word_at(s: Seq<char>, i: int, j: int) -> bool {
    0 <= i < j <= s.len() && (forall|k: int| i <= k < j ==> !is_space_char(#[trigger] s[k])) && (i
        == 0 || is_space_char(s[i - 1])) && (j == s.len() || is_space_char(s[j]))
}

/// The set of scopes a whitespace-separated scope list names.
pub open spec fn scope_words(s: Seq<char>) -> Set<Seq<char>> {
    Set::new(
        |w: Seq<char>| exists|i: int, j: int| is_word_at(s, i, j) && w == s.subrange(i, j),
    )
}

/// Splits a scope list into its words: the elements are exactly the
/// maximal whitespace-free runs of `s`.
fn split_scope<'a>(s: &'a str) -> (words: Vec<&'a str>)
    ensures
        forall|t: int| 0 <= t < words@.len() ==> scope_words(s@).contains(#[trigger] words@[t]@),
        forall|w: Seq<char>|
            #[trigger] scope_words(s@).contains(w) ==> exists|t: int|
                0 <= t < words@.len() && words@[t]@ == w,
{
    let n = s.unicode_len();
    let mut words: Vec<&'a str> = Vec::new();
    let mut start: Option<usize> = None;
    let mut p: usize = 0;
    while p < n
        invariant
            p <= n,
            n == s@.len(),
            match start {
                Some(i) => i < p && (forall|k: int| i <= k < p ==> !is_space_char(#[trigger] s@[k]))
                    && (i == 0 || is_space_char(s@[i - 1])),
                None => p == 0 || is_space_char(s@[p - 1]),
            },
            forall|t: int| 0 <= t < words@.len() ==> scope_words(s@).contains(#[trigger] words@[t]@),
            forall|i: int, j: int|
                is_word_at(s@, i, j) && j < p ==> exists|t: int|
                    0 <= t < words@.len() && #[trigger] words@[t]@ == s@.subrange(i, j),
        decreases n - p,
    {
        let c = s.get_char(p);
        if is_space_char_exec(c) {
            match start {
                Some(i) => {
                    let w = s.substring_char(i, p);
                    let ghost prev = words@;
                    proof {
                        assert(is_word_at(s@, i as int, p as int));
                        assert(w@ == s@.subrange(i as int, p as int));
                        assert(scope_words(s@).contains(w@));
                    }
                    words.push(w);
                    start = None;
                    proof {
                        assert(words@ =~= prev.push(w));
                        assert forall|i2: int, j2: int|
                            is_word_at(s@, i2, j2) && j2 < p + 1 implies exists|t: int|
                            0 <= t < words@.len() && #[trigger] words@[t]@ == s@.subrange(
                            i2,
                            j2,
                        ) by {
                            if j2 < p {
                                let t0 = choose|t: int|
                                    0 <= t < prev.len() && #[trigger] prev[t]@ == s@.subrange(
                                        i2,
                                        j2,
                                    );
                                assert(words@[t0]@ == s@.subrange(i2, j2));
                            } else {
                                if i2 < i as int {
                                    assert(is_space_char(s@[i as int - 1]));
                                    assert(!is_space_char(s@[i as int - 1]));
                                }
                                if i2 > i as int {
                                    assert(is_space_char(s@[i2 - 1]));
                                    assert(!is_space_char(s@[i2 - 1]));
                                }
                                assert(i2 == i as int);
                                assert(words@[prev.len() as int]@ == s@.subrange(i2, j2));
                            }
                        }
                    }
                },
                None => {
                    proof {
                        assert forall|i2: int, j2: int|
                            is_word_at(s@, i2, j2) && j2 < p + 1 implies exists|t: int|
                            0 <= t < words@.len() && #[trigger] words@[t]@ == s@.subrange(
                            i2,
                            j2,
                        ) by {
                            if j2 == p {
                                assert(i2 < p);
                                assert(p > 0);
                                assert(is_space_char(s@[p - 1]));
                                assert(!is_space_char(s@[p - 1]));
                            }
                        }
                    }
                },
            }
        } else {
            match start {
                Some(_) => {
                },
                None => {
                    start = Some(p);
                },
            }
            proof {
                assert forall|i2: int, j2: int|
                    is_word_at(s@, i2, j2) && j2 < p + 1 implies exists|t: int|
                    0 <= t < words@.len() && #[trigger] words@[t]@ == s@.subrange(i2, j2) by {
                    if j2 == p {
                        assert(j2 < s@.len());
                        assert(is_space_char(s@[j2]));
                        assert(!is_space_char(s@[p as int]));
                    }
                }
            }
        }
        p += 1;
    }
    match start {
        Some(i) => {
            let w = s.substring_char(i, n);
            let ghost prev = words@;
            proof {
                assert(is_word_at(s@, i as int, n as int));
                assert(w@ == s@.subrange(i as int, n as int));
                assert(scope_words(s@).contains(w@));
            }
            words.push(w);
            proof {
                assert(words@ =~= prev.push(w));
                assert forall|i2: int, j2: int|
                    is_word_at(s@, i2, j2) && j2 <= n implies exists|t: int|
                    0 <= t < words@.len() && #[trigger] words@[t]@ == s@.subrange(i2, j2) by {
                    if j2 < n {
                        let t0 = choose|t: int|
                            0 <= t < prev.len() && #[trigger] prev[t]@ == s@.subrange(i2, j2);
                        assert(words@[t0]@ == s@.subrange(i2, j2));
                    } else {
                        if i2 < i as int {
                            assert(is_space_char(s@[i as int - 1]));
                            assert(!is_space_char(s@[i as int - 1]));
                        }
                        if i2 > i as int {
                            assert(is_space_char(s@[i2 - 1]));
                            assert(!is_space_char(s@[i2 - 1]));
                        }
                        assert(i2 == i as int);
                        assert(words@[prev.len() as int]@ == s@.subrange(i2, j2));
                    }
                }
            }
        },
        None => {
            proof {
                assert forall|i2: int, j2: int|
                    is_word_at(s@, i2, j2) && j2 <= n implies exists|t: int|
                    0 <= t < words@.len() && #[trigger] words@[t]@ == s@.subrange(i2, j2) by {
                    if j2 == n {
                        assert(i2 < n);
                        assert(n > 0);
                        assert(is_space_char(s@[n - 1]));
                        assert(!is_space_char(s@[n - 1]));
                    }
                }
            }
        },
    }
    proof {
        assert forall|w: Seq<char>| #[trigger]
            scope_words(s@).contains(w) implies exists|t: int|
            0 <= t < words@.len() && words@[t]@ == w by {
            let (i, j): (int, int) = choose|i: int, j: int|
                is_word_at(s@, i, j) && w == s@.subrange(i, j);
            assert(is_word_at(s@, i, j) && j <= n);
            let t0 = choose|t: int|
                0 <= t < words@.len() && #[trigger] words@[t]@ == s@.subrange(i, j);
            assert(words@[t0]@ == w);
        }
    }
    words
}

/// Whether some element of `words` holds the same characters as `w`.
fn contains_word(words: &Vec<&str>, w: &str) -> (r: bool)
    ensures
        r == exists|t: int| 0 <= t < words@.len() && #[trigger] words@[t]@ == w@,
{
    let mut t: usize = 0;
    while t < words.len()
        invariant
            t <= words@.len(),
            forall|u: int| 0 <= u < t ==> #[trigger] words@[u]@ != w@,
        decreases words@.len() - t,
    {
        if str_eq(words[t], w) {
            return true;
        }
        t += 1;
    }
    false
}

/// Whether every scope of `needle_scope` also appears in `haystack_scope`:
/// the scope lists are compared as sets of whitespace-separated words.
pub fn is_scope_subset(needle_scope: &str, haystack_scope: &str) -> (r: bool)
    ensures
        r == scope_words(needle_scope@).subset_of(scope_words(haystack_scope@)),
{
    let needle_words = split_scope(needle_scope);
    let haystack_words = split_scope(haystack_scope);
    let mut t: usize = 0;
    while t < needle_words.len()
        invariant
            t <= needle_words@.len(),
            forall|u: int|
                0 <= u < needle_words@.len() ==> scope_words(needle_scope@).contains(
                    #[trigger] needle_words@[u]@,
                ),
            forall|w: Seq<char>|
                #[trigger] scope_words(needle_scope@).contains(w) ==> exists|u: int|
                    0 <= u < needle_words@.len() && needle_words@[u]@ == w,
            forall|u: int|
                0 <= u < haystack_words@.len() ==> scope_words(haystack_scope@).contains(
                    #[trigger] haystack_words@[u]@,
                ),
            forall|w: Seq<char>|
                #[trigger] scope_words(haystack_scope@).contains(w) ==> exists|u: int|
                    0 <= u < haystack_words@.len() && haystack_words@[u]@ == w,
            forall|u: int|
                0 <= u < t ==> scope_words(haystack_scope@).contains(
                    #[trigger] needle_words@[u]@,
                ),
        decreases needle_words@.len() - t,
    {
        let found = contains_word(&haystack_words, needle_words[t]);
        if !found {
            proof {
                let w = needle_words@[t as int]@;
                assert(scope_words(needle_scope@).contains(w));
                if scope_words(haystack_scope@).contains(w) {
                    let u = choose|u: int|
                        0 <= u < haystack_words@.len() && haystack_words@[u]@ == w;
                    assert(false);
                }
                assert(!scope_words(needle_scope@).subset_of(scope_words(haystack_scope@)));
            }
            return false;
        }
        t += 1;
    }
    proof {
        assert forall|w: Seq<char>|
            scope_words(needle_scope@).contains(w) implies scope_words(
            haystack_scope@,
        ).contains(w) by {
            let u = choose|u: int| 0 <= u < needle_words@.len() && needle_words@[u]@ == w;
        }
        assert(scope_words(needle_scope@).subset_of(scope_words(haystack_scope@)));
    }
    true
}

/// Whether a token with the given expiry timestamp is expired at time
/// `now` (both as Unix timestamps), with a ten-second safety buffer. A
/// token with no recorded expiry counts as expired.
pub fn token_expired(expires_at: Option<i64>, now: i64) -> (r: bool)
    ensures
        r == match expires_at {
            Some(t) => now > t - 10,
            None => true,
        },
{
    match expires_at {
        Some(t) => {
            if t >= i64::MIN + 10 {
                now > t - 10
            } else {
                true
            }
        },
        None => true,
    }
}

/// Whether a cached token may serve the current client: it must cover at
/// least the currently required scopes, and must not be expired at `now`.
pub fn cached_token_usable(
    required_scope: &str,
    token_scope: &str,
    expires_at: Option<i64>,
    now: i64,
) -> (r: bool)
    ensures
        r == (scope_words(required_scope@).subset_of(scope_words(token_scope@)) && match expires_at {
            Some(t) => now <= t - 10,
            None => false,
        }),
{
    is_scope_subset(required_scope, token_scope) && !token_expired(expires_at, now)
}

/// The query parameters of the URL that authorizes a client, in order:
/// the client's id, the fixed response type `code`, the redirect URI, the
/// requested scopes and the state, plus the dialog flag when asked for.
/// Encoding them into the URL is the surrounding plumbing's job.
pub fn authorize_params(
    client_id: &str,
    redirect_uri: &str,
    scope: &str,
    state: &str,
    show_dialog: bool,
) -> (r: Vec<(String, String)>)
    ensures
        r@.len() == (if show_dialog {
            6int
        } else {
            5int
        }),
        r@[0].0@ == "client_id"@ && r@[0].1@ == client_id@,
        r@[1].0@ == "response_type"@ && r@[1].1@ == "code"@,
        r@[2].0@ == "redirect_uri"@ && r@[2].1@ == redirect_uri@,
        r@[3].0@ == "scope"@ && r@[3].1@ == scope@,
        r@[4].0@ == "state"@ && r@[4].1@ == state@,
        show_dialog ==> r@[5].0@ == "show_dialog"@ && r@[5].1@ == "true"@,
{
    let mut r: Vec<(String, String)> = Vec::new();
    r.push(("client_id".to_owned(), client_id.to_owned()));
    r.push(("response_type".to_owned(), "code".to_owned()));
    r.push(("redirect_uri".to_owned(), redirect_uri.to_owned()));
    r.push(("scope".to_owned(), scope.to_owned()));
    r.push(("state".to_owned(), state.to_owned()));
    if show_dialog {
        r.push(("show_dialog".to_owned(), "true".to_owned()));
    }
    r
}

/// The form of a token-refresh request: the refresh token and the matching
/// grant type.
pub fn refresh_token_form(refresh_token: &str) -> (r: Vec<(String, String)>)
    ensures
        r@.len() == 2,
        r@[0].0@ == "refresh_token"@ && r@[0].1@ == refresh_token@,
        r@[1].0@ == "grant_type"@ && r@[1].1@ == "refresh_token"@,
{
    let mut r: Vec<(String, String)> = Vec::new();
    r.push(("refresh_token".to_owned(), refresh_token.to_owned()));
    r.push(("grant_type".to_owned(), "refresh_token".to_owned()));
    r
}

/// The form of a client-credentials token request: the grant type alone.
pub fn client_credentials_form() -> (r: Vec<(String, String)>)
    ensures
        r@.len() == 1,
        r@[0].0@ == "grant_type"@ && r@[0].1@ == "client_credentials"@,
{
    let mut r: Vec<(String, String)> = Vec::new();
    r.push(("grant_type".to_owned(), "client_credentials".to_owned()));
    r
}

/// The form of a user-token request in the authorization-code flow: the
/// grant type, the redirect URI, the code obtained from the user, and the
/// requested scopes and state.
pub fn user_token_form(
    redirect_uri: &str,
    code: &str,
    scope: &str,
    state: &str,
) -> (r: Vec<(String, String)>)
    ensures
        r@.len() == 5,
        r@[0].0@ == "grant_type"@ && r@[0].1@ == "authorization_code"@,
        r@[1].0@ == "redirect_uri"@ && r@[1].1@ == redirect_uri@,
        r@[2].0@ == "code"@ && r@[2].1@ == code@,
        r@[3].0@ == "scope"@ && r@[3].1@ == scope@,
        r@[4].0@ == "state"@ && r@[4].1@ == state@,
{
    let mut r: Vec<(String, String)> = Vec::new();
    r.push(("grant_type".to_owned(), "authorization_code".to_owned()));
    r.push(("redirect_uri".to_owned(), redirect_uri.to_owned()));
    r.push(("code".to_owned(), code.to_owned()));
    r.push(("scope".to_owned(), scope.to_owned()));
    r.push(("state".to_owned(), state.to_owned()));
    r
}

/// The alphabet that generated state strings draw from.
pub open spec fn state_alphabet() -> Seq<char> {
    "abcdefghijklmnopqrstuvwxyzABCDEFGHIJKLMNOPQRSTUVWXYZ0123456789"@
}

/// The alphabet character a byte selects: bytes are reduced modulo the
/// alphabet's length, 62.
pub open spec fn state_char_of(b: u8) -> char {
    state_alphabet()[b as int % 62]
}

/// Every character of the state alphabet is ASCII alphanumeric, so a
/// non-empty generated state string is itself valid identifier text.
pub proof fn lemma_state_alphabet_alphanumeric()
    ensures
        valid_id_chars(state_alphabet()),
{
    reveal_strlit("abcdefghijklmnopqrstuvwxyzABCDEFGHIJKLMNOPQRSTUVWXYZ0123456789");
    assert forall|j: int| 0 <= j < state_alphabet().len() implies is_id_char(
        #[trigger] state_alphabet()[j],
    ) by {
    }
}

/// Maps caller-supplied (typically random) bytes into the state-string
/// alphabet, one character per byte. Drawing the random bytes themselves
/// is the caller's job: this function is deterministic in its argument.
pub fn state_string_from_bytes(bytes: &Vec<u8>) -> (r: String)
    ensures
        r@.len() == bytes@.len(),
        forall|i: int| 0 <= i < bytes@.len() ==> r@[i] == state_char_of(bytes@[i]),
        bytes@.len() > 0 ==> valid_id_chars(r@),
{
    proof {
        lemma_state_alphabet_alphanumeric();
    }
    let table = "abcdefghijklmnopqrstuvwxyzABCDEFGHIJKLMNOPQRSTUVWXYZ0123456789";
    proof {
        reveal_strlit("abcdefghijklmnopqrstuvwxyzABCDEFGHIJKLMNOPQRSTUVWXYZ0123456789");
        assert(table@.len() == 62);
    }
    let mut r = String::new();
    let mut i: usize = 0;
    while i < bytes.len()
        invariant
            i <= bytes@.len(),
            table@ == state_alphabet(),
            table@.len() == 62,
            r@.len() == i,
            forall|k: int| 0 <= k < i ==> r@[k] == state_char_of(bytes@[k]),
        decreases bytes@.len() - i,
    {
        let idx = (bytes[i] % 62) as usize;
        let piece = table.substring_char(idx, idx + 1);
        r.append(piece);
        i += 1;
    }
    r
}

} // verus!
