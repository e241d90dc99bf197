//! The credentials a request carries in its `Authorization` header.

use vstd::prelude::*;
use crate::errors::{AuthenticationError, LLMurError};
use crate::text::{is_ws, seq_eq, split_whitespace, str_from_utf8, views, ws_scan, ws_words};

verus! {

/// A credential taken from the `Authorization` header.
#[derive(Clone, Debug, PartialEq)]
pub enum AuthorizationHeader {
    Bearer(String),
}

/// A header byte that `HeaderValue::to_str` accepts: visible ASCII or tab.
pub open spec fn visible_ascii(b: u8) -> bool {
    (32 <= b && b < 127) || b == 9
}

/// The text of a header value, when every byte is visible ASCII.
pub open spec fn header_text(h: Seq<u8>) -> Option<Seq<char>> {
    if forall|i: int| 0 <= i < h.len() ==> visible_ascii(#[trigger] h[i]) {
        Some(h.map_values(|b: u8| b as char))
    } else {
        None
    }
}

/// The token of a `Bearer <token>` header: the text must split at
/// whitespace into exactly two words, the first of them `Bearer`.
pub open spec fn spec_bearer_token(h: Seq<u8>) -> Result<Seq<char>, AuthenticationError> {
    match header_text(h) {
        None => Err(AuthenticationError::InvalidAuthBearer),
        Some(t) => {
            let w = ws_words(t);
            if w.len() == 2 && w[0] == "Bearer"@ {
                Ok(w[1])
            } else {
                Err(AuthenticationError::InvalidAuthBearer)
            }
        },
    }
}

/// Whether every byte of a header value is visible ASCII.
pub fn is_visible_header(h: &[u8]) -> (r: bool)
    ensures
        r == (forall|i: int| 0 <= i < h@.len() ==> visible_ascii(#[trigger] h@[i])),
{
    let mut i: usize = 0;
    while i < h.len()
        invariant
            i <= h@.len(),
            forall|j: int| 0 <= j < i ==> visible_ascii(#[trigger] h@[j]),
        decreases h@.len() - i,
    {
        let b = h[i];
        if !((32 <= b && b < 127) || b == 9) {
            assert(!visible_ascii(h@[i as int]));
            return false;
        }
        i = i + 1;
    }
    true
}

/// The text of a header value (`HeaderValue::to_str`), or `None` when a
/// byte is not visible ASCII.
pub fn header_to_str(h: &[u8]) -> (r: Option<&str>)
    ensures
        match r {
            Some(t) => header_text(h@) == Some(t@),
            None => header_text(h@) is None,
        },
{
    if is_visible_header(h) {
        assert forall|i: int| 0 <= i < h@.len() implies #[trigger] h@[i] < 128 by {
            assert(visible_ascii(h@[i]));
        }
        match str_from_utf8(h) {
            Some(t) => Some(t),
            None => None,
        }
    } else {
        None
    }
}

/// The token of a `Bearer <token>` `Authorization` header value.
pub fn extract_bearer_token(header: &[u8]) -> (r: Result<String, AuthenticationError>)
    ensures
        match r {
            Ok(t) => spec_bearer_token(header@) == Ok::<Seq<char>, AuthenticationError>(t@),
            Err(e) => spec_bearer_token(header@) == Err::<Seq<char>, AuthenticationError>(e),
        },
{
    let input = match header_to_str(header) {
        Some(t) => t,
        None => {
            return Err(AuthenticationError::InvalidAuthBearer);
        },
    };
    let parts = split_whitespace(input);
    proof {
        assert(views(parts@).len() == parts@.len());
    }
    if parts.len() != 2 {
        return Err(AuthenticationError::InvalidAuthBearer);
    }
    assert(views(parts@)[0] == parts@[0]@);
    assert(views(parts@)[1] == parts@[1]@);
    if !seq_eq(parts[0].as_str(), "Bearer") {
        return Err(AuthenticationError::InvalidAuthBearer);
    }
    Ok(parts[1].clone())
}

/// What the authentication middleware records for a request: the bearer
/// credential of its `Authorization` header, or why there is none.
pub fn authorization_from_header(header: Option<&[u8]>) -> (r: Result<
    AuthorizationHeader,
    AuthenticationError,
>)
    ensures
        match header {
            None => r == Err::<AuthorizationHeader, AuthenticationError>(
                AuthenticationError::AuthHeaderNotProvided,
            ),
            Some(h) => match (spec_bearer_token(h@), r) {
                (Ok(t), Ok(AuthorizationHeader::Bearer(k))) => k@ == t,
                (Err(e), Err(f)) => f == e,
                _ => false,
            },
        },
{
    match header {
        None => Err(AuthenticationError::AuthHeaderNotProvided),
        Some(h) => match extract_bearer_token(h) {
            Ok(t) => Ok(AuthorizationHeader::Bearer(t)),
            Err(e) => Err(e),
        },
    }
}

/// The API key of a request, from what the authentication middleware
/// recorded.
pub fn extract_api_key(auth: Result<AuthorizationHeader, AuthenticationError>) -> (r: Result<
    String,
    LLMurError,
>)
    ensures
        match (auth, r) {
            (Ok(AuthorizationHeader::Bearer(k)), Ok(s)) => s == k,
            (Err(e), Err(f)) => f == LLMurError::Authentication(e),
            _ => false,
        },
{
    match auth {
        Ok(AuthorizationHeader::Bearer(api_key)) => Ok(api_key),
        Err(e) => Err(LLMurError::Authentication(e)),
    }
}

proof fn lemma_scan_word_suffix(pre: Seq<char>, t: Seq<char>, j: int)
    requires
        0 <= j <= t.len(),
        forall|i: int| 0 <= i < t.len() ==> !is_ws(#[trigger] t[i]),
    ensures
        ws_scan(pre + t.subrange(0, j)) == (ws_scan(pre).0, ws_scan(pre).1 + t.subrange(0, j)),
    decreases j,
{
    if j == 0 {
        assert(pre + t.subrange(0, 0) =~= pre);
        assert(ws_scan(pre).1 + t.subrange(0, 0) =~= ws_scan(pre).1);
    } else {
        lemma_scan_word_suffix(pre, t, j - 1);
        let s = pre + t.subrange(0, j);
        assert(s.drop_last() =~= pre + t.subrange(0, j - 1));
        assert(s.last() == t[j - 1]);
        assert(ws_scan(pre).1 + t.subrange(0, j) =~= (ws_scan(pre).1 + t.subrange(0, j - 1)).push(
            t[j - 1],
        ));
    }
}

/// The header `Bearer <token>` gives back the token, for a token of
/// visible ASCII characters other than space.
pub proof fn law_bearer_header_gives_token(t: Seq<char>)
    requires
        t.len() > 0,
        forall|i: int| 0 <= i < t.len() ==> 33 <= (#[trigger] t[i]) as int && (t[i] as int) <= 126,
    ensures
        spec_bearer_token(("Bearer "@ + t).map_values(|c: char| c as u8)) == Ok::<
            Seq<char>,
            AuthenticationError,
        >(t),
{
    reveal_strlit("Bearer ");
    reveal_strlit("Bearer");
    let text = "Bearer "@ + t;
    let h = text.map_values(|c: char| c as u8);
    let b = seq!['B', 'e', 'a', 'r', 'e', 'r', ' '];
    assert("Bearer "@ =~= b);
    assert forall|i: int| 0 <= i < text.len() implies (#[trigger] text[i]) as int <= 126 && 32 <= (
    text[i] as int) by {
        if i >= 7 {
            assert(text[i] == t[i - 7]);
        }
    }
    assert forall|i: int| 0 <= i < h.len() implies visible_ascii(#[trigger] h[i]) by {
        assert(h[i] == text[i] as u8);
    }
    assert(h.map_values(|b: u8| b as char) =~= text) by {
        assert forall|i: int| 0 <= i < text.len() implies h.map_values(|b: u8| b as char)[i] == text[i] by {
            assert(h[i] == text[i] as u8);
        }
    }
    assert(header_text(h) == Some(text));
    let w = seq!['B', 'e', 'a', 'r', 'e', 'r'];
    assert forall|i: int| 0 <= i < w.len() implies !is_ws(#[trigger] w[i]) by {}
    lemma_scan_word_suffix(Seq::<char>::empty(), w, 6);
    assert(Seq::<char>::empty() + w.subrange(0, 6) =~= w);
    assert(ws_scan(Seq::<char>::empty()) == (Seq::<Seq<char>>::empty(), Seq::<char>::empty()));
    assert(Seq::<char>::empty() + w.subrange(0, 6) =~= w);
    assert(ws_scan(w) == (Seq::<Seq<char>>::empty(), w));
    assert(b.drop_last() =~= w);
    assert(b.last() == ' ');
    assert(ws_scan(b) == (seq![w], Seq::<char>::empty()));
    assert forall|i: int| 0 <= i < t.len() implies !is_ws(#[trigger] t[i]) by {}
    lemma_scan_word_suffix(b, t, t.len() as int);
    assert(t.subrange(0, t.len() as int) =~= t);
    assert(Seq::<char>::empty() + t =~= t);
    assert(ws_words(text) =~= seq![seq!['B', 'e', 'a', 'r', 'e', 'r'], t]);
    assert("Bearer"@ =~= seq!['B', 'e', 'a', 'r', 'e', 'r']);
}

} // verus!
