//! Provider file references: which references name a downloadable error file,
//! and when a virtual batch gets an error file at all.

use vstd::prelude::*;
use crate::batch_types::{BatchObject, BatchStatus, VirtualBatchRequestCounts};
use crate::errors::{LLMurError, bad_request};
use crate::records::ProviderBatch;
use crate::text::{
    char_is_control, char_is_ws, concat, contains_char, is_control, is_prefix, is_ws, seq_eq,
    starts_with, to_owned, trim, trim_str,
};

verus! {

/// First position at or after `i` where `p` occurs in `s`.
pub open spec fn find_from(s: Seq<char>, p: Seq<char>, i: int) -> Option<int>
    decreases s.len() + 1 - i,
{
    if i < 0 || i + p.len() > s.len() {
        None
    } else if s.subrange(i, i + p.len()) == p {
        Some(i)
    } else {
        find_from(s, p, i + 1)
    }
}

/// Position of the first `?` or `#` at or after `i`, or the length.
pub open spec fn query_start(s: Seq<char>, i: int) -> int
    decreases s.len() - i,
{
    if i < 0 || i >= s.len() {
        s.len() as int
    } else if s[i] == '?' || s[i] == '#' {
        i
    } else {
        query_start(s, i + 1)
    }
}

pub open spec fn is_id_char(c: char) -> bool {
    ('a' <= c && c <= 'z') || ('A' <= c && c <= 'Z') || ('0' <= c && c <= '9') || c == '-' || c
        == '_'
}

/// The longest id a Gemini file reference may carry.
pub const MAX_GEMINI_FILE_ID_LEN: usize = 128;

/// The text after the `files/` resource segment: a leading `files/`, or the
/// first `/files/` of a URL.
pub open spec fn gemini_ref_tail(t: Seq<char>) -> Option<Seq<char>> {
    if is_prefix("files/"@, t) {
        Some(t.subrange(6, t.len() as int))
    } else {
        match find_from(t, "/files/"@, 0) {
            Some(i) => Some(t.subrange(i + 7, t.len() as int)),
            None => None,
        }
    }
}

/// A Gemini file reference in canonical `files/<id>` form, or nothing when
/// the text names no file: the id ends before any query or fragment, is not
/// empty, has at most 128 characters, and uses only ASCII letters, digits,
/// `-` and `_`.
pub open spec fn spec_gemini_file_reference(value: Seq<char>) -> Option<Seq<char>> {
    match gemini_ref_tail(trim(value)) {
        None => None,
        Some(tail) => {
            let id = tail.subrange(0, query_start(tail, 0));
            if 1 <= id.len() <= MAX_GEMINI_FILE_ID_LEN && forall|k: int|
                0 <= k < id.len() ==> is_id_char(#[trigger] id[k]) {
                Some("files/"@ + id)
            } else {
                None
            }
        },
    }
}

fn find_sub(s: &str, p: &str) -> (r: Option<usize>)
    ensures
        match r {
            Some(i) => find_from(s@, p@, 0) == Some(i as int) && i + p@.len() <= s@.len(),
            None => find_from(s@, p@, 0) is None,
        },
{
    let n = s.unicode_len();
    let m = p.unicode_len();
    if m == 0 {
        assert(s@.subrange(0, 0) =~= p@);
        return Some(0);
    }
    let mut i: usize = 0;
    while m <= n && i <= n - m
        invariant
            n == s@.len(),
            m == p@.len(),
            m >= 1,
            i <= n,
            find_from(s@, p@, 0) == find_from(s@, p@, i as int),
        decreases n + 1 - i,
    {
        if seq_eq(s.substring_char(i, i + m), p) {
            return Some(i);
        }
        i = i + 1;
    }
    None
}

fn query_start_exec(s: &str) -> (r: usize)
    ensures
        r == query_start(s@, 0),
        r <= s@.len(),
{
    let n = s.unicode_len();
    let mut i: usize = 0;
    while i < n
        invariant
            n == s@.len(),
            i <= n,
            query_start(s@, 0) == query_start(s@, i as int),
        decreases n - i,
    {
        let c = s.get_char(i);
        if c == '?' || c == '#' {
            return i;
        }
        i = i + 1;
    }
    i
}

fn is_id_char_exec(c: char) -> (r: bool)
    ensures
        r == is_id_char(c),
{
    ('a' <= c && c <= 'z') || ('A' <= c && c <= 'Z') || ('0' <= c && c <= '9') || c == '-' || c
        == '_'
}

/// Canonical form of a Gemini file reference, from a bare `files/<id>` or
/// from a URL that contains one.
pub fn normalize_gemini_file_reference(value: &str) -> (r: Option<String>)
    ensures
        match r {
            Some(s) => spec_gemini_file_reference(value@) == Some(s@),
            None => spec_gemini_file_reference(value@) is None,
        },
{
    let t = trim_str(value);
    let n = t.unicode_len();
    let tail: &str = if starts_with(t, "files/") {
        proof {
            reveal_strlit("files/");
        }
        t.substring_char(6, n)
    } else {
        match find_sub(t, "/files/") {
            Some(i) => {
                proof {
                    reveal_strlit("/files/");
                }
                t.substring_char(i + 7, n)
            },
            None => return None,
        }
    };
    assert(gemini_ref_tail(t@) == Some(tail@));
    let end = query_start_exec(tail);
    let id = tail.substring_char(0, end);
    let len = id.unicode_len();
    if len < 1 || len > MAX_GEMINI_FILE_ID_LEN {
        return None;
    }
    let mut k: usize = 0;
    while k < len
        invariant
            len == id@.len(),
            k <= len,
            1 <= len <= MAX_GEMINI_FILE_ID_LEN,
            gemini_ref_tail(trim(value@)) == Some(tail@),
            id@ == tail@.subrange(0, query_start(tail@, 0)),
            forall|j: int| 0 <= j < k ==> is_id_char(#[trigger] id@[j]),
        decreases len - k,
    {
        if !is_id_char_exec(id.get_char(k)) {
            assert(!is_id_char(id@[k as int]));
            return None;
        }
        k = k + 1;
    }
    Some(concat("files/", id))
}

/// A Gemini provider file id, or a bad-request error when it names no file.
pub fn normalize_gemini_provider_file_id(provider_file_id: &str) -> (r: Result<String, LLMurError>)
    ensures
        match r {
            Ok(s) => spec_gemini_file_reference(provider_file_id@) == Some(s@),
            Err(e) => spec_gemini_file_reference(provider_file_id@) is None && bad_request(e)
                == "Gemini provider file reference is invalid."@ && e is BadRequest,
        },
{
    match normalize_gemini_file_reference(provider_file_id) {
        Some(s) => Ok(s),
        None => Err(LLMurError::BadRequest(to_owned("Gemini provider file reference is invalid."))),
    }
}


/// Whether a provider's error-file reference names a file: Gemini references
/// must normalise to `files/<id>`; other references must be id-like tokens of
/// at most 256 bytes, not URLs, without control characters, whitespace or
/// slashes.
pub open spec fn spec_valid_error_ref(provider: Seq<char>, error_file_id: Option<Seq<char>>) -> bool {
    match error_file_id {
        None => false,
        Some(raw) => {
            let t = trim(raw);
            if t.len() == 0 {
                false
            } else if provider == "gemini"@ {
                spec_gemini_file_reference(t) is Some
            } else {
                &&& vstd::utf8::encode_utf8(t).len() <= 256
                &&& !is_prefix("http://"@, t)
                &&& !is_prefix("https://"@, t)
                &&& forall|k: int| 0 <= k < t.len() ==> !is_control(#[trigger] t[k]) && !is_ws(t[k])
                &&& !t.contains('/')
            }
        },
    }
}

pub open spec fn opt_str_view(v: Option<&str>) -> Option<Seq<char>> {
    match v {
        Some(s) => Some(s@),
        None => None,
    }
}

#[verifier::loop_isolation(false)]
pub fn has_valid_provider_error_file_reference(provider: &str, error_file_id: Option<&str>) -> (r:
    bool)
    ensures
        r == spec_valid_error_ref(provider@, opt_str_view(error_file_id)),
{
    let raw = match error_file_id {
        Some(v) => v,
        None => return false,
    };
    let t = trim_str(raw);
    let n = t.unicode_len();
    if n == 0 {
        return false;
    }
    proof {
        reveal_strlit("gemini");
    }
    if seq_eq(provider, "gemini") {
        return normalize_gemini_file_reference(t).is_some();
    }
    if t.as_bytes().len() > 256 {
        return false;
    }
    if starts_with(t, "http://") || starts_with(t, "https://") {
        return false;
    }
    let mut k: usize = 0;
    while k < n
        invariant
            n == t@.len(),
            k <= n,
            forall|j: int| 0 <= j < k ==> !is_control(#[trigger] t@[j]) && !is_ws(t@[j]),
        decreases n - k,
    {
        let c = t.get_char(k);
        if char_is_control(c) || char_is_ws(c) {
            assert(is_control(t@[k as int]) || is_ws(t@[k as int]));
            return false;
        }
        k = k + 1;
    }
    if contains_char(t, '/') {
        return false;
    }
    true
}

pub open spec fn opt_string_view(v: Option<String>) -> Option<Seq<char>> {
    match v {
        Some(s) => Some(s@),
        None => None,
    }
}

/// Evidence that one provider batch produced failures: it failed, it lists
/// errors, or it names a valid error file.
pub open spec fn signal_shows_failures(sig: (String, BatchStatus, bool, Option<String>)) -> bool {
    sig.1 == BatchStatus::Failed || sig.2 || spec_valid_error_ref(sig.0@, opt_string_view(sig.3))
}

/// A virtual batch gets an error file when a line failed or some provider
/// batch shows failures.
pub open spec fn spec_should_materialize(
    request_counts: Option<VirtualBatchRequestCounts>,
    signals: Seq<(String, BatchStatus, bool, Option<String>)>,
) -> bool {
    (request_counts matches Some(c) && c.failed > 0) || exists|i: int|
        0 <= i < signals.len() && signal_shows_failures(#[trigger] signals[i])
}

pub fn should_materialize_error_file_from_signals(
    request_counts: &Option<VirtualBatchRequestCounts>,
    signals: &[(String, BatchStatus, bool, Option<String>)],
) -> (r: bool)
    ensures
        r == spec_should_materialize(*request_counts, signals@),
{
    let failed: i64 = match request_counts {
        Some(c) => if c.failed < 0 { 0 } else { c.failed },
        None => 0,
    };
    if failed > 0 {
        return true;
    }
    let mut i: usize = 0;
    while i < signals.len()
        invariant
            i <= signals@.len(),
            forall|j: int| 0 <= j < i ==> !signal_shows_failures(#[trigger] signals@[j]),
        decreases signals@.len() - i,
    {
        let sig = &signals[i];
        let reference: Option<&str> = match &sig.3 {
            Some(s) => Some(s.as_str()),
            None => None,
        };
        if sig.1 == BatchStatus::Failed || sig.2 || has_valid_provider_error_file_reference(
            sig.0.as_str(),
            reference,
        ) {
            assert(signal_shows_failures(signals@[i as int]));
            return true;
        }
        i = i + 1;
    }
    false
}

/// The failure signal of one refreshed provider batch: its provider, its
/// status, whether it lists errors, and its error-file reference.
pub open spec fn signal_of(p: ProviderBatch, b: BatchObject) -> (String, BatchStatus, bool, Option<String>) {
    (
        p.provider,
        b.status,
        match b.errors {
            Some(e) => e.data@.len() > 0,
            None => false,
        },
        b.error_file_id,
    )
}

/// Whether a refreshed virtual batch should get an error file.
pub fn should_materialize_error_file(
    request_counts: &Option<VirtualBatchRequestCounts>,
    refreshed: &[(ProviderBatch, BatchObject)],
) -> (r: bool)
    ensures
        r == spec_should_materialize(
            *request_counts,
            refreshed@.map_values(|x: (ProviderBatch, BatchObject)| signal_of(x.0, x.1)),
        ),
{
    let mut signals: Vec<(String, BatchStatus, bool, Option<String>)> = Vec::new();
    let mut i: usize = 0;
    while i < refreshed.len()
        invariant
            i <= refreshed@.len(),
            signals@ =~= refreshed@.subrange(0, i as int).map_values(
                |x: (ProviderBatch, BatchObject)| signal_of(x.0, x.1),
            ),
        decreases refreshed@.len() - i,
    {
        let (provider_batch, batch) = &refreshed[i];
        let has_errors = match &batch.errors {
            Some(e) => e.data.len() > 0,
            None => false,
        };
        signals.push((provider_batch.provider.clone(), batch.status, has_errors, batch.error_file_id.clone()));
        i = i + 1;
    }
    assert(refreshed@.subrange(0, refreshed@.len() as int) =~= refreshed@);
    should_materialize_error_file_from_signals(&None, signals.as_slice()) || match request_counts {
        Some(c) => c.failed > 0,
        None => false,
    }
}

} // verus!
