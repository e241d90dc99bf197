//! The lines of an uploaded batch file: splitting the JSONL text, the
//! checks each line must pass, and how each line is sent to the provider
//! its model is deployed on.

use vstd::prelude::*;
use crate::batch_types::BatchEndpoint;
use crate::errors::{LLMurError, bad_request};
use crate::providers::ConnectionInfo;
use crate::text::{
    concat, decimal, is_ws, join_lines, law_lines_of_joined, lead_ws, lemma_lead_ws_bound,
    lemma_next_newline_bounds, lemma_trail_ws_bound, next_newline, plain_line, seq_eq, split_lines,
    str_from_utf8, str_lines, strip_cr, to_owned, utf8_text, trail_ws, trim, trim_start, trim_str, usize_to_decimal, views,
};

verus! {

/// `Batch line <n><suffix>`.
pub open spec fn line_message(n: nat, suffix: Seq<char>) -> Seq<char> {
    "Batch line "@ + decimal(n) + suffix
}

/// The message about batch line `n`.
pub fn batch_line_message(n: usize, suffix: &str) -> (r: String)
    ensures
        r@ == line_message(n as nat, suffix@),
{
    proof {
        reveal_strlit("Batch line ");
    }
    let digits = usize_to_decimal(n);
    let head = concat("Batch line ", digits.as_str());
    concat(head.as_str(), suffix)
}

/// The lines of a text, trimmed.
pub open spec fn trimmed_lines(s: Seq<char>) -> Seq<Seq<char>> {
    str_lines(s).map_values(|l: Seq<char>| trim(l))
}

/// The text of an uploaded batch file, which must be UTF-8.
pub fn batch_file_text(bytes: &[u8]) -> (r: Result<&str, LLMurError>)
    ensures
        match utf8_text(bytes@) {
            Some(t) => r matches Ok(s) && s@ == t,
            None => r matches Err(e) && e is BadRequest && bad_request(e)
                == "Batch file must be valid UTF-8 JSONL."@,
        },
{
    match str_from_utf8(bytes) {
        Some(s) => Ok(s),
        None => Err(LLMurError::BadRequest(to_owned("Batch file must be valid UTF-8 JSONL."))),
    }
}

/// The lines of a batch input file, trimmed.
pub fn trimmed_batch_lines(content: &str) -> (r: Vec<String>)
    ensures
        views(r@) == trimmed_lines(content@),
{
    let lines = split_lines(content);
    let ghost ts = trimmed_lines(content@);
    assert(ts.len() == lines@.len());
    let mut out: Vec<String> = Vec::new();
    let mut i: usize = 0;
    while i < lines.len()
        invariant
            i <= lines@.len(),
            views(lines@) == str_lines(content@),
            ts == trimmed_lines(content@),
            ts.len() == lines@.len(),
            out@.len() == i,
            forall|k: int| 0 <= k < i ==> (#[trigger] out@[k])@ == ts[k],
        decreases lines@.len() - i,
    {
        let t = trim_str(lines[i].as_str());
        assert(views(lines@)[i as int] == lines@[i as int]@);
        assert(t@ == ts[i as int]);
        out.push(to_owned(t));
        i = i + 1;
    }
    assert(views(out@) =~= ts);
    out
}

/// Batch line `line_number`, trimmed, must not be empty, so that virtual
/// and provider line numbers stay one to one.
pub fn check_batch_line_text(line_number: usize, line: &str) -> (r: Result<(), LLMurError>)
    ensures
        line@.len() > 0 ==> r is Ok,
        line@.len() == 0 ==> (r matches Err(e) && e is BadRequest && bad_request(e) == line_message(
            line_number as nat,
            " is empty."@,
        )),
{
    if line.unicode_len() == 0 {
        Err(LLMurError::BadRequest(batch_line_message(line_number, " is empty.")))
    } else {
        Ok(())
    }
}

/// A batch file needs at least one line.
pub fn check_batch_line_count(count: usize) -> (r: Result<(), LLMurError>)
    ensures
        count > 0 ==> r is Ok,
        count == 0 ==> (r matches Err(e) && e is BadRequest && bad_request(e)
            == "Batch file must include at least one JSONL line."@),
{
    if count == 0 {
        Err(LLMurError::BadRequest(to_owned("Batch file must include at least one JSONL line.")))
    } else {
        Ok(())
    }
}

/// The views of optional texts.
pub open spec fn opt_views(s: Seq<Option<String>>) -> Seq<Option<Seq<char>>> {
    s.map_values(|o: Option<String>| match o {
        Some(t) => Some(t@),
        None => None,
    })
}

/// What is wrong with batch line `n`, trimmed to `text`, whose JSON decoding
/// failed with message `decode_error` where it did: an empty line is
/// reported before its JSON.
pub open spec fn spec_line_error(n: nat, text: Seq<char>, decode_error: Option<Seq<char>>) -> Option<
    Seq<char>,
> {
    if text.len() == 0 {
        Some(line_message(n, " is empty."@))
    } else {
        match decode_error {
            Some(m) => Some(line_message(n, " is not valid JSON: "@ + m)),
            None => None,
        }
    }
}

/// The error of the first bad line among these, counted from 1.
pub open spec fn first_line_error(texts: Seq<Seq<char>>, errors: Seq<Option<Seq<char>>>) -> Option<
    Seq<char>,
>
    decreases texts.len(),
{
    if texts.len() == 0 {
        None
    } else {
        match first_line_error(texts.drop_last(), errors.subrange(0, texts.len() - 1)) {
            Some(m) => Some(m),
            None => spec_line_error(texts.len(), texts.last(), errors[texts.len() - 1]),
        }
    }
}

/// Once a prefix of the lines has a bad line, every longer prefix reports
/// that same line.
proof fn lemma_first_line_error_stays(
    ts: Seq<Seq<char>>,
    es: Seq<Option<Seq<char>>>,
    k: int,
    j: int,
)
    requires
        0 <= k <= j <= ts.len(),
        ts.len() == es.len(),
        first_line_error(ts.subrange(0, k), es.subrange(0, k)) is Some,
    ensures
        first_line_error(ts.subrange(0, j), es.subrange(0, j)) == first_line_error(
            ts.subrange(0, k),
            es.subrange(0, k),
        ),
    decreases j - k,
{
    if j > k {
        lemma_first_line_error_stays(ts, es, k, j - 1);
        assert(ts.subrange(0, j).drop_last() =~= ts.subrange(0, j - 1));
        assert(es.subrange(0, j).subrange(0, j - 1) =~= es.subrange(0, j - 1));
    }
}

/// The outcome of checking the trimmed lines of a batch file, given how
/// the JSON decoding of each went: the first bad line's error, else an
/// error where there is no line at all.
pub open spec fn spec_batch_lines_check(texts: Seq<Seq<char>>, errors: Seq<Option<Seq<char>>>) -> Option<
    Seq<char>,
> {
    match first_line_error(texts, errors) {
        Some(m) => Some(m),
        None => if texts.len() == 0 {
            Some("Batch file must include at least one JSONL line."@)
        } else {
            None
        },
    }
}

/// Checks the trimmed lines of a batch file in order, given the message of
/// each line's failed JSON decoding (`None` where it decoded): the first bad
/// line is reported, an empty line before its JSON, and a file without
/// lines after all of them.
pub fn check_batch_lines(texts: &[String], decode_errors: &[Option<String>]) -> (r: Result<(), LLMurError>)
    requires
        texts@.len() == decode_errors@.len(),
    ensures
        match spec_batch_lines_check(views(texts@), opt_views(decode_errors@)) {
            None => r is Ok,
            Some(m) => r matches Err(e) && e is BadRequest && bad_request(e) == m,
        },
{
    proof {
        reveal_strlit(" is empty.");
        reveal_strlit(" is not valid JSON: ");
    }
    let ghost ts = views(texts@);
    let ghost es = opt_views(decode_errors@);
    let mut i: usize = 0;
    while i < texts.len()
        invariant
            i <= texts@.len(),
            texts@.len() == decode_errors@.len(),
            ts == views(texts@),
            es == opt_views(decode_errors@),
            first_line_error(ts.subrange(0, i as int), es.subrange(0, i as int)) is None,
        decreases texts@.len() - i,
    {
        assert(ts.subrange(0, i + 1).drop_last() =~= ts.subrange(0, i as int));
        assert(es.subrange(0, i + 1).subrange(0, i as int) =~= es.subrange(0, i as int));
        assert(ts[i as int] == texts@[i as int]@);
        let text = texts[i].as_str();
        if text.unicode_len() == 0 {
            proof {
                lemma_first_line_error_stays(ts, es, i + 1, ts.len() as int);
                assert(ts.subrange(0, ts.len() as int) =~= ts);
                assert(es.subrange(0, es.len() as int) =~= es);
            }
            return Err(LLMurError::BadRequest(batch_line_message(i + 1, " is empty.")));
        }
        match &decode_errors[i] {
            Some(m) => {
                assert(es[i as int] == Some(m@));
                let suffix = concat(" is not valid JSON: ", m.as_str());
                proof {
                    lemma_first_line_error_stays(ts, es, i + 1, ts.len() as int);
                    assert(ts.subrange(0, ts.len() as int) =~= ts);
                    assert(es.subrange(0, es.len() as int) =~= es);
                }
                return Err(LLMurError::BadRequest(batch_line_message(i + 1, suffix.as_str())));
            },
            None => {
                assert(es[i as int] is None);
            },
        }
        i = i + 1;
    }
    assert(ts.subrange(0, i as int) =~= ts);
    assert(es.subrange(0, i as int) =~= es);
    check_batch_line_count(texts.len())
}

/// The non-empty lines of a text, trimmed, in order.
pub open spec fn nonempty_trimmed(ls: Seq<Seq<char>>) -> Seq<Seq<char>>
    decreases ls.len(),
{
    if ls.len() == 0 {
        Seq::empty()
    } else {
        let rest = nonempty_trimmed(ls.drop_last());
        let t = trim(ls.last());
        if t.len() > 0 {
            rest.push(t)
        } else {
            rest
        }
    }
}

/// The non-empty lines of a provider output file, trimmed.
pub fn output_content_lines(content: &str) -> (r: Vec<String>)
    ensures
        views(r@) == nonempty_trimmed(str_lines(content@)),
{
    let lines = split_lines(content);
    let mut out: Vec<String> = Vec::new();
    let mut i: usize = 0;
    while i < lines.len()
        invariant
            i <= lines@.len(),
            views(lines@) == str_lines(content@),
            views(out@) == nonempty_trimmed(views(lines@).subrange(0, i as int)),
        decreases lines@.len() - i,
    {
        let ghost pre = views(lines@).subrange(0, i as int);
        assert(views(lines@).subrange(0, i + 1).drop_last() =~= pre);
        assert(views(lines@).subrange(0, i + 1).last() == lines@[i as int]@);
        let t = trim_str(lines[i].as_str());
        if t.unicode_len() > 0 {
            let ghost before = views(out@);
            out.push(to_owned(t));
            assert(views(out@) =~= before.push(t@));
        }
        i = i + 1;
    }
    assert(views(lines@).subrange(0, lines@.len() as int) =~= views(lines@));
    out
}

/// What `str::to_uppercase` gives for a text: each character replaced by
/// its Unicode upper-case mapping, which may be several characters.
pub uninterp spec fn str_to_uppercase(s: Seq<char>) -> Seq<char>;

/// `str::to_uppercase`.
#[verifier::external_body]
fn to_uppercase(s: &str) -> (r: String)
    ensures
        r@ == str_to_uppercase(s@),
{
    s.to_uppercase()
}

/// Why a batch line with this custom id and upper-cased method is refused,
/// if it is.
pub open spec fn spec_line_header_error(n: nat, custom_id: Seq<char>, method_upper: Seq<char>) -> Option<
    Seq<char>,
> {
    if trim(custom_id).len() == 0 {
        Some(line_message(n, " must include custom_id."@))
    } else if method_upper != "POST"@ {
        Some(line_message(n, " method must be POST."@))
    } else {
        None
    }
}

/// Checks the custom id and the upper-cased method of batch line
/// `line_number`.
pub fn check_batch_line_header(line_number: usize, custom_id: &str, method_upper: &str) -> (r:
    Result<(), LLMurError>)
    ensures
        match spec_line_header_error(line_number as nat, custom_id@, method_upper@) {
            None => r is Ok,
            Some(m) => r matches Err(e) && e is BadRequest && bad_request(e) == m,
        },
{
    if trim_str(custom_id).unicode_len() == 0 {
        return Err(LLMurError::BadRequest(batch_line_message(line_number, " must include custom_id.")));
    }
    if !seq_eq(method_upper, "POST") {
        return Err(LLMurError::BadRequest(batch_line_message(line_number, " method must be POST.")));
    }
    Ok(())
}

/// The upper-cased method of batch line `line_number`, once its custom id
/// and method pass.
pub fn batch_line_method(line_number: usize, custom_id: &str, method: &str) -> (r: Result<
    String,
    LLMurError,
>)
    ensures
        match spec_line_header_error(line_number as nat, custom_id@, str_to_uppercase(method@)) {
            None => r matches Ok(m) && m@ == str_to_uppercase(method@),
            Some(m) => r matches Err(e) && e is BadRequest && bad_request(e) == m,
        },
{
    let upper = to_uppercase(method);
    match check_batch_line_header(line_number, custom_id, upper.as_str()) {
        Ok(()) => Ok(upper),
        Err(e) => Err(e),
    }
}

/// The endpoint a batch line's URL names.
pub open spec fn spec_line_endpoint(url: Seq<char>) -> Option<BatchEndpoint> {
    if url == "/v1/responses"@ {
        Some(BatchEndpoint::Responses)
    } else if url == "/v1/chat/completions"@ {
        Some(BatchEndpoint::ChatCompletions)
    } else if url == "/v1/embeddings"@ {
        Some(BatchEndpoint::Embeddings)
    } else if url == "/v1/completions"@ {
        Some(BatchEndpoint::Completions)
    } else {
        None
    }
}

/// The endpoint that batch line `line_number` targets.
pub fn batch_line_endpoint(line_number: usize, url: &str) -> (r: Result<BatchEndpoint, LLMurError>)
    ensures
        match spec_line_endpoint(url@) {
            Some(ep) => r == Ok::<BatchEndpoint, LLMurError>(ep),
            None => r matches Err(e) && e is BadRequest && bad_request(e) == line_message(
                line_number as nat,
                " has unsupported url '"@ + url@ + "'."@,
            ),
        },
{
    if seq_eq(url, "/v1/responses") {
        Ok(BatchEndpoint::Responses)
    } else if seq_eq(url, "/v1/chat/completions") {
        Ok(BatchEndpoint::ChatCompletions)
    } else if seq_eq(url, "/v1/embeddings") {
        Ok(BatchEndpoint::Embeddings)
    } else if seq_eq(url, "/v1/completions") {
        Ok(BatchEndpoint::Completions)
    } else {
        let tail = concat(url, "'.");
        let suffix = concat(" has unsupported url '", tail.as_str());
        proof {
            reveal_strlit(" has unsupported url '");
            reveal_strlit("'.");
            assert(suffix@ =~= " has unsupported url '"@ + url@ + "'."@);
        }
        Err(LLMurError::BadRequest(batch_line_message(line_number, suffix.as_str())))
    }
}

/// How a line is written into a provider batch file: the OpenAI shape
/// (`custom_id`, `method`, `url`, `body`), which Azure shares, or the Gemini
/// shape (`key`, `request`).
#[derive(Clone, Copy, Debug, PartialEq, Eq, Structural)]
pub enum BatchLineFormat {
    OpenAi,
    Gemini,
}

/// How one batch line goes to its provider: the line shape, and the model
/// the provider request names.
#[derive(Clone, Debug)]
pub struct BatchLinePlan {
    pub format: BatchLineFormat,
    pub model: String,
}

/// The line shape and model for an endpoint on a connection, or the
/// message that refuses the combination.
pub open spec fn spec_line_plan(endpoint: BatchEndpoint, c: ConnectionInfo) -> Result<
    (BatchLineFormat, Seq<char>),
    Seq<char>,
> {
    match (endpoint, c) {
        (BatchEndpoint::Responses, ConnectionInfo::OpenAiApiKey { model, .. }) => Ok(
            (BatchLineFormat::OpenAi, model@),
        ),
        (BatchEndpoint::Responses, ConnectionInfo::GeminiApiKey { model, .. }) => Ok(
            (BatchLineFormat::Gemini, model@),
        ),
        (BatchEndpoint::Responses, ConnectionInfo::AzureOpenAiApiKey { .. }) => Err(
            " targets /v1/responses, which Azure OpenAI does not support for batches."@,
        ),
        (BatchEndpoint::ChatCompletions, ConnectionInfo::OpenAiApiKey { model, .. }) => Ok(
            (BatchLineFormat::OpenAi, model@),
        ),
        (BatchEndpoint::ChatCompletions, ConnectionInfo::AzureOpenAiApiKey {
            deployment_name,
            ..
        }) => Ok((BatchLineFormat::OpenAi, deployment_name@)),
        (BatchEndpoint::ChatCompletions, ConnectionInfo::GeminiApiKey { model, .. }) => Ok(
            (BatchLineFormat::Gemini, model@),
        ),
        (BatchEndpoint::Embeddings, ConnectionInfo::OpenAiApiKey { model, .. }) => Ok(
            (BatchLineFormat::OpenAi, model@),
        ),
        (BatchEndpoint::Embeddings, ConnectionInfo::AzureOpenAiApiKey { deployment_name, .. }) =>
            Ok((BatchLineFormat::OpenAi, deployment_name@)),
        (BatchEndpoint::Embeddings, ConnectionInfo::GeminiApiKey { .. }) => Err(
            " targets /v1/embeddings, which Gemini does not support for batches yet."@,
        ),
        (BatchEndpoint::Completions, ConnectionInfo::OpenAiApiKey { model, .. }) => Ok(
            (BatchLineFormat::OpenAi, model@),
        ),
        (BatchEndpoint::Completions, ConnectionInfo::AzureOpenAiApiKey { .. }) => Err(
            " targets /v1/completions, which Azure OpenAI does not support for batches."@,
        ),
        (BatchEndpoint::Completions, ConnectionInfo::GeminiApiKey { .. }) => Err(
            " targets /v1/completions, which Gemini does not support."@,
        ),
    }
}

/// How batch line `line_number`, which targets `endpoint`, goes to the
/// provider of `connection`.
pub fn plan_batch_line(line_number: usize, endpoint: BatchEndpoint, connection: &ConnectionInfo) -> (r:
    Result<BatchLinePlan, LLMurError>)
    ensures
        match spec_line_plan(endpoint, *connection) {
            Ok((f, m)) => r matches Ok(p) && p.format == f && p.model@ == m,
            Err(s) => r matches Err(e) && e is BadRequest && bad_request(e) == line_message(
                line_number as nat,
                s,
            ),
        },
{
    match (endpoint, connection) {
        (BatchEndpoint::Responses, ConnectionInfo::OpenAiApiKey { model, .. })
        | (BatchEndpoint::ChatCompletions, ConnectionInfo::OpenAiApiKey { model, .. })
        | (BatchEndpoint::Embeddings, ConnectionInfo::OpenAiApiKey { model, .. })
        | (BatchEndpoint::Completions, ConnectionInfo::OpenAiApiKey { model, .. }) => Ok(
            BatchLinePlan { format: BatchLineFormat::OpenAi, model: model.clone() },
        ),
        (BatchEndpoint::Responses, ConnectionInfo::GeminiApiKey { model, .. })
        | (BatchEndpoint::ChatCompletions, ConnectionInfo::GeminiApiKey { model, .. }) => Ok(
            BatchLinePlan { format: BatchLineFormat::Gemini, model: model.clone() },
        ),
        (BatchEndpoint::ChatCompletions, ConnectionInfo::AzureOpenAiApiKey { deployment_name, .. })
        | (BatchEndpoint::Embeddings, ConnectionInfo::AzureOpenAiApiKey { deployment_name, .. }) =>
            Ok(BatchLinePlan { format: BatchLineFormat::OpenAi, model: deployment_name.clone() }),
        (BatchEndpoint::Responses, ConnectionInfo::AzureOpenAiApiKey { .. }) => Err(
            LLMurError::BadRequest(
                batch_line_message(
                    line_number,
                    " targets /v1/responses, which Azure OpenAI does not support for batches.",
                ),
            ),
        ),
        (BatchEndpoint::Embeddings, ConnectionInfo::GeminiApiKey { .. }) => Err(
            LLMurError::BadRequest(
                batch_line_message(
                    line_number,
                    " targets /v1/embeddings, which Gemini does not support for batches yet.",
                ),
            ),
        ),
        (BatchEndpoint::Completions, ConnectionInfo::AzureOpenAiApiKey { .. }) => Err(
            LLMurError::BadRequest(
                batch_line_message(
                    line_number,
                    " targets /v1/completions, which Azure OpenAI does not support for batches.",
                ),
            ),
        ),
        (BatchEndpoint::Completions, ConnectionInfo::GeminiApiKey { .. }) => Err(
            LLMurError::BadRequest(
                batch_line_message(
                    line_number,
                    " targets /v1/completions, which Gemini does not support.",
                ),
            ),
        ),
    }
}

proof fn lemma_str_lines_no_newline(s: Seq<char>)
    ensures
        forall|i: int| 0 <= i < str_lines(s).len() ==> !(#[trigger] str_lines(s)[i]).contains('\n'),
    decreases s.len(),
{
    if s.len() > 0 {
        lemma_next_newline_bounds(s, 0);
        match next_newline(s, 0) {
            None => {
                assert(str_lines(s) == seq![s]);
                assert forall|x: int| 0 <= x < s.len() implies s[x] != '\n' by {}
            },
            Some(k) => {
                let head = strip_cr(s.subrange(0, k));
                let rest = s.subrange(k + 1, s.len() as int);
                lemma_str_lines_no_newline(rest);
                assert(str_lines(s) == seq![head] + str_lines(rest));
                assert forall|x: int| 0 <= x < head.len() implies head[x] != '\n' by {
                    assert(head[x] == s[x]);
                }
                assert forall|i: int| 0 <= i < str_lines(s).len() implies !(#[trigger] str_lines(s)[i]).contains('\n') by {
                    if i == 0 {
                        assert(str_lines(s)[i] == head);
                    } else {
                        assert(str_lines(s)[i] == str_lines(rest)[i - 1]);
                    }
                }
            },
        }
    }
}

proof fn lemma_trim_plain(l: Seq<char>)
    requires
        !l.contains('\n'),
        trim(l).len() > 0,
    ensures
        plain_line(trim(l)),
{
    let a = trim_start(l);
    lemma_lead_ws_bound(l);
    lemma_trail_ws_bound(a);
    let t = trim(l);
    assert forall|x: int| 0 <= x < t.len() implies t[x] != '\n' by {
        assert(t[x] == l[x + lead_ws(l)]);
    }
    assert(t.last() == a[a.len() - trail_ws(a) - 1]);
    assert(!is_ws(t.last()));
}

/// The lines of an accepted batch file, written into a provider file one
/// per line with a final line ending, split back into the same lines: the
/// provider line numbers of the line map name the lines the caller sent.
pub proof fn law_batch_lines_survive_provider_file(content: Seq<char>)
    requires
        trimmed_lines(content).len() > 0,
        forall|i: int|
            0 <= i < trimmed_lines(content).len() ==> (#[trigger] trimmed_lines(content)[i]).len() > 0,
    ensures
        str_lines(join_lines(trimmed_lines(content)) + seq!['\n']) == trimmed_lines(content),
{
    let ls = trimmed_lines(content);
    lemma_str_lines_no_newline(content);
    assert forall|i: int| 0 <= i < ls.len() implies plain_line(#[trigger] ls[i]) by {
        assert(ls[i] == trim(str_lines(content)[i]));
        lemma_trim_plain(str_lines(content)[i]);
    }
    law_lines_of_joined(ls);
}

} // verus!
