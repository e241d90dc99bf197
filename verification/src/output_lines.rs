//! The lines of a batch output or error file as the gateway returns them:
//! each JSON line gets an id, explicit `response` and `error` fields, the
//! deployment's model in its response body, and zeroed usage details for
//! chat completions; a chat completion read strictly from an Azure
//! connection also loses Azure's content-filter annotations. The JSON of a line is read and edited through
//! `serde_json` (see `json_text`); what is read and what is edited is decided
//! here.

use vstd::prelude::*;
use crate::batch_lines::{nonempty_trimmed, output_content_lines};
use crate::batch_types::VirtualBatchEndpoint;
use crate::json_text::{
    json_canonical, json_canonical_text, json_default_object, json_default_object_at, json_kind,
    json_kind_at, json_quote, json_quoted, json_set, json_set_at, json_str, json_str_at, JsonKind,
    json_array_len, json_array_len_at, json_remove_at, json_removed,
};
use crate::providers::{ConnectionInfo, ConnectionKind, spec_connection_kind};
use crate::text::{
    concat, decimal, usize_to_decimal, join_lines_terminated, join_lines_with_newline, str_lines, to_owned, trim, trim_str,
    views,
};

verus! {

/// What a parsed output line shows of the fields the normalisation reads.
#[derive(Clone, Debug)]
pub struct OutputLineFields {
    /// The line is a JSON object.
    pub is_object: bool,
    /// Its `custom_id`, where that is a string.
    pub custom_id: Option<String>,
    /// Its `id`, where that is a string.
    pub id: Option<String>,
    pub has_response: bool,
    pub has_error: bool,
    /// Its `response` is an object with a `body`.
    pub has_response_body: bool,
}

/// What becomes of a response body.
#[derive(Clone, Debug)]
pub enum BodyTreatment {
    /// Left as it is.
    Keep,
    /// Its `model` set to this name, where the body is an object.
    OverrideModel(String),
    /// Read strictly with this model: the model is set, as `OverrideModel`
    /// does.
    Strict(String),
    /// Read strictly as an Azure chat completion with this model: the
    /// model is set, and Azure's `prompt_filter_results` and each choice's
    /// `content_filter_results` are removed.
    StrictAzureChat(String),
}

/// The edits of one output line.
#[derive(Clone, Debug)]
pub struct OutputLineEdits {
    /// The id to set.
    pub set_id: Option<String>,
    /// Insert `"response": null`.
    pub null_response: bool,
    /// Insert `"error": null`.
    pub null_error: bool,
    /// What becomes of `response.body`, where there is one.
    pub body: Option<BodyTreatment>,
    /// Default the usage detail fields of the body (chat completions).
    pub usage_details: bool,
}

pub open spec fn opt_seq(s: Option<String>) -> Option<Seq<char>> {
    match s {
        Some(v) => Some(v@),
        None => None,
    }
}

/// The view of a body treatment: which one (0 keep, 1 override, 2 strict,
/// 3 strict Azure chat completion) and its model.
pub open spec fn treatment_view(t: BodyTreatment) -> (int, Seq<char>) {
    match t {
        BodyTreatment::Keep => (0int, Seq::empty()),
        BodyTreatment::OverrideModel(m) => (1, m@),
        BodyTreatment::Strict(m) => (2, m@),
        BodyTreatment::StrictAzureChat(m) => (3, m@),
    }
}

/// How a body with a known model is treated: strictly when the batch
/// endpoint and the connection are known too (as an Azure chat completion
/// where that is what they say), else by setting the model.
pub open spec fn spec_treatment(
    m: Seq<char>,
    endpoint: Option<VirtualBatchEndpoint>,
    connection: Option<ConnectionKind>,
) -> (int, Seq<char>) {
    if endpoint is Some && connection is Some {
        if connection == Some(ConnectionKind::AzureOpenAi) && endpoint == Some(
            VirtualBatchEndpoint::ChatCompletions,
        ) {
            (3int, m)
        } else {
            (2int, m)
        }
    } else {
        (1int, m)
    }
}

/// A line with a `custom_id` that is an object gets `batch_req_<custom_id>`
/// as id unless it has a non-blank one, and `null` for an absent `response`
/// or `error`. A response body is read strictly when the model, endpoint
/// and connection are all known, else gets the model where that is known,
/// else stays; a chat completion body gets its usage details.
pub open spec fn edits_hold(
    e: OutputLineEdits,
    f: OutputLineFields,
    model: Option<Seq<char>>,
    endpoint: Option<VirtualBatchEndpoint>,
    connection: Option<ConnectionKind>,
) -> bool {
    let tagged = f.custom_id is Some && f.is_object;
    &&& opt_seq(e.set_id) == if tagged && !(f.id matches Some(i) && trim(i@).len() > 0) {
        Some("batch_req_"@ + f.custom_id->0@)
    } else {
        None
    }
    &&& e.null_response == (tagged && !f.has_response)
    &&& e.null_error == (tagged && !f.has_error)
    &&& match e.body {
        None => !f.has_response_body,
        Some(t) => f.has_response_body && treatment_view(t) == match model {
            Some(m) => spec_treatment(m, endpoint, connection),
            None => (0int, Seq::<char>::empty()),
        },
    }
    &&& e.usage_details == (f.has_response_body && endpoint == Some(
        VirtualBatchEndpoint::ChatCompletions,
    ))
}

/// The edits of an output line with these fields, for a deployment model,
/// batch endpoint and connection where they are known.
pub fn output_line_edits(
    fields: &OutputLineFields,
    deployment_model_name: Option<&str>,
    batch_endpoint: Option<VirtualBatchEndpoint>,
    connection: Option<ConnectionKind>,
) -> (r: OutputLineEdits)
    ensures
        edits_hold(
            r,
            *fields,
            match deployment_model_name {
                Some(m) => Some(m@),
                None => None,
            },
            batch_endpoint,
            connection,
        ),
{
    proof {
        reveal_strlit("batch_req_");
    }
    let tagged = fields.custom_id.is_some() && fields.is_object;
    let mut set_id: Option<String> = None;
    if tagged {
        let has_nonempty_id = match &fields.id {
            Some(i) => trim_str(i.as_str()).unicode_len() > 0,
            None => false,
        };
        if !has_nonempty_id {
            match &fields.custom_id {
                Some(c) => {
                    set_id = Some(concat("batch_req_", c.as_str()));
                },
                None => {},
            }
        }
    }
    let body = if fields.has_response_body {
        Some(
            match deployment_model_name {
                Some(m) => if batch_endpoint.is_some() && connection.is_some() {
                    let azure_chat = match (connection, batch_endpoint) {
                        (
                            Some(ConnectionKind::AzureOpenAi),
                            Some(VirtualBatchEndpoint::ChatCompletions),
                        ) => true,
                        _ => false,
                    };
                    if azure_chat {
                        BodyTreatment::StrictAzureChat(to_owned(m))
                    } else {
                        BodyTreatment::Strict(to_owned(m))
                    }
                } else {
                    BodyTreatment::OverrideModel(to_owned(m))
                },
                None => BodyTreatment::Keep,
            },
        )
    } else {
        None
    };
    let chat = match batch_endpoint {
        Some(VirtualBatchEndpoint::ChatCompletions) => true,
        _ => false,
    };
    OutputLineEdits {
        set_id,
        null_response: tagged && !fields.has_response,
        null_error: tagged && !fields.has_error,
        body,
        usage_details: fields.has_response_body && chat,
    }
}

/// The usage detail objects of a chat completion and the fields each must
/// hold: `completion_tokens_details` with the accepted and rejected
/// prediction, audio and reasoning tokens; `prompt_tokens_details` with the
/// audio and cached tokens.
pub open spec fn spec_usage_detail_fields() -> Seq<(Seq<char>, Seq<char>)> {
    seq![
        ("completion_tokens_details"@, "accepted_prediction_tokens"@),
        ("completion_tokens_details"@, "audio_tokens"@),
        ("completion_tokens_details"@, "reasoning_tokens"@),
        ("completion_tokens_details"@, "rejected_prediction_tokens"@),
        ("prompt_tokens_details"@, "audio_tokens"@),
        ("prompt_tokens_details"@, "cached_tokens"@),
    ]
}

/// The `(object, field)` pairs of the usage details, in the order they are
/// filled.
pub fn usage_detail_fields() -> (r: Vec<(&'static str, &'static str)>)
    ensures
        r@.map_values(|p: (&'static str, &'static str)| (p.0@, p.1@)) == spec_usage_detail_fields(),
{
    let r = vec![
        ("completion_tokens_details", "accepted_prediction_tokens"),
        ("completion_tokens_details", "audio_tokens"),
        ("completion_tokens_details", "reasoning_tokens"),
        ("completion_tokens_details", "rejected_prediction_tokens"),
        ("prompt_tokens_details", "audio_tokens"),
        ("prompt_tokens_details", "cached_tokens"),
    ];
    proof {
        reveal_strlit("completion_tokens_details");
        reveal_strlit("prompt_tokens_details");
        reveal_strlit("accepted_prediction_tokens");
        reveal_strlit("audio_tokens");
        reveal_strlit("reasoning_tokens");
        reveal_strlit("rejected_prediction_tokens");
        reveal_strlit("cached_tokens");
    }
    assert(r@.map_values(|p: (&'static str, &'static str)| (p.0@, p.1@))
        =~= spec_usage_detail_fields());
    r
}

/// The view of the fields of a line: object, custom id, id, has response,
/// has error, has response body.
pub type FieldsView = (bool, Option<Seq<char>>, Option<Seq<char>>, bool, bool, bool);

pub open spec fn fields_view(f: OutputLineFields) -> FieldsView {
    (f.is_object, opt_seq(f.custom_id), opt_seq(f.id), f.has_response, f.has_error, f.has_response_body)
}

/// The fields of a line as `serde_json` reads them, or `None` where the
/// line is not JSON.
pub open spec fn spec_line_fields(line: Seq<char>) -> Option<FieldsView> {
    if json_kind(line, ""@) == JsonKind::Absent {
        None
    } else {
        Some(
            (
                json_kind(line, ""@) == JsonKind::Object,
                json_str(line, "/custom_id"@),
                json_str(line, "/id"@),
                json_kind(line, "/response"@) != JsonKind::Absent,
                json_kind(line, "/error"@) != JsonKind::Absent,
                json_kind(line, "/response"@) == JsonKind::Object && json_kind(line, "/response/body"@)
                    != JsonKind::Absent,
            ),
        )
    }
}

/// Reads the fields of an output line.
pub fn read_output_line(line: &str) -> (r: Option<OutputLineFields>)
    ensures
        match r {
            Some(f) => spec_line_fields(line@) == Some(fields_view(f)),
            None => spec_line_fields(line@) is None,
        },
{
    let root = json_kind_at(line, "");
    match root {
        JsonKind::Absent => None,
        _ => {
            let response = json_kind_at(line, "/response");
            let body = json_kind_at(line, "/response/body");
            let is_object = match root {
                JsonKind::Object => true,
                _ => false,
            };
            let has_response = match response {
                JsonKind::Absent => false,
                _ => true,
            };
            let has_response_body = match (response, body) {
                (JsonKind::Object, JsonKind::Absent) => false,
                (JsonKind::Object, _) => true,
                _ => false,
            };
            let has_error = match json_kind_at(line, "/error") {
                JsonKind::Absent => false,
                _ => true,
            };
            Some(
                OutputLineFields {
                    is_object,
                    custom_id: json_str_at(line, "/custom_id"),
                    id: json_str_at(line, "/id"),
                    has_response,
                    has_error,
                    has_response_body,
                },
            )
        },
    }
}

/// The view of the edits of a line: id to set, null response, null error,
/// body treatment, usage details.
pub type EditsView = (Option<Seq<char>>, bool, bool, Option<(int, Seq<char>)>, bool);

pub open spec fn edits_view(e: OutputLineEdits) -> EditsView {
    (
        opt_seq(e.set_id),
        e.null_response,
        e.null_error,
        match e.body {
            Some(t) => Some(treatment_view(t)),
            None => None,
        },
        e.usage_details,
    )
}

/// The edits `edits_hold` describes, from the view of the fields.
pub open spec fn spec_edits(
    f: FieldsView,
    model: Option<Seq<char>>,
    endpoint: Option<VirtualBatchEndpoint>,
    connection: Option<ConnectionKind>,
) -> EditsView {
    let tagged = f.1 is Some && f.0;
    (
        if tagged && !(f.2 matches Some(i) && trim(i).len() > 0) {
            Some("batch_req_"@ + f.1->0)
        } else {
            None
        },
        tagged && !f.3,
        tagged && !f.4,
        if f.5 {
            Some(
                match model {
                    Some(m) => spec_treatment(m, endpoint, connection),
                    None => (0int, Seq::<char>::empty()),
                },
            )
        } else {
            None
        },
        f.5 && endpoint == Some(VirtualBatchEndpoint::ChatCompletions),
    )
}

pub open spec fn usage_path() -> Seq<char> {
    "/response/body/usage"@
}

/// One usage detail: the detail object made present, then the field set
/// to 0 where it is absent or `null` (and the detail is an object).
pub open spec fn fill_detail(line: Seq<char>, d: (Seq<char>, Seq<char>)) -> Seq<char> {
    let l = json_default_object(line, usage_path(), d.0);
    let obj = usage_path() + "/"@ + d.0;
    let k = json_kind(l, obj + "/"@ + d.1);
    if json_kind(l, obj) == JsonKind::Object && (k == JsonKind::Absent || k == JsonKind::Null) {
        json_set(l, obj, d.1, "0"@)
    } else {
        l
    }
}

pub open spec fn fill_details(line: Seq<char>, ds: Seq<(Seq<char>, Seq<char>)>) -> Seq<char>
    decreases ds.len(),
{
    if ds.len() == 0 {
        line
    } else {
        fill_detail(fill_details(line, ds.drop_last()), ds.last())
    }
}

/// The usage details of a chat completion body, where the body and its
/// usage are objects.
pub open spec fn spec_usage_details(line: Seq<char>) -> Seq<char> {
    if json_kind(line, "/response/body"@) == JsonKind::Object && json_kind(line, usage_path())
        == JsonKind::Object {
        fill_details(line, spec_usage_detail_fields())
    } else {
        line
    }
}

pub open spec fn body_path() -> Seq<char> {
    "/response/body"@
}

pub open spec fn choices_path() -> Seq<char> {
    "/response/body/choices"@
}

/// The pointer of choice `k` of the body.
pub open spec fn choice_path(k: nat) -> Seq<char> {
    choices_path() + "/"@ + decimal(k)
}

/// The line with `content_filter_results` removed from the first `n`
/// choices of its body.
pub open spec fn strip_choice_filters(line: Seq<char>, n: nat) -> Seq<char>
    decreases n,
{
    if n == 0 {
        line
    } else {
        json_removed(
            strip_choice_filters(line, (n - 1) as nat),
            choice_path((n - 1) as nat),
            "content_filter_results"@,
        )
    }
}

/// The line with Azure's content-filter annotations removed from its body:
/// `prompt_filter_results` from the body, then `content_filter_results`
/// from each of its choices, where the choices are an array.
pub open spec fn spec_strip_azure_filters(line: Seq<char>) -> Seq<char> {
    let l = json_removed(line, body_path(), "prompt_filter_results"@);
    match json_array_len(l, choices_path()) {
        Some(n) => strip_choice_filters(l, n as nat),
        None => l,
    }
}

/// A line with its edits applied, in order: id, `response`, `error`, the
/// body (where it is an object), the usage details, then the line as
/// `serde_json` writes it. Every treatment but `Keep` sets the body's
/// model; a strict Azure chat completion also loses Azure's content-filter
/// annotations. The provider response types a strict reading goes through
/// are not part of this library: whatever else those types would drop or
/// add to a body is kept as it is.
pub open spec fn spec_edited_line(line: Seq<char>, e: EditsView) -> Seq<char> {
    let l1 = match e.0 {
        Some(id) => json_set(line, ""@, "id"@, json_quoted(id)),
        None => line,
    };
    let l2 = if e.1 {
        json_set(l1, ""@, "response"@, "null"@)
    } else {
        l1
    };
    let l3 = if e.2 {
        json_set(l2, ""@, "error"@, "null"@)
    } else {
        l2
    };
    let l4 = match e.3 {
        Some((k, m)) => if k != 0 && json_kind(l3, "/response/body"@) == JsonKind::Object {
            let lm = json_set(l3, "/response/body"@, "model"@, json_quoted(m));
            if k == 3 {
                spec_strip_azure_filters(lm)
            } else {
                lm
            }
        } else {
            l3
        },
        None => l3,
    };
    let l5 = if e.4 {
        spec_usage_details(l4)
    } else {
        l4
    };
    json_canonical(l5)
}

/// A line of an output file as returned: unchanged where it is not JSON,
/// else with its edits applied.
pub open spec fn spec_normalized_line(
    line: Seq<char>,
    model: Option<Seq<char>>,
    endpoint: Option<VirtualBatchEndpoint>,
    connection: Option<ConnectionKind>,
) -> Seq<char> {
    match spec_line_fields(line) {
        None => line,
        Some(f) => spec_edited_line(line, spec_edits(f, model, endpoint, connection)),
    }
}

/// An output or error file as returned: its non-empty lines, trimmed and
/// normalised, joined by `\n` with a final `\n` unless nothing is left.
pub open spec fn spec_normalized_output(
    content: Seq<char>,
    model: Option<Seq<char>>,
    endpoint: Option<VirtualBatchEndpoint>,
    connection: Option<ConnectionKind>,
) -> Seq<char> {
    join_lines_terminated(
        nonempty_trimmed(str_lines(content)).map_values(
            |l: Seq<char>| spec_normalized_line(l, model, endpoint, connection),
        ),
    )
}

fn usage_details(line: String) -> (r: String)
    ensures
        r@ == spec_usage_details(line@),
{
    proof {
        reveal_strlit("/response/body");
        reveal_strlit("/response/body/usage");
    }
    if !(json_kind_at(line.as_str(), "/response/body") == JsonKind::Object && json_kind_at(
        line.as_str(),
        "/response/body/usage",
    ) == JsonKind::Object) {
        return line;
    }
    let fields = usage_detail_fields();
    let ghost ds = spec_usage_detail_fields();
    let mut cur = line;
    let mut i: usize = 0;
    while i < fields.len()
        invariant
            i <= fields@.len(),
            fields@.map_values(|p: (&'static str, &'static str)| (p.0@, p.1@)) == ds,
            ds == spec_usage_detail_fields(),
            cur@ == fill_details(line@, ds.subrange(0, i as int)),
        decreases fields@.len() - i,
    {
        let (object, field) = fields[i];
        assert(ds[i as int] == (object@, field@));
        assert(ds.subrange(0, i + 1).drop_last() =~= ds.subrange(0, i as int));
        let l = json_default_object_at(cur.as_str(), "/response/body/usage", object);
        let obj = concat(concat("/response/body/usage", "/").as_str(), object);
        let path = concat(concat(obj.as_str(), "/").as_str(), field);
        proof {
            reveal_strlit("/");
        }
        let kind = json_kind_at(l.as_str(), path.as_str());
        let empty = kind == JsonKind::Absent || kind == JsonKind::Null;
        cur = if json_kind_at(l.as_str(), obj.as_str()) == JsonKind::Object && empty {
            json_set_at(l.as_str(), obj.as_str(), field, "0")
        } else {
            l
        };
        proof {
            reveal_strlit("0");
        }
        i = i + 1;
    }
    assert(ds.subrange(0, ds.len() as int) =~= ds);
    cur
}

/// Removes Azure's content-filter annotations from the body of a line.
fn strip_azure_filters(line: String) -> (r: String)
    ensures
        r@ == spec_strip_azure_filters(line@),
{
    proof {
        reveal_strlit("/response/body");
        reveal_strlit("/response/body/choices");
        reveal_strlit("prompt_filter_results");
        reveal_strlit("content_filter_results");
        reveal_strlit("/");
    }
    let l = json_remove_at(line.as_str(), "/response/body", "prompt_filter_results");
    let n = match json_array_len_at(l.as_str(), "/response/body/choices") {
        Some(n) => n,
        None => {
            return l;
        },
    };
    let mut cur = l;
    let mut k: usize = 0;
    while k < n
        invariant
            k <= n,
            cur@ == strip_choice_filters(
                json_removed(line@, body_path(), "prompt_filter_results"@),
                k as nat,
            ),
        decreases n - k,
    {
        let path = concat(concat("/response/body/choices", "/").as_str(), usize_to_decimal(k).as_str());
        assert(path@ == choice_path(k as nat));
        cur = json_remove_at(cur.as_str(), path.as_str(), "content_filter_results");
        k = k + 1;
    }
    cur
}

/// Applies the edits of a line.
fn edit_line(line: &str, e: &OutputLineEdits) -> (r: String)
    ensures
        r@ == spec_edited_line(line@, edits_view(*e)),
{
    proof {
        reveal_strlit("id");
        reveal_strlit("response");
        reveal_strlit("error");
        reveal_strlit("null");
        reveal_strlit("model");
        reveal_strlit("/response/body");
    }
    let l1 = match &e.set_id {
        Some(id) => json_set_at(line, "", "id", json_quote(id.as_str()).as_str()),
        None => to_owned(line),
    };
    let l2 = if e.null_response {
        json_set_at(l1.as_str(), "", "response", "null")
    } else {
        l1
    };
    let l3 = if e.null_error {
        json_set_at(l2.as_str(), "", "error", "null")
    } else {
        l2
    };
    let l4 = match &e.body {
        Some(BodyTreatment::OverrideModel(m)) | Some(BodyTreatment::Strict(m)) => {
            if json_kind_at(l3.as_str(), "/response/body") == JsonKind::Object {
                json_set_at(l3.as_str(), "/response/body", "model", json_quote(m.as_str()).as_str())
            } else {
                l3
            }
        },
        Some(BodyTreatment::StrictAzureChat(m)) => {
            if json_kind_at(l3.as_str(), "/response/body") == JsonKind::Object {
                let lm = json_set_at(
                    l3.as_str(),
                    "/response/body",
                    "model",
                    json_quote(m.as_str()).as_str(),
                );
                strip_azure_filters(lm)
            } else {
                l3
            }
        },
        _ => l3,
    };
    let l5 = if e.usage_details {
        usage_details(l4)
    } else {
        l4
    };
    json_canonical_text(l5.as_str())
}

/// One line of an output file as returned.
pub fn normalize_output_line(
    line: &str,
    deployment_model_name: Option<&str>,
    batch_endpoint: Option<VirtualBatchEndpoint>,
    connection: Option<ConnectionKind>,
) -> (r: String)
    ensures
        r@ == spec_normalized_line(
            line@,
            match deployment_model_name {
                Some(m) => Some(m@),
                None => None,
            },
            batch_endpoint,
            connection,
        ),
{
    match read_output_line(line) {
        None => to_owned(line),
        Some(fields) => {
            let edits = output_line_edits(&fields, deployment_model_name, batch_endpoint, connection);
            edit_line(line, &edits)
        },
    }
}

/// The output or error file content the caller receives, for the
/// deployment, batch endpoint and connection of the batch where they are
/// known.
pub fn normalize_openai_batch_output_content(
    content: &str,
    deployment_model_name: Option<&str>,
    batch_endpoint: Option<&VirtualBatchEndpoint>,
    connection_info: Option<&ConnectionInfo>,
) -> (r: String)
    ensures
        r@ == spec_normalized_output(
            content@,
            match deployment_model_name {
                Some(m) => Some(m@),
                None => None,
            },
            match batch_endpoint {
                Some(e) => Some(*e),
                None => None,
            },
            match connection_info {
                Some(c) => Some(spec_connection_kind(*c)),
                None => None,
            },
        ),
{
    let endpoint = match batch_endpoint {
        Some(e) => Some(*e),
        None => None,
    };
    let connection = match connection_info {
        Some(c) => Some(c.kind()),
        None => None,
    };
    let ghost model = match deployment_model_name {
        Some(m) => Some(m@),
        None => None,
    };
    let lines = output_content_lines(content);
    let ghost ls = nonempty_trimmed(str_lines(content@));
    let mut out: Vec<String> = Vec::new();
    let mut i: usize = 0;
    while i < lines.len()
        invariant
            i <= lines@.len(),
            views(lines@) == ls,
            ls == nonempty_trimmed(str_lines(content@)),
            model == match deployment_model_name {
                Some(m) => Some(m@),
                None => None::<Seq<char>>,
            },
            out@.len() == i,
            forall|k: int|
                0 <= k < i ==> (#[trigger] out@[k])@ == spec_normalized_line(
                    ls[k],
                    model,
                    endpoint,
                    connection,
                ),
        decreases lines@.len() - i,
    {
        assert(views(lines@)[i as int] == lines@[i as int]@);
        let n = normalize_output_line(lines[i].as_str(), deployment_model_name, endpoint, connection);
        assert(n@ == spec_normalized_line(ls[i as int], model, endpoint, connection));
        let ghost before = out@;
        out.push(n);
        assert forall|k: int| 0 <= k < i + 1 implies (#[trigger] out@[k])@ == spec_normalized_line(
            ls[k],
            model,
            endpoint,
            connection,
        ) by {
            if k < i {
                assert(out@[k] == before[k]);
            }
        }
        i = i + 1;
    }
    assert(views(out@) =~= ls.map_values(
        |l: Seq<char>| spec_normalized_line(l, model, endpoint, connection),
    ));
    join_lines_with_newline(out.as_slice())
}

} // verus!
