//! Gemini `streamGenerateContent` responses turned into OpenAI chat
//! completion chunks.

use vstd::prelude::*;
use crate::chat_stream::{opt_view, spec_finish_reason, transform_finish_reason};
use crate::text::{concat, decimal, to_owned, u64_to_decimal, usize_to_decimal};

verus! {

/// A function call in a Gemini content part, its arguments as JSON text.
#[derive(Clone, Debug)]
pub struct GeminiFunctionCall {
    pub name: String,
    pub args_json: String,
}

/// A part of a Gemini candidate's content.
#[derive(Clone, Debug)]
pub struct GeminiPart {
    pub text: Option<String>,
    pub function_call: Option<GeminiFunctionCall>,
}

/// A Gemini candidate: its index, the parts of its content (if it has
/// content), and its finish reason.
#[derive(Clone, Debug)]
pub struct GeminiCandidate {
    pub index: Option<u64>,
    pub parts: Option<Vec<GeminiPart>>,
    pub finish_reason: Option<String>,
}

/// One Gemini stream response.
#[derive(Clone, Debug)]
pub struct GeminiStreamResponse {
    pub candidates: Option<Vec<GeminiCandidate>>,
    pub response_id: Option<String>,
    pub model_version: Option<String>,
}

/// A streamed tool call of an OpenAI chunk.
#[derive(Clone, Debug)]
pub struct StreamToolCall {
    pub id: String,
    /// Serialised as `type`.
    pub tool_type: String,
    pub name: String,
    pub arguments: String,
}

/// What a chunk adds to a choice.
#[derive(Clone, Debug)]
pub struct StreamDelta {
    pub role: Option<String>,
    pub content: Option<String>,
    pub tool_calls: Option<Vec<StreamToolCall>>,
}

/// One choice of a chunk.
#[derive(Clone, Debug)]
pub struct StreamChoice {
    pub index: u64,
    pub delta: StreamDelta,
    pub finish_reason: Option<String>,
}

/// An OpenAI chat completion chunk.
#[derive(Clone, Debug)]
pub struct StreamChunk {
    pub id: String,
    /// Always `chat.completion.chunk`.
    pub object: String,
    pub created: u64,
    pub model: String,
    pub choices: Vec<StreamChoice>,
}

pub type CallView = (Seq<char>, Seq<char>, Seq<char>, Seq<char>);

pub open spec fn call_view(c: StreamToolCall) -> CallView {
    (c.id@, c.tool_type@, c.name@, c.arguments@)
}

pub type ChoiceView = (u64, Option<Seq<char>>, Option<Seq<char>>, Option<Seq<CallView>>, Option<Seq<char>>);

pub open spec fn choice_view(c: StreamChoice) -> ChoiceView {
    (
        c.index,
        opt_view(c.delta.role),
        opt_view(c.delta.content),
        match c.delta.tool_calls {
            Some(v) => Some(v@.map_values(|t: StreamToolCall| call_view(t))),
            None => None,
        },
        opt_view(c.finish_reason),
    )
}

/// The texts of the parts, in order.
pub open spec fn part_texts(parts: Seq<GeminiPart>) -> Seq<char>
    decreases parts.len(),
{
    if parts.len() == 0 {
        Seq::empty()
    } else {
        part_texts(parts.drop_last()) + match parts.last().text {
            Some(t) => t@,
            None => Seq::empty(),
        }
    }
}

/// Whether any part has text.
pub open spec fn has_text(parts: Seq<GeminiPart>) -> bool {
    exists|i: int| 0 <= i < parts.len() && (#[trigger] parts[i]).text is Some
}

/// `gemini-call-<candidate>-<part>`.
pub open spec fn call_id(candidate: u64, part: nat) -> Seq<char> {
    "gemini-call-"@ + decimal(candidate as nat) + "-"@ + decimal(part)
}

/// The tool calls of the parts, in order, with their ids.
pub open spec fn part_calls(parts: Seq<GeminiPart>, candidate: u64) -> Seq<CallView>
    decreases parts.len(),
{
    if parts.len() == 0 {
        Seq::empty()
    } else {
        let rest = part_calls(parts.drop_last(), candidate);
        match parts.last().function_call {
            Some(f) => rest.push(
                (call_id(candidate, (parts.len() - 1) as nat), "function"@, f.name@, f.args_json@),
            ),
            None => rest,
        }
    }
}

/// The content and tool calls a candidate contributes.
pub open spec fn spec_candidate_delta(c: GeminiCandidate, index: u64) -> (Option<Seq<char>>, Option<
    Seq<CallView>,
>) {
    match c.parts {
        None => (None, None),
        Some(ps) => (
            if has_text(ps@) {
                Some(part_texts(ps@))
            } else {
                None
            },
            if part_calls(ps@, index).len() > 0 {
                Some(part_calls(ps@, index))
            } else {
                None
            },
        ),
    }
}

/// The content and tool calls that a candidate with position `index`
/// contributes to a chunk: its texts joined, and its function calls.
pub fn extract_candidate_delta(candidate: &GeminiCandidate, index: u64) -> (r: (
    Option<String>,
    Option<Vec<StreamToolCall>>,
))
    ensures
        (opt_view(r.0), match r.1 {
            Some(v) => Some(v@.map_values(|t: StreamToolCall| call_view(t))),
            None => None,
        }) == spec_candidate_delta(*candidate, index),
{
    let parts = match &candidate.parts {
        Some(p) => p,
        None => {
            return (None, None);
        },
    };
    let mut text = String::new();
    let mut any_text = false;
    let mut calls: Vec<StreamToolCall> = Vec::new();
    let mut i: usize = 0;
    while i < parts.len()
        invariant
            i <= parts@.len(),
            candidate.parts == Some(*parts),
            text@ == part_texts(parts@.subrange(0, i as int)),
            any_text == has_text(parts@.subrange(0, i as int)),
            calls@.map_values(|t: StreamToolCall| call_view(t)) == part_calls(
                parts@.subrange(0, i as int),
                index,
            ),
        decreases parts@.len() - i,
    {
        let ghost pre = parts@.subrange(0, i as int);
        let ghost post = parts@.subrange(0, i + 1);
        assert(post.drop_last() =~= pre);
        assert(post.last() == parts@[i as int]);
        let part = &parts[i];
        if let Some(t) = &part.text {
            text.append(t.as_str());
            any_text = true;
            assert(post[i as int].text is Some);
        }
        proof {
            if has_text(pre) {
                let k = choose|k: int| 0 <= k < pre.len() && (#[trigger] pre[k]).text is Some;
                assert(post[k] == pre[k]);
            }
            if has_text(post) && post[i as int].text is None {
                let k = choose|k: int| 0 <= k < post.len() && (#[trigger] post[k]).text is Some;
                assert(k < i);
                assert(pre[k] == post[k]);
            }
        }
        if let Some(f) = &part.function_call {
            let head = concat("gemini-call-", u64_to_decimal(index).as_str());
            let mid = concat(head.as_str(), "-");
            let id = concat(mid.as_str(), usize_to_decimal(i).as_str());
            proof {
                reveal_strlit("gemini-call-");
                reveal_strlit("-");
                reveal_strlit("function");
                assert(id@ =~= call_id(index, i as nat));
            }
            let ghost before = calls@;
            calls.push(
                StreamToolCall {
                    id,
                    tool_type: to_owned("function"),
                    name: f.name.clone(),
                    arguments: f.args_json.clone(),
                },
            );
            assert(calls@.map_values(|t: StreamToolCall| call_view(t)) =~= before.map_values(
                |t: StreamToolCall| call_view(t),
            ).push((call_id(index, i as nat), "function"@, f.name@, f.args_json@)));
        }
        i = i + 1;
    }
    assert(parts@.subrange(0, parts@.len() as int) =~= parts@);
    let content = if any_text {
        Some(text)
    } else {
        None
    };
    let tool_calls = if calls.len() > 0 {
        Some(calls)
    } else {
        None
    };
    (content, tool_calls)
}

/// A candidate's choice, if it adds anything, and the indices whose role
/// was announced afterwards. The role `assistant` is announced with the
/// first choice of each index.
pub open spec fn spec_step(role_sent: Seq<u64>, position: int, c: GeminiCandidate) -> (Option<ChoiceView>, Seq<u64>) {
    let index = match c.index {
        Some(i) => i,
        None => position as u64,
    };
    let (content, calls) = spec_candidate_delta(c, index);
    let finish = spec_finish_reason(opt_view(c.finish_reason));
    if role_sent.contains(index) {
        if content is None && calls is None && finish is None {
            (None, role_sent)
        } else {
            (Some((index, None, content, calls, finish)), role_sent)
        }
    } else {
        (Some((index, Some("assistant"@), content, calls, finish)), role_sent.push(index))
    }
}

/// The choices of a response's candidates, and the announced indices after
/// them.
pub open spec fn spec_choices(role_sent: Seq<u64>, cs: Seq<GeminiCandidate>) -> (Seq<ChoiceView>, Seq<u64>)
    decreases cs.len(),
{
    if cs.len() == 0 {
        (Seq::empty(), role_sent)
    } else {
        let (chs, rs) = spec_choices(role_sent, cs.drop_last());
        let (ch, rs2) = spec_step(rs, cs.len() - 1, cs.last());
        match ch {
            Some(v) => (chs.push(v), rs2),
            None => (chs, rs2),
        }
    }
}

/// Turns the Gemini responses of one stream into OpenAI chunks.
pub struct GeminiChunkBuilder {
    model: String,
    response_id: String,
    role_sent: Vec<u64>,
}

impl GeminiChunkBuilder {
    pub closed spec fn model(&self) -> Seq<char> {
        self.model@
    }

    pub closed spec fn response_id(&self) -> Seq<char> {
        self.response_id@
    }

    /// The choice indices whose role was announced.
    pub closed spec fn role_sent(&self) -> Seq<u64> {
        self.role_sent@
    }

    /// A builder for a stream of `model`; chunks are named `gemini` until a
    /// response names them.
    pub fn new(model: String) -> (r: Self)
        ensures
            r.model() == model@,
            r.response_id() == "gemini"@,
            r.role_sent() == Seq::<u64>::empty(),
    {
        proof {
            reveal_strlit("gemini");
        }
        GeminiChunkBuilder { model, response_id: to_owned("gemini"), role_sent: Vec::new() }
    }

    fn announced(&self, index: u64) -> (r: bool)
        ensures
            r == self.role_sent().contains(index),
    {
        let mut i: usize = 0;
        while i < self.role_sent.len()
            invariant
                i <= self.role_sent@.len(),
                forall|k: int| 0 <= k < i ==> self.role_sent@[k] != index,
            decreases self.role_sent@.len() - i,
        {
            if self.role_sent[i] == index {
                assert(self.role_sent@[i as int] == index);
                return true;
            }
            i = i + 1;
        }
        false
    }

    /// The chunk of one Gemini response: a choice for each candidate that
    /// adds a role, content, tool calls or a finish reason; no chunk when
    /// none does or the response has no candidates.
    pub fn build_chunk(&mut self, response: &GeminiStreamResponse) -> (r: Option<StreamChunk>)
        ensures
            final(self).model() == old(self).model(),
            final(self).response_id() == old(self).response_id(),
            match response.candidates {
                None => r is None && final(self).role_sent() == old(self).role_sent(),
                Some(cs) => {
                    let (chs, rs) = spec_choices(old(self).role_sent(), cs@);
                    &&& final(self).role_sent() == rs
                    &&& if chs.len() == 0 {
                        r is None
                    } else {
                        r matches Some(k) && k.choices@.map_values(|c: StreamChoice| choice_view(c))
                            == chs && k.id@ == match response.response_id {
                            Some(id) => id@,
                            None => old(self).response_id(),
                        } && k.object@ == "chat.completion.chunk"@ && k.created == 0 && k.model@
                            == match response.model_version {
                            Some(m) => m@,
                            None => old(self).model(),
                        }
                    }
                },
            },
    {
        let candidates = match &response.candidates {
            Some(c) => c,
            None => {
                return None;
            },
        };
        let mut choices: Vec<StreamChoice> = Vec::new();
        let mut p: usize = 0;
        while p < candidates.len()
            invariant
                p <= candidates@.len(),
                self.model@ == old(self).model@,
                self.response_id@ == old(self).response_id@,
                response.candidates == Some(*candidates),
                (choices@.map_values(|c: StreamChoice| choice_view(c)), self.role_sent@)
                    == spec_choices(old(self).role_sent@, candidates@.subrange(0, p as int)),
            decreases candidates@.len() - p,
        {
            let ghost pre = candidates@.subrange(0, p as int);
            let ghost post = candidates@.subrange(0, p + 1);
            assert(post.drop_last() =~= pre);
            assert(post.last() == candidates@[p as int]);
            let candidate = &candidates[p];
            let index = match candidate.index {
                Some(i) => i,
                None => p as u64,
            };
            let (content, tool_calls) = extract_candidate_delta(candidate, index);
            let finish_reason = transform_finish_reason(candidate.finish_reason.clone());
            let ghost before = choices@;
            if self.announced(index) {
                if content.is_some() || tool_calls.is_some() || finish_reason.is_some() {
                    choices.push(
                        StreamChoice {
                            index,
                            delta: StreamDelta { role: None, content, tool_calls },
                            finish_reason,
                        },
                    );
                    assert(choices@.map_values(|c: StreamChoice| choice_view(c)) =~= before.map_values(
                        |c: StreamChoice| choice_view(c),
                    ).push(choice_view(choices@[before.len() as int])));
                }
            } else {
                self.role_sent.push(index);
                proof {
                    reveal_strlit("assistant");
                }
                choices.push(
                    StreamChoice {
                        index,
                        delta: StreamDelta { role: Some(to_owned("assistant")), content, tool_calls },
                        finish_reason,
                    },
                );
                assert(choices@.map_values(|c: StreamChoice| choice_view(c)) =~= before.map_values(
                    |c: StreamChoice| choice_view(c),
                ).push(choice_view(choices@[before.len() as int])));
            }
            p = p + 1;
        }
        assert(candidates@.subrange(0, candidates@.len() as int) =~= candidates@);
        if choices.len() == 0 {
            return None;
        }
        let id = match &response.response_id {
            Some(id) => id.clone(),
            None => self.response_id.clone(),
        };
        let model = match &response.model_version {
            Some(m) => m.clone(),
            None => self.model.clone(),
        };
        proof {
            reveal_strlit("chat.completion.chunk");
        }
        Some(StreamChunk { id, object: to_owned("chat.completion.chunk"), created: 0, model, choices })
    }
}

/// Across the chunks of a stream, the role `assistant` is announced at
/// most once for each choice index: a choice announces it only for an index
/// not announced before, no two choices of a response announce it for the
/// same index, and every announced index is remembered.
pub proof fn law_role_announced_once(role_sent: Seq<u64>, cs: Seq<GeminiCandidate>)
    ensures
        ({
            let (chs, rs) = spec_choices(role_sent, cs);
            &&& forall|x: u64| role_sent.contains(x) ==> rs.contains(x)
            &&& forall|i: int|
                0 <= i < chs.len() && (#[trigger] chs[i]).1 is Some ==> rs.contains(chs[i].0)
                    && !role_sent.contains(chs[i].0)
            &&& forall|i: int, j: int|
                0 <= i < j < chs.len() && (#[trigger] chs[i]).1 is Some && (#[trigger] chs[j]).1 is Some
                    ==> chs[i].0 != chs[j].0
        }),
    decreases cs.len(),
{
    if cs.len() > 0 {
        law_role_announced_once(role_sent, cs.drop_last());
        let (chs0, rs0) = spec_choices(role_sent, cs.drop_last());
        let (ch, rs1) = spec_step(rs0, cs.len() - 1, cs.last());
        let (chs, rs) = spec_choices(role_sent, cs);
        assert(rs == rs1);
        assert forall|x: u64| rs0.contains(x) implies rs1.contains(x) by {
            if rs1 != rs0 {
                let k = choose|k: int| 0 <= k < rs0.len() && rs0[k] == x;
                assert(rs1[k] == x);
            }
        }
        match ch {
            Some(v) => {
                assert(chs == chs0.push(v));
                if v.1 is Some {
                    assert(!rs0.contains(v.0));
                    assert(rs1[rs0.len() as int] == v.0);
                }
                assert forall|i: int, j: int|
                    0 <= i < j < chs.len() && (#[trigger] chs[i]).1 is Some && (#[trigger] chs[j]).1
                        is Some implies chs[i].0 != chs[j].0 by {
                    if j == chs0.len() {
                        assert(chs[i] == chs0[i]);
                        assert(rs0.contains(chs0[i].0));
                    } else {
                        assert(chs[i] == chs0[i] && chs[j] == chs0[j]);
                    }
                }
                assert forall|i: int|
                    0 <= i < chs.len() && (#[trigger] chs[i]).1 is Some implies rs.contains(chs[i].0)
                        && !role_sent.contains(chs[i].0) by {
                    if i < chs0.len() {
                        assert(chs[i] == chs0[i]);
                    } else {
                        if role_sent.contains(v.0) {
                            assert(rs0.contains(v.0));
                        }
                    }
                }
            },
            None => {
                assert(chs == chs0);
            },
        }
    }
}

} // verus!
