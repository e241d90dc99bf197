//! Failover across the connections of a deployment: each connection is
//! tried in turn until one answers successfully.

use vstd::prelude::*;
use crate::errors::LLMurError;

verus! {

/// What the route controller does next.
#[derive(Clone, Debug, PartialEq)]
pub enum FailoverStep {
    /// Send the request through the connection at this position.
    Try(usize),
    /// Answer with the response of the attempt at this position.
    Answer(usize),
    /// Answer with this error.
    Fail(LLMurError),
}

/// The first step: a deployment reachable through no connection is not
/// authorised.
pub fn failover_start(connection_count: usize) -> (r: FailoverStep)
    ensures
        r == if connection_count == 0 {
            FailoverStep::Fail(LLMurError::NotAuthorized)
        } else {
            FailoverStep::Try(0)
        },
{
    if connection_count == 0 {
        FailoverStep::Fail(LLMurError::NotAuthorized)
    } else {
        FailoverStep::Try(0)
    }
}

/// An attempt succeeded when its status is 2xx and no upstream error was
/// recorded on the response.
pub fn attempt_succeeded(status: u16, upstream_error: bool) -> (r: bool)
    ensures
        r == (200 <= status < 300 && !upstream_error),
{
    200 <= status && status < 300 && !upstream_error
}

pub open spec fn spec_next(attempt: nat, connection_count: nat, succeeded: bool) -> FailoverStep {
    if succeeded {
        FailoverStep::Answer(attempt as usize)
    } else if attempt + 1 < connection_count {
        FailoverStep::Try((attempt + 1) as usize)
    } else {
        FailoverStep::Fail(LLMurError::UpstreamUnavailable)
    }
}

/// The step after attempt `attempt` of `connection_count`: answer with a
/// successful attempt, else try the next connection, else fail as
/// upstream unavailable.
pub fn failover_next(attempt: usize, connection_count: usize, succeeded: bool) -> (r: FailoverStep)
    requires
        attempt < connection_count,
    ensures
        r == spec_next(attempt as nat, connection_count as nat, succeeded),
{
    if succeeded {
        FailoverStep::Answer(attempt)
    } else if attempt + 1 < connection_count {
        FailoverStep::Try(attempt + 1)
    } else {
        FailoverStep::Fail(LLMurError::UpstreamUnavailable)
    }
}

/// Where the controller ends when the attempts from `attempt` on have the
/// outcomes `outcomes[attempt..]`.
pub open spec fn spec_drive(outcomes: Seq<bool>, attempt: nat) -> FailoverStep
    decreases outcomes.len() - attempt,
{
    if attempt >= outcomes.len() {
        FailoverStep::Fail(LLMurError::UpstreamUnavailable)
    } else {
        match spec_next(attempt, outcomes.len(), outcomes[attempt as int]) {
            FailoverStep::Try(k) => if k > attempt {
                spec_drive(outcomes, k as nat)
            } else {
                FailoverStep::Fail(LLMurError::UpstreamUnavailable)
            },
            s => s,
        }
    }
}

/// The position of the first successful outcome from `attempt` on.
pub open spec fn first_success(outcomes: Seq<bool>, attempt: nat) -> Option<nat>
    decreases outcomes.len() - attempt,
{
    if attempt >= outcomes.len() {
        None
    } else if outcomes[attempt as int] {
        Some(attempt)
    } else {
        first_success(outcomes, attempt + 1)
    }
}

proof fn lemma_drive(outcomes: Seq<bool>, attempt: nat)
    requires
        outcomes.len() <= usize::MAX,
    ensures
        spec_drive(outcomes, attempt) == match first_success(outcomes, attempt) {
            Some(k) => FailoverStep::Answer(k as usize),
            None => FailoverStep::Fail(LLMurError::UpstreamUnavailable),
        },
    decreases outcomes.len() - attempt,
{
    if attempt < outcomes.len() && !outcomes[attempt as int] {
        if attempt + 1 < outcomes.len() {
            assert(((attempt + 1) as usize) as nat == attempt + 1);
            lemma_drive(outcomes, attempt + 1);
        } else {
            assert(first_success(outcomes, attempt + 1) is None);
        }
    } else if attempt < outcomes.len() {
        assert((attempt as usize) as nat == attempt);
    }
}

/// Driving the controller from its first step over the outcomes of the
/// attempts answers with the first successful attempt; when none succeeds
/// the request fails as upstream unavailable, and without connections it is
/// not authorised.
pub proof fn law_failover_answers_first_success(outcomes: Seq<bool>)
    requires
        outcomes.len() <= usize::MAX,
    ensures
        (if outcomes.len() == 0 {
            FailoverStep::Fail(LLMurError::NotAuthorized)
        } else {
            spec_drive(outcomes, 0)
        }) == match first_success(outcomes, 0) {
            Some(k) => FailoverStep::Answer(k as usize),
            None => if outcomes.len() == 0 {
                FailoverStep::Fail(LLMurError::NotAuthorized)
            } else {
                FailoverStep::Fail(LLMurError::UpstreamUnavailable)
            },
        },
{
    if outcomes.len() > 0 {
        lemma_drive(outcomes, 0);
    }
}

/// What is recorded of one attempt in the request log.
#[derive(Clone, Copy, Debug, PartialEq, Eq, Structural)]
pub struct AttemptLog {
    pub attempt_number: i16,
    pub input_tokens: Option<i64>,
    pub output_tokens: Option<i64>,
    pub http_status_code: i16,
}

/// The log record of attempt `attempt`: its position and status as `i16`,
/// and the usage `(input, output)` of a successful result as `i64`, each
/// converted as an `as` cast does.
pub fn attempt_log(attempt: usize, usage: Option<(u64, u64)>, status: u16) -> (r: AttemptLog)
    ensures
        r.attempt_number == attempt as i16,
        r.http_status_code == status as i16,
        r.input_tokens == match usage {
            Some(u) => Some(u.0 as i64),
            None => None::<i64>,
        },
        r.output_tokens == match usage {
            Some(u) => Some(u.1 as i64),
            None => None::<i64>,
        },
{
    AttemptLog {
        attempt_number: attempt as i16,
        input_tokens: match usage {
            Some(u) => Some(u.0 as i64),
            None => None,
        },
        output_tokens: match usage {
            Some(u) => Some(u.1 as i64),
            None => None,
        },
        http_status_code: status as i16,
    }
}

} // verus!
