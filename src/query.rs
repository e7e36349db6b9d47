//! Query dispatch: the user's target and consolidation tokens become
//! policies (an unknown token falls back to the default with a warning),
//! the request selects one of four call shapes, and each reply of the
//! stream becomes a report.

use vstd::prelude::*;
use crate::text::same_text;

verus! {

/// Which of the eligible responders a query is routed to.
#[derive(Clone, Copy, Debug, PartialEq, Eq, Structural)]
pub enum QueryTarget {
    BestMatching,
    All,
    AllComplete,
}

/// How the bus merges several replies to one query.
#[derive(Clone, Copy, Debug, PartialEq, Eq, Structural)]
pub enum ConsolidationMode {
    NoConsolidation,
    Monotonic,
    Latest,
}

/// A policy chosen from a token, and whether the token was not recognised
/// and the default was applied in its place.
#[derive(Clone, Copy, Debug, PartialEq, Eq, Structural)]
pub struct PolicyChoice<T> {
    pub policy: T,
    pub fell_back: bool,
}

/// The target that a recognised token names.
pub open spec fn target_named(token: Seq<char>) -> Option<QueryTarget> {
    if token == "best"@ {
        Some(QueryTarget::BestMatching)
    } else if token == "all"@ {
        Some(QueryTarget::All)
    } else if token == "all-complete"@ {
        Some(QueryTarget::AllComplete)
    } else {
        None
    }
}

/// The consolidation mode that a recognised token names.
pub open spec fn consolidation_named(token: Seq<char>) -> Option<ConsolidationMode> {
    if token == "none"@ {
        Some(ConsolidationMode::NoConsolidation)
    } else if token == "monotonic"@ {
        Some(ConsolidationMode::Monotonic)
    } else if token == "latest"@ {
        Some(ConsolidationMode::Latest)
    } else {
        None
    }
}

/// The target for an optional token: `best` where none is given, the one
/// it names where it is recognised, and otherwise `best` with a warning.
pub fn query_target(token: Option<&str>) -> (r: PolicyChoice<QueryTarget>)
    ensures
        token is None ==> r == (PolicyChoice { policy: QueryTarget::BestMatching, fell_back: false }),
        token matches Some(t) ==> match target_named(t@) {
            Some(p) => r == (PolicyChoice { policy: p, fell_back: false }),
            None => r == (PolicyChoice { policy: QueryTarget::BestMatching, fell_back: true }),
        },
{
    match token {
        None => PolicyChoice { policy: QueryTarget::BestMatching, fell_back: false },
        Some(t) => {
            if same_text(t, "best") {
                PolicyChoice { policy: QueryTarget::BestMatching, fell_back: false }
            } else if same_text(t, "all") {
                PolicyChoice { policy: QueryTarget::All, fell_back: false }
            } else if same_text(t, "all-complete") {
                PolicyChoice { policy: QueryTarget::AllComplete, fell_back: false }
            } else {
                PolicyChoice { policy: QueryTarget::BestMatching, fell_back: true }
            }
        },
    }
}

/// The consolidation mode for an optional token: `none` where none is
/// given, the one it names where it is recognised, and otherwise `none`
/// with a warning.
pub fn query_consolidation(token: Option<&str>) -> (r: PolicyChoice<ConsolidationMode>)
    ensures
        token is None ==> r == (PolicyChoice { policy: ConsolidationMode::NoConsolidation, fell_back: false }),
        token matches Some(t) ==> match consolidation_named(t@) {
            Some(p) => r == (PolicyChoice { policy: p, fell_back: false }),
            None => r == (PolicyChoice { policy: ConsolidationMode::NoConsolidation, fell_back: true }),
        },
{
    match token {
        None => PolicyChoice { policy: ConsolidationMode::NoConsolidation, fell_back: false },
        Some(t) => {
            if same_text(t, "none") {
                PolicyChoice { policy: ConsolidationMode::NoConsolidation, fell_back: false }
            } else if same_text(t, "monotonic") {
                PolicyChoice { policy: ConsolidationMode::Monotonic, fell_back: false }
            } else if same_text(t, "latest") {
                PolicyChoice { policy: ConsolidationMode::Latest, fell_back: false }
            } else {
                PolicyChoice { policy: ConsolidationMode::NoConsolidation, fell_back: true }
            }
        },
    }
}

/// The token that names a target.
pub open spec fn target_token_of(t: QueryTarget) -> Seq<char> {
    match t {
        QueryTarget::BestMatching => "best"@,
        QueryTarget::All => "all"@,
        QueryTarget::AllComplete => "all-complete"@,
    }
}

/// The token that names a consolidation mode.
pub open spec fn consolidation_token_of(c: ConsolidationMode) -> Seq<char> {
    match c {
        ConsolidationMode::NoConsolidation => "none"@,
        ConsolidationMode::Monotonic => "monotonic"@,
        ConsolidationMode::Latest => "latest"@,
    }
}

/// The token that names `t`.
pub fn target_token(t: QueryTarget) -> (r: &'static str)
    ensures
        r@ == target_token_of(t),
{
    match t {
        QueryTarget::BestMatching => "best",
        QueryTarget::All => "all",
        QueryTarget::AllComplete => "all-complete",
    }
}

/// The token that names `c`.
pub fn consolidation_token(c: ConsolidationMode) -> (r: &'static str)
    ensures
        r@ == consolidation_token_of(c),
{
    match c {
        ConsolidationMode::NoConsolidation => "none",
        ConsolidationMode::Monotonic => "monotonic",
        ConsolidationMode::Latest => "latest",
    }
}

/// Each target's token reads back as that target, without a warning, and
/// each consolidation mode's token reads back as that mode.
pub proof fn lemma_policy_tokens_round_trip(t: QueryTarget, c: ConsolidationMode)
    ensures
        target_named(target_token_of(t)) == Some(t),
        consolidation_named(consolidation_token_of(c)) == Some(c),
{
    reveal_strlit("best");
    reveal_strlit("all");
    reveal_strlit("all-complete");
    reveal_strlit("none");
    reveal_strlit("monotonic");
    reveal_strlit("latest");
    assert("best"@.len() != "all"@.len());
    assert("best"@.len() != "all-complete"@.len());
    assert("all"@.len() != "all-complete"@.len());
    assert("none"@.len() != "monotonic"@.len());
    assert("none"@.len() != "latest"@.len());
    assert("monotonic"@.len() != "latest"@.len());
}

/// A query as the user asked for it.
#[derive(Debug)]
pub struct QueryRequest {
    pub key: String,
    pub payload: Option<String>,
    pub attachment: Option<String>,
    pub target: QueryTarget,
    pub consolidation: ConsolidationMode,
}

/// The four shapes of the query call: with or without a payload, with or
/// without an attachment.
#[derive(Clone, Copy, Debug, PartialEq, Eq, Structural)]
pub enum QueryCall {
    Plain,
    WithAttachment,
    WithPayload,
    WithPayloadAndAttachment,
}

/// The call shape for a request that has a payload or not and an
/// attachment or not.
pub open spec fn call_for(has_payload: bool, has_attachment: bool) -> QueryCall {
    if has_payload {
        if has_attachment {
            QueryCall::WithPayloadAndAttachment
        } else {
            QueryCall::WithPayload
        }
    } else if has_attachment {
        QueryCall::WithAttachment
    } else {
        QueryCall::Plain
    }
}

/// Requests that differ in having a payload or an attachment use
/// different calls: each of the four combinations has its own.
pub proof fn lemma_call_shapes_distinct(p1: bool, a1: bool, p2: bool, a2: bool)
    ensures
        call_for(p1, a1) == call_for(p2, a2) <==> p1 == p2 && a1 == a2,
{
}

/// The call shape that carries exactly what the request holds.
pub fn call_shape(req: &QueryRequest) -> (r: QueryCall)
    ensures
        r == call_for(req.payload is Some, req.attachment is Some),
{
    match (&req.payload, &req.attachment) {
        (Some(_), Some(_)) => QueryCall::WithPayloadAndAttachment,
        (Some(_), None) => QueryCall::WithPayload,
        (None, Some(_)) => QueryCall::WithAttachment,
        (None, None) => QueryCall::Plain,
    }
}

/// The data of a successful reply.
#[derive(Debug)]
pub struct ReplySample {
    pub key: String,
    pub source_id: Option<String>,
    pub source_sn: Option<u32>,
    pub timestamp: Option<String>,
    pub body: String,
}

/// One reply of a query's stream: who answered, where that is known, and
/// the sample or the error description.
#[derive(Debug)]
pub struct QueryReply {
    pub replier: Option<String>,
    pub result: Result<ReplySample, String>,
}

/// What is reported of a reply; `index` counts replies from 1.
#[derive(Debug)]
pub enum ReplyReport {
    Success {
        index: u64,
        replier: String,
        source: String,
        source_sn: u32,
        key: String,
        timestamp: String,
        value: String,
    },
    Failure { index: u64, replier: String, error: String },
}

/// An optional text, or `fallback` where it is absent.
pub open spec fn text_or(t: Option<String>, fallback: Seq<char>) -> Seq<char> {
    match t {
        Some(s) => s@,
        None => fallback,
    }
}

fn or_text(t: Option<String>, fallback: &str) -> (r: String)
    ensures
        r@ == text_or(t, fallback@),
{
    match t {
        Some(s) => s,
        None => String::from_str(fallback),
    }
}

/// The report of reply number `index`: an absent replier or source reads
/// `Unknown`, an absent sequence number reads 0, an absent timestamp reads
/// `None`; a failed reply reports its error.
pub fn describe_reply(index: u64, reply: QueryReply) -> (r: ReplyReport)
    ensures
        match reply.result {
            Ok(s) => r matches ReplyReport::Success {
                index: n,
                replier,
                source,
                source_sn,
                key,
                timestamp,
                value,
            } && n == index && replier@ == text_or(reply.replier, "Unknown"@) && source@
                == text_or(s.source_id, "Unknown"@) && source_sn == (match s.source_sn {
                Some(v) => v,
                None => 0,
            }) && key@ == s.key@ && timestamp@ == text_or(s.timestamp, "None"@) && value@
                == s.body@,
            Err(e) => r matches ReplyReport::Failure { index: n, replier, error } && n == index
                && replier@ == text_or(reply.replier, "Unknown"@) && error@ == e@,
        },
{
    let replier = or_text(reply.replier, "Unknown");
    match reply.result {
        Ok(s) => ReplyReport::Success {
            index,
            replier,
            source: or_text(s.source_id, "Unknown"),
            source_sn: match s.source_sn {
                Some(v) => v,
                None => 0,
            },
            key: s.key,
            timestamp: or_text(s.timestamp, "None"),
            value: s.body,
        },
        Err(e) => ReplyReport::Failure { index, replier, error: e },
    }
}

} // verus!
