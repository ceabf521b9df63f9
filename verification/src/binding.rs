//! The rules a host binding applies at its boundary: reading an outcome
//! from text, classifying router errors for the host, and checking the
//! decisions and names that host-side algorithms hand back.
use vstd::prelude::*;

use crate::protocol::{
    error_text, opt_text, Decision, DecisionModel, ErrorModel, Feedback, FeedbackStats, Message,
    Outcome, RequestMetadata, RouteRequest, RouterError, RoutingKey, SnapshotModel, StateView,
};
use crate::runtime::{RouterProfile, StateConfig, TargetsConfig};

verus! {

// ------------------------------------------------------------------
// Text
// ------------------------------------------------------------------

/// The characters of the Unicode property White_Space: the controls from
/// U+0009 to U+000D, the space, U+0085, U+00A0, U+1680, U+2000 to U+200A,
/// U+2028, U+2029, U+202F, U+205F and U+3000.
pub open spec fn is_white_space(c: char) -> bool {
    ||| ('\u{9}' <= c && c <= '\u{d}')
    ||| c == ' '
    ||| c == '\u{85}'
    ||| c == '\u{a0}'
    ||| c == '\u{1680}'
    ||| ('\u{2000}' <= c && c <= '\u{200a}')
    ||| c == '\u{2028}'
    ||| c == '\u{2029}'
    ||| c == '\u{202f}'
    ||| c == '\u{205f}'
    ||| c == '\u{3000}'
}

/// The text without its leading white space.
pub open spec fn trim_start(s: Seq<char>) -> Seq<char>
    decreases s.len(),
{
    if s.len() > 0 && is_white_space(s[0]) {
        trim_start(s.drop_first())
    } else {
        s
    }
}

/// The text without its trailing white space.
pub open spec fn trim_end(s: Seq<char>) -> Seq<char>
    decreases s.len(),
{
    if s.len() > 0 && is_white_space(s.last()) {
        trim_end(s.drop_last())
    } else {
        s
    }
}

/// What `str::trim` leaves of a text: the text without leading and trailing
/// white space.
pub open spec fn trimmed(s: Seq<char>) -> Seq<char> {
    trim_end(trim_start(s))
}

/// `str::trim`: as its documentation states, the slice without leading and
/// trailing white space, white space being the Unicode property White_Space.
#[verifier::external_body]
fn trim_text(s: &str) -> (r: &str)
    ensures
        r@ == trimmed(s@),
{
    s.trim()
}

/// ASCII letters `A` to `Z` become `a` to `z`; every other character stays.
pub open spec fn ascii_lower(s: Seq<char>) -> Seq<char> {
    s.map_values(
        |c: char|
            if 'A' <= c && c <= 'Z' {
                ((c as int) + 32) as char
            } else {
                c
            },
    )
}

/// `str::to_ascii_lowercase`: as its documentation states, ASCII upper-case
/// letters become lower-case and every other character is kept.
#[verifier::external_body]
fn lower_ascii(s: &str) -> (r: String)
    ensures
        r@ == ascii_lower(s@),
{
    s.to_ascii_lowercase()
}

// ------------------------------------------------------------------
// Outcomes
// ------------------------------------------------------------------

/// The normal form of an outcome's text: trimmed, ASCII lower-case.
pub open spec fn outcome_text(raw: Seq<char>) -> Seq<char> {
    ascii_lower(trimmed(raw))
}

/// The outcome that a normal form names.
pub open spec fn outcome_named(text: Seq<char>) -> Option<Outcome> {
    if text == "ok"@ {
        Some(Outcome::Success)
    } else if text == "overflow"@ {
        Some(Outcome::Overflow)
    } else if text == "unavailable"@ {
        Some(Outcome::Unavailable)
    } else if text == "rejected"@ {
        Some(Outcome::Rejected)
    } else {
        None
    }
}

/// Reads an outcome from host text, ignoring surrounding white space and
/// ASCII case: `ok`, `overflow`, `unavailable` or `rejected`.
pub fn parse_outcome(raw: &str) -> (r: Result<Outcome, String>)
    ensures
        match outcome_named(outcome_text(raw@)) {
            Some(o) => r == Ok::<Outcome, String>(o),
            None => r matches Err(msg) && msg@ == "unknown outcome: "@ + outcome_text(raw@)
                + " (ok|overflow|unavailable|rejected)"@,
        },
{
    let text = lower_ascii(trim_text(raw));
    if text == String::from_str("ok") {
        Ok(Outcome::Success)
    } else if text == String::from_str("overflow") {
        Ok(Outcome::Overflow)
    } else if text == String::from_str("unavailable") {
        Ok(Outcome::Unavailable)
    } else if text == String::from_str("rejected") {
        Ok(Outcome::Rejected)
    } else {
        Err(
            String::from_str("unknown outcome: ").concat(text.as_str()).concat(
                " (ok|overflow|unavailable|rejected)",
            ),
        )
    }
}

// ------------------------------------------------------------------
// Errors at the host boundary
// ------------------------------------------------------------------

/// The kind of exception a host raises for a router error.
#[derive(Clone, Copy, Debug, PartialEq, Eq, Structural)]
pub enum HostErrorKind {
    /// Assembly failed: unknown algorithm or backend, missing endpoint, bad profile.
    ValueError,
    /// An algorithm or the state backend failed.
    RuntimeError,
    /// No target was left after exclusions.
    LookupError,
}

pub open spec fn host_error_kind(e: ErrorModel) -> HostErrorKind {
    match e {
        ErrorModel::Config(_) => HostErrorKind::ValueError,
        ErrorModel::Algorithm(_) => HostErrorKind::RuntimeError,
        ErrorModel::State(_) => HostErrorKind::RuntimeError,
        ErrorModel::NoTarget => HostErrorKind::LookupError,
    }
}

/// The exception kind and the message a host raises for a router error.
pub fn to_host_error(err: &RouterError) -> (r: (HostErrorKind, String))
    ensures
        r.0 == host_error_kind(err@),
        r.1@ == error_text(err@),
{
    let kind = match err {
        RouterError::Config(_) => HostErrorKind::ValueError,
        RouterError::Algorithm(_) => HostErrorKind::RuntimeError,
        RouterError::State(_) => HostErrorKind::RuntimeError,
        RouterError::NoTarget => HostErrorKind::LookupError,
    };
    (kind, err.message())
}

// ------------------------------------------------------------------
// What host-side algorithms hand back
// ------------------------------------------------------------------

/// A decision handed back by a host-side algorithm, once checked: the model
/// and the reasoning must not be empty.
pub fn check_decision(selected_model_id: String, reasoning: String, is_answer_call: bool) -> (r:
    Result<Decision, String>)
    ensures
        selected_model_id@.len() == 0 ==> (r matches Err(m) && m@
            == "Decision.selected_model_id must not be empty"@),
        selected_model_id@.len() > 0 && reasoning@.len() == 0 ==> (r matches Err(m) && m@
            == "Decision.reasoning must not be empty"@),
        selected_model_id@.len() > 0 && reasoning@.len() > 0 ==> (r matches Ok(d) && d@
            == (DecisionModel {
            selected_model_id: selected_model_id@,
            reasoning: reasoning@,
            is_answer_call,
        })),
{
    if selected_model_id.as_str().is_empty() {
        return Err(String::from_str("Decision.selected_model_id must not be empty"));
    }
    if reasoning.as_str().is_empty() {
        return Err(String::from_str("Decision.reasoning must not be empty"));
    }
    Ok(Decision { selected_model_id, reasoning, is_answer_call })
}

/// Checks the name under which a host-side algorithm registers: it must hold
/// more than white space. Gives back the name.
pub fn check_algorithm_name(name: String) -> (r: Result<String, String>)
    ensures
        trimmed(name@).len() > 0 ==> r == Ok::<String, String>(name),
        trimmed(name@).len() == 0 ==> (r matches Err(m) && m@
            == "Python algorithm name must not be empty"@),
{
    if trim_text(name.as_str()).is_empty() {
        Err(String::from_str("Python algorithm name must not be empty"))
    } else {
        Ok(name)
    }
}

/// A decision read field by field from a host mapping: the model comes from
/// `selected_model_id`, else from `target`; the reasoning defaults to empty
/// and `is_answer_call` to true.
pub fn decision_from_fields(
    selected_model_id: Option<String>,
    target: Option<String>,
    reasoning: Option<String>,
    is_answer_call: Option<bool>,
) -> (r: Result<Decision, String>)
    ensures
        selected_model_id is None && target is None ==> (r matches Err(m) && m@
            == "decision dict needs selected_model_id"@),
        selected_model_id is Some || target is Some ==> (r matches Ok(d) && d@ == (DecisionModel {
            selected_model_id: match selected_model_id {
                Some(s) => s@,
                None => target->0@,
            },
            reasoning: match reasoning {
                Some(s) => s@,
                None => Seq::empty(),
            },
            is_answer_call: match is_answer_call {
                Some(b) => b,
                None => true,
            },
        })),
{
    let selected = match selected_model_id {
        Some(s) => s,
        None => match target {
            Some(t) => t,
            None => {
                return Err(String::from_str("decision dict needs selected_model_id"));
            },
        },
    };
    let reasoning = match reasoning {
        Some(s) => s,
        None => String::new(),
    };
    let is_answer_call = match is_answer_call {
        Some(b) => b,
        None => true,
    };
    Ok(Decision { selected_model_id: selected, reasoning, is_answer_call })
}

/// A state snapshot read field by field from a host object; what is absent is empty.
pub fn state_view_from_fields(
    affinity: Option<String>,
    exclusions: Option<Vec<String>>,
    sample_count: Option<u64>,
) -> (v: StateView)
    ensures
        v@ == (SnapshotModel {
            affinity: opt_text(affinity),
            exclusions: match exclusions {
                Some(e) => crate::protocol::names(e@),
                None => Seq::empty(),
            },
            sample_count: match sample_count {
                Some(n) => n,
                None => 0,
            },
        }),
{
    let exclusions = match exclusions {
        Some(e) => e,
        None => {
            let e: Vec<String> = Vec::new();
            assert(crate::protocol::names(e@) =~= Seq::<Seq<char>>::empty());
            e
        },
    };
    let sample_count = match sample_count {
        Some(n) => n,
        None => 0,
    };
    let v = StateView { affinity, exclusions, stats: FeedbackStats { sample_count } };
    v
}

/// The `state` part of a profile as a host mapping gives it.
#[derive(Clone, Debug, PartialEq, Eq, Default)]
pub struct StateFields {
    pub backend: Option<String>,
    pub ttl_secs: Option<u64>,
    pub max_entries: Option<usize>,
    pub endpoint: Option<String>,
    pub timeout_ms: Option<u64>,
}

/// A profile read from a host mapping. The algorithm and the state are
/// required, and so is the state's backend; absent targets mean an empty
/// catalog, and no evolving entries are read.
pub fn profile_from_fields(
    algorithm: Option<String>,
    state: Option<StateFields>,
    models: Option<Vec<String>>,
) -> (r: Result<RouterProfile, String>)
    ensures
        algorithm is None ==> (r matches Err(m) && m@ == "profile requires algorithm"@),
        algorithm is Some && state is None ==> (r matches Err(m) && m@
            == "profile requires state"@),
        algorithm is Some && state is Some && state->0.backend is None ==> (r matches Err(m)
            && m@ == "state.backend is required"@),
        algorithm is Some && state is Some && state->0.backend is Some ==> (r matches Ok(p)
            && p.algorithm == algorithm->0 && p.state == (StateConfig {
            backend: state->0.backend->0,
            ttl_secs: state->0.ttl_secs,
            max_entries: state->0.max_entries,
            endpoint: state->0.endpoint,
            timeout_ms: state->0.timeout_ms,
        }) && p.targets.models@ == match models {
            Some(m) => m@,
            None => Seq::empty(),
        } && p.evolving@.len() == 0),
{
    let algorithm = match algorithm {
        Some(a) => a,
        None => {
            return Err(String::from_str("profile requires algorithm"));
        },
    };
    let st = match state {
        Some(st) => st,
        None => {
            return Err(String::from_str("profile requires state"));
        },
    };
    let backend = match st.backend {
        Some(b) => b,
        None => {
            return Err(String::from_str("state.backend is required"));
        },
    };
    let models = match models {
        Some(m) => m,
        None => Vec::new(),
    };
    Ok(
        RouterProfile {
            algorithm,
            state: StateConfig {
                backend,
                ttl_secs: st.ttl_secs,
                max_entries: st.max_entries,
                endpoint: st.endpoint,
                timeout_ms: st.timeout_ms,
            },
            targets: TargetsConfig { models },
            evolving: Vec::new(),
        },
    )
}

/// A request read field by field from a host mapping: the metadata, when it
/// is given, else the session and agent ids given at the top level; no
/// exclusions when none are given.
pub fn request_from_fields(
    messages: Vec<Message>,
    metadata: Option<RequestMetadata>,
    session_id: Option<String>,
    agent_id: Option<String>,
    exclusions: Option<Vec<String>>,
) -> (r: RouteRequest)
    ensures
        r.messages == messages,
        metadata matches Some(m) ==> r.metadata == m,
        metadata is None ==> r.metadata == (RequestMetadata { session_id, agent_id }),
        r.exclusions@ == match exclusions {
            Some(e) => e@,
            None => Seq::empty(),
        },
{
    let metadata = match metadata {
        Some(m) => m,
        None => RequestMetadata { session_id, agent_id },
    };
    let exclusions = match exclusions {
        Some(e) => e,
        None => Vec::new(),
    };
    RouteRequest { messages, metadata, exclusions }
}

/// The routing key of a feedback: the key when one is given, else the one
/// made of the session and agent ids, an absent id being empty.
pub open spec fn feedback_key(
    key: Option<RoutingKey>,
    session_id: Option<String>,
    agent_id: Option<String>,
) -> crate::protocol::KeyModel {
    match key {
        Some(k) => k@,
        None => (RequestMetadata { session_id, agent_id })@.key(),
    }
}

/// A feedback built from a host's keyword arguments. The model is the one
/// given explicitly, else the decision's; the key is the one given, else the
/// one made of the session and agent ids; the outcome is read from its text.
pub fn feedback_from_fields(
    selected_model_id: Option<String>,
    decision_model_id: Option<String>,
    key: Option<RoutingKey>,
    session_id: Option<String>,
    agent_id: Option<String>,
    outcome: &str,
    latency_ms: u64,
    cache_valid: Option<bool>,
) -> (r: Result<Feedback, String>)
    ensures
        selected_model_id is None && decision_model_id is None ==> (r matches Err(m) && m@
            == "decision must expose selected_model_id (ModelSelection, dict, or attribute)"@),
        (selected_model_id is Some || decision_model_id is Some) && outcome_named(
            outcome_text(outcome@),
        ) is None ==> (r matches Err(m) && m@ == "unknown outcome: "@ + outcome_text(outcome@)
            + " (ok|overflow|unavailable|rejected)"@),
        (selected_model_id is Some || decision_model_id is Some) && outcome_named(
            outcome_text(outcome@),
        ) is Some ==> (r matches Ok(f) && f.selected_model_id == match selected_model_id {
            Some(id) => id,
            None => decision_model_id->0,
        } && f.key@ == feedback_key(key, session_id, agent_id) && f.outcome == outcome_named(
            outcome_text(outcome@),
        )->0 && f.latency_ms == latency_ms && f.cache_valid == cache_valid),
        r matches Ok(f) ==> (key matches Some(k) ==> f.key == k),
        r matches Ok(f) ==> (key is None && session_id is Some ==> f.key.session_id@
            == session_id->0@),
        r matches Ok(f) ==> (key is None && session_id is None ==> f.key.session_id@.len() == 0),
        r matches Ok(f) ==> (key is None && agent_id is Some ==> f.key.agent_id@
            == agent_id->0@),
        r matches Ok(f) ==> (key is None && agent_id is None ==> f.key.agent_id@.len() == 0),
{
    let model = match selected_model_id {
        Some(id) => id,
        None => match decision_model_id {
            Some(id) => id,
            None => {
                return Err(
                    String::from_str(
                        "decision must expose selected_model_id (ModelSelection, dict, or attribute)",
                    ),
                );
            },
        },
    };
    let key = match key {
        Some(k) => k,
        None => RequestMetadata { session_id, agent_id }.routing_key(),
    };
    let outcome = match parse_outcome(outcome) {
        Ok(o) => o,
        Err(m) => {
            return Err(m);
        },
    };
    Ok(Feedback { key, selected_model_id: model, outcome, latency_ms, cache_valid })
}

} // verus!
