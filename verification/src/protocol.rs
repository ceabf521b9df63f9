//! Vocabulary shared by hosts, algorithms and state: requests, routing keys,
//! target catalogs, decisions, state snapshots, feedback and errors.
use vstd::prelude::*;

verus! {

// ------------------------------------------------------------------
// Strings and lists of strings
// ------------------------------------------------------------------

/// Copies a list of strings element by element.
pub fn copy_strings(v: &Vec<String>) -> (r: Vec<String>)
    ensures
        r@ == v@,
{
    let mut r: Vec<String> = Vec::new();
    let mut i: usize = 0;
    while i < v.len()
        invariant
            i <= v.len(),
            r@ == v@.take(i as int),
        decreases v.len() - i,
    {
        r.push(v[i].clone());
        assert(v@.take(i as int + 1) =~= v@.take(i as int).push(v@[i as int]));
        i = i + 1;
    }
    assert(v@.take(v.len() as int) =~= v@);
    r
}

/// Copies an optional string.
pub fn copy_opt_string(o: &Option<String>) -> (r: Option<String>)
    ensures
        r == *o,
{
    match o {
        Some(s) => Some(s.clone()),
        None => None,
    }
}

/// The characters of each string in a list.
pub open spec fn names(v: Seq<String>) -> Seq<Seq<char>> {
    v.map_values(|s: String| s@)
}

/// The characters of an optional string.
pub open spec fn opt_text(o: Option<String>) -> Option<Seq<char>> {
    match o {
        Some(s) => Some(s@),
        None => None,
    }
}

/// Whether `list` holds a string with the characters of `s`.
pub fn contains_string(list: &Vec<String>, s: &String) -> (r: bool)
    ensures
        r == names(list@).contains(s@),
{
    let mut i: usize = 0;
    while i < list.len()
        invariant
            i <= list.len(),
            forall|j: int| 0 <= j < i ==> names(list@)[j] != s@,
        decreases list.len() - i,
    {
        if list[i] == *s {
            assert(names(list@)[i as int] == s@);
            return true;
        }
        i = i + 1;
    }
    false
}

/// Whether the characters of `s` are those of the literal `lit`.
pub fn text_is(s: &str, lit: &str) -> (r: bool)
    ensures
        r == (s@ == lit@),
{
    String::from_str(s) == String::from_str(lit)
}

/// Appends the strings of `extra` to `list`.
pub fn append_strings(list: &mut Vec<String>, extra: &Vec<String>)
    ensures
        final(list)@ == old(list)@ + extra@,
{
    let mut i: usize = 0;
    while i < extra.len()
        invariant
            i <= extra.len(),
            list@ == old(list)@ + extra@.take(i as int),
        decreases extra.len() - i,
    {
        list.push(extra[i].clone());
        assert(extra@.take(i as int + 1) =~= extra@.take(i as int).push(extra@[i as int]));
        i = i + 1;
    }
    assert(extra@.take(extra.len() as int) =~= extra@);
}

// ------------------------------------------------------------------
// Routing keys, metadata, hints, requests
// ------------------------------------------------------------------

/// Key of per-conversation state. A feedback must carry the key that the
/// request it answers was routed with.
#[derive(Clone, Debug, PartialEq, Eq, Default)]
pub struct RoutingKey {
    pub session_id: String,
    pub agent_id: String,
}

pub struct KeyModel {
    pub session_id: Seq<char>,
    pub agent_id: Seq<char>,
}

impl View for RoutingKey {
    type V = KeyModel;

    open spec fn view(&self) -> KeyModel {
        KeyModel { session_id: self.session_id@, agent_id: self.agent_id@ }
    }
}

impl RoutingKey {
    /// Whether both keys name the same session and agent.
    pub fn same_key(&self, other: &RoutingKey) -> (r: bool)
        ensures
            r == (self@ == other@),
    {
        self.session_id == other.session_id && self.agent_id == other.agent_id
    }

    pub fn copy(&self) -> (r: RoutingKey)
        ensures
            r == *self,
    {
        RoutingKey { session_id: self.session_id.clone(), agent_id: self.agent_id.clone() }
    }
}

/// Who is asking: the session and the agent, each optional.
#[derive(Clone, Debug, PartialEq, Eq, Default)]
pub struct RequestMetadata {
    pub session_id: Option<String>,
    pub agent_id: Option<String>,
}

pub struct MetadataModel {
    pub session_id: Option<Seq<char>>,
    pub agent_id: Option<Seq<char>>,
}

impl View for RequestMetadata {
    type V = MetadataModel;

    open spec fn view(&self) -> MetadataModel {
        MetadataModel { session_id: opt_text(self.session_id), agent_id: opt_text(self.agent_id) }
    }
}

/// An absent identifier stands for the empty one.
pub open spec fn text_or_empty(o: Option<Seq<char>>) -> Seq<char> {
    match o {
        Some(s) => s,
        None => Seq::empty(),
    }
}

impl MetadataModel {
    pub open spec fn key(self) -> KeyModel {
        KeyModel {
            session_id: text_or_empty(self.session_id),
            agent_id: text_or_empty(self.agent_id),
        }
    }
}

fn text_or_default(o: &Option<String>) -> (r: String)
    ensures
        r@ == text_or_empty(opt_text(*o)),
{
    match o {
        Some(s) => s.clone(),
        None => String::new(),
    }
}

impl RequestMetadata {
    /// The routing key of this metadata; a missing id becomes the empty string.
    pub fn routing_key(&self) -> (r: RoutingKey)
        ensures
            r@ == self@.key(),
            self.session_id matches Some(s) ==> r.session_id@ == s@,
            self.session_id is None ==> r.session_id@.len() == 0,
            self.agent_id matches Some(a) ==> r.agent_id@ == a@,
            self.agent_id is None ==> r.agent_id@.len() == 0,
    {
        RoutingKey {
            session_id: text_or_default(&self.session_id),
            agent_id: text_or_default(&self.agent_id),
        }
    }
}

/// Per-request hint; `cache_affinity` names the model whose cache is warm.
#[derive(Clone, Debug, PartialEq, Eq, Default)]
pub struct RouteHint {
    pub cache_affinity: Option<String>,
}

/// One conversation message; its role is not interpreted here.
#[derive(Clone, Debug, PartialEq, Eq, Default)]
pub struct Message {
    pub role: String,
    pub content: String,
}

pub struct MessageModel {
    pub role: Seq<char>,
    pub content: Seq<char>,
}

impl View for Message {
    type V = MessageModel;

    open spec fn view(&self) -> MessageModel {
        MessageModel { role: self.role@, content: self.content@ }
    }
}

/// A routing request: the messages, who asks, and the models the host
/// excludes on this attempt.
#[derive(Clone, Debug, PartialEq, Eq, Default)]
pub struct RouteRequest {
    pub messages: Vec<Message>,
    pub metadata: RequestMetadata,
    pub exclusions: Vec<String>,
}

pub struct RequestModel {
    pub messages: Seq<MessageModel>,
    pub metadata: MetadataModel,
    pub exclusions: Seq<Seq<char>>,
}

impl View for RouteRequest {
    type V = RequestModel;

    open spec fn view(&self) -> RequestModel {
        RequestModel {
            messages: self.messages@.map_values(|m: Message| m@),
            metadata: self.metadata@,
            exclusions: names(self.exclusions@),
        }
    }
}

impl RouteRequest {
    /// The routing key of the request's metadata.
    pub fn routing_key(&self) -> (r: RoutingKey)
        ensures
            r@ == self@.metadata.key(),
            self.metadata.session_id matches Some(s) ==> r.session_id@ == s@,
            self.metadata.session_id is None ==> r.session_id@.len() == 0,
            self.metadata.agent_id matches Some(a) ==> r.agent_id@ == a@,
            self.metadata.agent_id is None ==> r.agent_id@.len() == 0,
    {
        self.metadata.routing_key()
    }
}

// ------------------------------------------------------------------
// Target catalogs
// ------------------------------------------------------------------

/// The models of `models`, in order, that `excluded` does not name.
pub open spec fn without_models(models: Seq<Seq<char>>, excluded: Seq<Seq<char>>) -> Seq<
    Seq<char>,
>
    decreases models.len(),
{
    if models.len() == 0 {
        Seq::empty()
    } else {
        let rest = without_models(models.drop_last(), excluded);
        if excluded.contains(models.last()) {
            rest
        } else {
            rest.push(models.last())
        }
    }
}

/// An ordered catalog of candidate models.
#[derive(Clone, Debug, PartialEq, Eq, Default)]
pub struct TargetSet {
    pub models: Vec<String>,
}

impl View for TargetSet {
    type V = Seq<Seq<char>>;

    open spec fn view(&self) -> Seq<Seq<char>> {
        names(self.models@)
    }
}

impl TargetSet {
    pub fn new(models: Vec<String>) -> (r: TargetSet)
        ensures
            r.models == models,
    {
        TargetSet { models }
    }

    /// The catalog without the excluded models; the order is kept.
    pub fn without(&self, exclusions: &Vec<String>) -> (r: TargetSet)
        ensures
            r@ == without_models(self@, names(exclusions@)),
    {
        let mut kept: Vec<String> = Vec::new();
        let mut i: usize = 0;
        while i < self.models.len()
            invariant
                i <= self.models.len(),
                names(kept@) == without_models(self@.take(i as int), names(exclusions@)),
            decreases self.models.len() - i,
        {
            let model = &self.models[i];
            let excluded = contains_string(exclusions, model);
            assert(self@.take(i as int + 1).drop_last() =~= self@.take(i as int));
            if !excluded {
                kept.push(model.clone());
                assert(names(kept@) =~= names(kept@).drop_last().push(model@));
            }
            i = i + 1;
        }
        assert(self@.take(self.models.len() as int) =~= self@);
        TargetSet { models: kept }
    }

    /// The first model of the catalog.
    pub fn first(&self) -> (r: Option<&String>)
        ensures
            r is None <==> self@.len() == 0,
            r matches Some(s) ==> s@ == self@[0],
    {
        if self.models.len() == 0 {
            None
        } else {
            Some(&self.models[0])
        }
    }

    pub fn len(&self) -> (r: usize)
        ensures
            r == self@.len(),
    {
        self.models.len()
    }
}

// ------------------------------------------------------------------
// Decisions
// ------------------------------------------------------------------

/// What a routing algorithm chose.
#[derive(Clone, Debug, PartialEq, Eq)]
pub struct Decision {
    pub selected_model_id: String,
    pub reasoning: String,
    pub is_answer_call: bool,
}

pub struct DecisionModel {
    pub selected_model_id: Seq<char>,
    pub reasoning: Seq<char>,
    pub is_answer_call: bool,
}

impl View for Decision {
    type V = DecisionModel;

    open spec fn view(&self) -> DecisionModel {
        DecisionModel {
            selected_model_id: self.selected_model_id@,
            reasoning: self.reasoning@,
            is_answer_call: self.is_answer_call,
        }
    }
}

impl Decision {
    /// A decision to answer with `model`.
    pub fn answer(model: String, reasoning: String) -> (d: Decision)
        ensures
            d.selected_model_id == model,
            d.reasoning == reasoning,
            d.is_answer_call,
    {
        Decision { selected_model_id: model, reasoning, is_answer_call: true }
    }
}

/// The decision as it crosses to the host.
#[derive(Clone, Debug, PartialEq, Eq)]
pub struct ModelSelection {
    pub selected_model_id: String,
    pub reasoning: String,
    pub is_answer_call: bool,
}

impl View for ModelSelection {
    type V = DecisionModel;

    open spec fn view(&self) -> DecisionModel {
        DecisionModel {
            selected_model_id: self.selected_model_id@,
            reasoning: self.reasoning@,
            is_answer_call: self.is_answer_call,
        }
    }
}

impl ModelSelection {
    /// The selection that carries a decision's fields.
    pub fn from_decision(d: &Decision) -> (s: ModelSelection)
        ensures
            s.selected_model_id == d.selected_model_id,
            s.reasoning == d.reasoning,
            s.is_answer_call == d.is_answer_call,
    {
        ModelSelection {
            selected_model_id: d.selected_model_id.clone(),
            reasoning: d.reasoning.clone(),
            is_answer_call: d.is_answer_call,
        }
    }

    /// The decision that carries this selection's fields.
    pub fn to_decision(&self) -> (d: Decision)
        ensures
            d.selected_model_id == self.selected_model_id,
            d.reasoning == self.reasoning,
            d.is_answer_call == self.is_answer_call,
    {
        Decision {
            selected_model_id: self.selected_model_id.clone(),
            reasoning: self.reasoning.clone(),
            is_answer_call: self.is_answer_call,
        }
    }
}

// ------------------------------------------------------------------
// State snapshots
// ------------------------------------------------------------------

#[derive(Clone, Copy, Debug, PartialEq, Eq, Default)]
pub struct FeedbackStats {
    pub sample_count: u64,
}

/// What state knows of a routing key before a decision: a hint that may be empty.
#[derive(Clone, Debug, PartialEq, Eq, Default)]
pub struct StateView {
    pub affinity: Option<String>,
    pub exclusions: Vec<String>,
    pub stats: FeedbackStats,
}

pub struct SnapshotModel {
    pub affinity: Option<Seq<char>>,
    pub exclusions: Seq<Seq<char>>,
    pub sample_count: u64,
}

impl SnapshotModel {
    pub open spec fn empty() -> SnapshotModel {
        SnapshotModel { affinity: None, exclusions: Seq::empty(), sample_count: 0 }
    }
}

impl View for StateView {
    type V = SnapshotModel;

    open spec fn view(&self) -> SnapshotModel {
        SnapshotModel {
            affinity: opt_text(self.affinity),
            exclusions: names(self.exclusions@),
            sample_count: self.stats.sample_count,
        }
    }
}

impl StateView {
    /// The snapshot that knows nothing.
    pub fn empty() -> (v: StateView)
        ensures
            v@ == SnapshotModel::empty(),
    {
        let v = StateView { affinity: None, exclusions: Vec::new(), stats: FeedbackStats { sample_count: 0 } };
        assert(names(v.exclusions@) =~= Seq::<Seq<char>>::empty());
        v
    }
}

// ------------------------------------------------------------------
// Feedback
// ------------------------------------------------------------------

/// How a call to the selected model went. Overflow and unavailability
/// exclude the model for the key; success refreshes the affinity.
#[derive(Clone, Copy, Debug, PartialEq, Eq, Structural)]
pub enum Outcome {
    Success,
    Overflow,
    Unavailable,
    Rejected,
}

impl Outcome {
    pub open spec fn is_exclusion(self) -> bool {
        self == Outcome::Overflow || self == Outcome::Unavailable
    }

    /// Whether this outcome excludes the model for the key.
    pub fn excludes(&self) -> (r: bool)
        ensures
            r == self.is_exclusion(),
    {
        match self {
            Outcome::Overflow => true,
            Outcome::Unavailable => true,
            _ => false,
        }
    }
}

/// What the host reports after calling the selected model.
#[derive(Clone, Debug, PartialEq, Eq)]
pub struct Feedback {
    pub key: RoutingKey,
    pub selected_model_id: String,
    pub outcome: Outcome,
    pub latency_ms: u64,
    pub cache_valid: Option<bool>,
}

pub struct FeedbackModel {
    pub key: KeyModel,
    pub selected_model_id: Seq<char>,
    pub outcome: Outcome,
    pub latency_ms: u64,
    pub cache_valid: Option<bool>,
}

impl View for Feedback {
    type V = FeedbackModel;

    open spec fn view(&self) -> FeedbackModel {
        FeedbackModel {
            key: self.key@,
            selected_model_id: self.selected_model_id@,
            outcome: self.outcome,
            latency_ms: self.latency_ms,
            cache_valid: self.cache_valid,
        }
    }
}

impl Feedback {
    /// A successful call: outcome `Ok`, cache validity unknown.
    pub fn ok(key: RoutingKey, selected_model_id: String, latency_ms: u64) -> (f: Feedback)
        ensures
            f.key == key,
            f.selected_model_id == selected_model_id,
            f.outcome == Outcome::Success,
            f.latency_ms == latency_ms,
            f.cache_valid is None,
    {
        Feedback { key, selected_model_id, outcome: Outcome::Success, latency_ms, cache_valid: None }
    }
}

// ------------------------------------------------------------------
// Errors
// ------------------------------------------------------------------

/// Why routing or assembly failed.
#[derive(Clone, Debug, PartialEq, Eq)]
pub enum RouterError {
    Config(String),
    Algorithm(String),
    State(String),
    NoTarget,
}

pub enum ErrorModel {
    Config(Seq<char>),
    Algorithm(Seq<char>),
    State(Seq<char>),
    NoTarget,
}

impl View for RouterError {
    type V = ErrorModel;

    open spec fn view(&self) -> ErrorModel {
        match self {
            RouterError::Config(m) => ErrorModel::Config(m@),
            RouterError::Algorithm(m) => ErrorModel::Algorithm(m@),
            RouterError::State(m) => ErrorModel::State(m@),
            RouterError::NoTarget => ErrorModel::NoTarget,
        }
    }
}

/// The text that describes an error.
pub open spec fn error_text(e: ErrorModel) -> Seq<char> {
    match e {
        ErrorModel::Config(m) => "config: "@ + m,
        ErrorModel::Algorithm(m) => "algorithm: "@ + m,
        ErrorModel::State(m) => "state: "@ + m,
        ErrorModel::NoTarget => "no target left after exclusions"@,
    }
}

impl RouterError {
    /// The human-readable description of the error.
    pub fn message(&self) -> (r: String)
        ensures
            r@ == error_text(self@),
    {
        match self {
            RouterError::Config(m) => String::from_str("config: ").concat(m.as_str()),
            RouterError::Algorithm(m) => String::from_str("algorithm: ").concat(m.as_str()),
            RouterError::State(m) => String::from_str("state: ").concat(m.as_str()),
            RouterError::NoTarget => String::from_str("no target left after exclusions"),
        }
    }
}

/// A routing result as plain values.
pub open spec fn decision_result(r: Result<Decision, RouterError>) -> Result<
    DecisionModel,
    ErrorModel,
> {
    match r {
        Ok(d) => Ok(d@),
        Err(e) => Err(e@),
    }
}

} // verus!
