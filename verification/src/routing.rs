//! The plain values of semantic routing: what a caller asks a router, and
//! what a route is tagged with. The search that picks a route is done by a
//! vector store outside the library.

use vstd::prelude::*;
use vstd::std_specs::convert::FromSpecImpl;

verus! {

/// What a request to a router holds.
pub struct RouterRequestModel {
    pub query: Seq<char>,
    pub turns: u64,
}

/// A question for a router, and the number of turns that the agent which
/// gets it may take. No turns given means a single answer.
#[derive(Debug, Clone, PartialEq)]
pub struct RouterRequest {
    query: String,
    turns: u64,
}

impl View for RouterRequest {
    type V = RouterRequestModel;

    closed spec fn view(&self) -> RouterRequestModel {
        RouterRequestModel { query: self.query@, turns: self.turns }
    }
}

impl RouterRequest {
    /// The request for a single answer to `query`.
    pub fn new(query: String) -> (r: Self)
        ensures
            r@ == (RouterRequestModel { query: query@, turns: 0 }),
    {
        Self::from(query)
    }

    /// The same request with `turns` turns.
    pub fn with_turns(self, turns: u64) -> (r: Self)
        ensures
            r@ == (RouterRequestModel { query: self@.query, turns }),
    {
        let mut this = self;
        this.turns = turns;
        this
    }

    /// The request for `turns` turns on `query`.
    pub fn from_parts(query: &str, turns: u64) -> (r: Self)
        ensures
            r@ == (RouterRequestModel { query: query@, turns }),
    {
        Self { query: query.to_owned(), turns }
    }

    /// The question.
    pub fn query(&self) -> (r: &str)
        ensures
            r@ == self@.query,
    {
        self.query.as_str()
    }

    /// The number of turns.
    pub fn turns(&self) -> (r: u64)
        ensures
            r == self@.turns,
    {
        self.turns
    }

    /// Whether the agent is to run over several turns.
    pub fn is_multi_turn(&self) -> (r: bool)
        ensures
            r == (self@.turns > 0),
    {
        self.turns > 0
    }
}

impl From<String> for RouterRequest {
    fn from(value: String) -> (r: Self)
        ensures
            r@ == (RouterRequestModel { query: value@, turns: 0 }),
    {
        Self { query: value, turns: 0 }
    }
}

impl FromSpecImpl<String> for RouterRequest {
    open spec fn obeys_from_spec() -> bool {
        false
    }

    open spec fn from_spec(value: String) -> Self {
        arbitrary()
    }
}

impl From<&str> for RouterRequest {
    fn from(value: &str) -> (r: Self)
        ensures
            r@ == (RouterRequestModel { query: value@, turns: 0 }),
    {
        Self { query: value.to_owned(), turns: 0 }
    }
}

impl FromSpecImpl<&str> for RouterRequest {
    open spec fn obeys_from_spec() -> bool {
        false
    }

    open spec fn from_spec(value: &str) -> Self {
        arbitrary()
    }
}

impl From<(String, u64)> for RouterRequest {
    fn from(value: (String, u64)) -> (r: Self)
        ensures
            r@ == (RouterRequestModel { query: value.0@, turns: value.1 }),
    {
        Self { query: value.0, turns: value.1 }
    }
}

impl FromSpecImpl<(String, u64)> for RouterRequest {
    open spec fn obeys_from_spec() -> bool {
        false
    }

    open spec fn from_spec(value: (String, u64)) -> Self {
        arbitrary()
    }
}

impl From<(&str, u64)> for RouterRequest {
    fn from(value: (&str, u64)) -> (r: Self)
        ensures
            r@ == (RouterRequestModel { query: value.0@, turns: value.1 }),
    {
        Self { query: value.0.to_owned(), turns: value.1 }
    }
}

impl FromSpecImpl<(&str, u64)> for RouterRequest {
    open spec fn obeys_from_spec() -> bool {
        false
    }

    open spec fn from_spec(value: (&str, u64)) -> Self {
        arbitrary()
    }
}

/// The tag under which a route is stored.
#[derive(Debug, Clone, PartialEq)]
pub struct SemanticRoute {
    pub tag: String,
}

impl View for SemanticRoute {
    type V = Seq<char>;

    open spec fn view(&self) -> Seq<char> {
        self.tag@
    }
}

/// Why a router could not be built.
#[derive(Debug, Clone, Copy, PartialEq, Eq, Structural)]
pub enum SemanticRouterError {
    /// No vector store was given.
    StoreNotFound,
}

impl SemanticRouterError {
    /// The error in words.
    pub fn message(&self) -> (r: &'static str)
        ensures
            r@ == "Vector store not found"@,
    {
        "Vector store not found"
    }
}

/// The store that a router is built on, or the reason why none can be
/// built: a router needs a store.
pub fn require_store<V>(store: Option<V>) -> (r: Result<V, SemanticRouterError>)
    ensures
        r == (match store {
            Some(store) => Ok::<V, SemanticRouterError>(store),
            None => Err::<V, SemanticRouterError>(SemanticRouterError::StoreNotFound),
        }),
{
    match store {
        Some(store) => Ok(store),
        None => Err(SemanticRouterError::StoreNotFound),
    }
}

/// What a router does with a request.
#[derive(Debug, Clone, PartialEq)]
pub enum RouteDecision {
    /// No route is close enough: nothing is asked.
    NoRoute,
    /// The agent under this tag is asked once.
    Prompt { tag: String },
    /// The agent under this tag is asked and may take this many turns.
    MultiTurn { tag: String, turns: u64 },
}

/// What a route decision holds.
pub enum RouteDecisionModel {
    NoRoute,
    Prompt { tag: Seq<char> },
    MultiTurn { tag: Seq<char>, turns: u64 },
}

impl View for RouteDecision {
    type V = RouteDecisionModel;

    open spec fn view(&self) -> RouteDecisionModel {
        match self {
            RouteDecision::NoRoute => RouteDecisionModel::NoRoute,
            RouteDecision::Prompt { tag } => RouteDecisionModel::Prompt { tag: tag@ },
            RouteDecision::MultiTurn { tag, turns } => RouteDecisionModel::MultiTurn {
                tag: tag@,
                turns: *turns,
            },
        }
    }
}

/// What a router does with a request, given the nearest route that the
/// store found and whether its score is below the threshold. A route that
/// scores high enough is taken, over several turns where the request asks
/// for them.
pub open spec fn decision(
    nearest: Option<Seq<char>>,
    below_threshold: bool,
    turns: u64,
) -> RouteDecisionModel {
    match nearest {
        None => RouteDecisionModel::NoRoute,
        Some(tag) => if below_threshold {
            RouteDecisionModel::NoRoute
        } else if turns > 0 {
            RouteDecisionModel::MultiTurn { tag, turns }
        } else {
            RouteDecisionModel::Prompt { tag }
        },
    }
}

/// Decides what to do with a request. `nearest` is the nearest route that
/// the store found, if it found one; `below_threshold` says whether the
/// score of that route is below the threshold of the router.
pub fn decide(request: &RouterRequest, nearest: Option<&SemanticRoute>, below_threshold: bool) -> (r:
    RouteDecision)
    ensures
        r@ == decision(
            match nearest {
                Some(route) => Some(route@),
                None => None,
            },
            below_threshold,
            request@.turns,
        ),
{
    match nearest {
        None => RouteDecision::NoRoute,
        Some(route) => if below_threshold {
            RouteDecision::NoRoute
        } else if request.is_multi_turn() {
            RouteDecision::MultiTurn { tag: route.tag.clone(), turns: request.turns() }
        } else {
            RouteDecision::Prompt { tag: route.tag.clone() }
        },
    }
}

} // verus!
