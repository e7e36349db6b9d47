//! Selection of the action that a sub-command names, and the few values
//! that the top layer composes from the actions' results.

use vstd::prelude::*;
use vstd::string::*;
use crate::text::same_text;

verus! {

/// The actions of the tool.
#[derive(Clone, Copy, Debug, PartialEq, Eq, Structural)]
pub enum Action {
    Doctor,
    Scout,
    List,
    Publish,
    Delete,
    Subscribe,
    Query,
    Queryable,
    Stream,
    Storage,
    Liveliness,
    Graph,
}

/// The action that a sub-command name selects.
pub open spec fn action_named(name: Seq<char>) -> Option<Action> {
    if name == "doctor"@ {
        Some(Action::Doctor)
    } else if name == "scout"@ {
        Some(Action::Scout)
    } else if name == "list"@ {
        Some(Action::List)
    } else if name == "publish"@ {
        Some(Action::Publish)
    } else if name == "delete"@ {
        Some(Action::Delete)
    } else if name == "subscribe"@ {
        Some(Action::Subscribe)
    } else if name == "query"@ {
        Some(Action::Query)
    } else if name == "queryable"@ {
        Some(Action::Queryable)
    } else if name == "stream"@ {
        Some(Action::Stream)
    } else if name == "storage"@ {
        Some(Action::Storage)
    } else if name == "liveliness"@ {
        Some(Action::Liveliness)
    } else if name == "graph"@ {
        Some(Action::Graph)
    } else {
        None
    }
}

/// The action that a sub-command name selects, if any.
pub fn select_action(name: &str) -> (r: Option<Action>)
    ensures
        r == action_named(name@),
{
    if same_text(name, "doctor") {
        Some(Action::Doctor)
    } else if same_text(name, "scout") {
        Some(Action::Scout)
    } else if same_text(name, "list") {
        Some(Action::List)
    } else if same_text(name, "publish") {
        Some(Action::Publish)
    } else if same_text(name, "delete") {
        Some(Action::Delete)
    } else if same_text(name, "subscribe") {
        Some(Action::Subscribe)
    } else if same_text(name, "query") {
        Some(Action::Query)
    } else if same_text(name, "queryable") {
        Some(Action::Queryable)
    } else if same_text(name, "stream") {
        Some(Action::Stream)
    } else if same_text(name, "storage") {
        Some(Action::Storage)
    } else if same_text(name, "liveliness") {
        Some(Action::Liveliness)
    } else if same_text(name, "graph") {
        Some(Action::Graph)
    } else {
        None
    }
}

/// What the liveliness sub-command does with its key.
#[derive(Clone, Copy, Debug, PartialEq, Eq, Structural)]
pub enum LivelinessMode {
    Declare,
    Subscribe,
    Query,
}

/// The liveliness mode that the options select: the first of declare,
/// subscribe and query that is given.
pub fn liveliness_mode(declare: bool, subscribe: bool, query: bool) -> (r: Option<
    LivelinessMode,
>)
    ensures
        r == (if declare {
            Some(LivelinessMode::Declare)
        } else if subscribe {
            Some(LivelinessMode::Subscribe)
        } else if query {
            Some(LivelinessMode::Query)
        } else {
            None
        }),
{
    if declare {
        Some(LivelinessMode::Declare)
    } else if subscribe {
        Some(LivelinessMode::Subscribe)
    } else if query {
        Some(LivelinessMode::Query)
    } else {
        None
    }
}

/// Whether the tool stays up until interrupted once the action is done:
/// after launching a storage, and while a declared token is held.
pub fn waits_for_interrupt(action: Action, mode: Option<LivelinessMode>) -> (r: bool)
    ensures
        r == (action == Action::Storage || (action == Action::Liveliness && mode == Some(
            LivelinessMode::Declare,
        ))),
{
    match action {
        Action::Storage => true,
        Action::Liveliness => match mode {
            Some(LivelinessMode::Declare) => true,
            _ => false,
        },
        _ => false,
    }
}

/// The key under which a router publishes its link-state graph.
pub open spec fn graph_key(router: Seq<char>) -> Seq<char> {
    "@/"@ + router + "/router/linkstate/routers"@
}

/// The key to query for the link-state graph of `router`.
pub fn graph_query_key(router: &str) -> (r: String)
    ensures
        r@ == graph_key(router@),
{
    let mut s = String::from_str("@/");
    s.append(router);
    s.append("/router/linkstate/routers");
    s
}

/// The replication settings of a storage that aligns with its peers.
pub open spec fn replication_settings() -> Seq<char> {
    ", replication: { interval: 3, sub_intervals: 5, hot: 6, warm: 24, propagation_delay: 10}"@
}

/// The storage entry for a memory storage on `key`: completeness quoted,
/// and replication settings where the align option was given at all.
pub open spec fn storage_entry(key: Seq<char>, complete: bool, align: Option<bool>) -> Seq<
    char,
> {
    "{ key_expr: \""@ + key + "\", volume: \"memory\",  complete: \""@ + (if complete {
        "true"@
    } else {
        "false"@
    }) + "\" "@ + (if align is Some {
        replication_settings()
    } else {
        Seq::empty()
    }) + ", }"@
}

/// The storage entry that the storage sub-command hands to the broker's
/// configuration.
pub fn storage_config(key: &str, complete: bool, align: Option<bool>) -> (r: String)
    ensures
        r@ == storage_entry(key@, complete, align),
{
    let mut s = String::from_str("{ key_expr: \"");
    s.append(key);
    s.append("\", volume: \"memory\",  complete: \"");
    s.append(if complete { "true" } else { "false" });
    s.append("\" ");
    if align.is_some() {
        s.append(
            ", replication: { interval: 3, sub_intervals: 5, hot: 6, warm: 24, propagation_delay: 10}",
        );
    }
    s.append(", }");
    s
}

} // verus!
