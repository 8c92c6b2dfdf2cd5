use vstd::prelude::*;

use crate::search_state::SearchState;

verus! {

/// Commands understood by the log-group fetch actor.
#[derive(Debug, PartialEq)]
pub enum LogGroupEvent {
    FetchLogGroups,
    Abort,
}

/// Commands understood by a lane's paged-fetch actor: a fetch request
/// carrying the group name, the pagination token, the search condition and
/// the reset flag, or the order to stop.
#[derive(Debug, PartialEq)]
pub enum LogEventEvent {
    FetchLogEvents(String, Option<String>, Option<SearchState>, bool),
    Abort,
}

/// Commands understood by a lane's tail actor: start tailing a group,
/// stop, the periodic tick, or the order to stop for good.
#[derive(Debug, PartialEq)]
pub enum TailLogEventEvent {
    Start(String, Option<String>, Option<SearchState>, bool),
    Stop,
    Tick,
    Abort,
}

/// What the input pump hands the orchestrator: a key, or the periodic tick.
#[derive(Debug, PartialEq)]
pub enum Event<I> {
    Input(I),
    Tick,
}

} // verus!
