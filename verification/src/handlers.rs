use vstd::prelude::*;

use crate::logevents::merged;
use crate::logevents_state::LogEventsState;
use crate::loggroups::pushed_groups;
use crate::loggroups_state::LogGroupsState;
use crate::records::{clone_opt_string, LogGroupRecord, LogGroupRecordView, LogRecord};
use crate::search_state::{SearchMode, SearchState};

verus! {

/// What the paged-fetch actor does with one fetch command.
#[derive(Debug, PartialEq, Eq, Structural)]
pub enum PagedFetchDecision {
    /// The condition asks for tailing: forward the command to the tail
    /// actor untouched; nothing is fetched here.
    StartTail,
    /// Fetch one page; when the flag is set, order the tail actor to stop
    /// first.
    BeginFetch(bool),
    /// A command without a condition does nothing.
    Ignore,
}

/// The decision state of one lane's paged-fetch actor: whether its pane is
/// currently tailing.
pub struct LogEventEventHandler {
    pub is_tail: bool,
}

impl LogEventEventHandler {
    pub fn new() -> (s: Self)
        ensures
            !s.is_tail,
    {
        LogEventEventHandler { is_tail: false }
    }

    /// Reacts to one fetch command, up to the network call: a tail
    /// condition is delegated to the tail actor; any other condition turns
    /// tailing off, raises the fetch flag, and — on a reset — clears the
    /// pane first.
    pub fn on_fetch_command(
        &mut self,
        state: &mut LogEventsState,
        condition: &Option<SearchState>,
        need_reset: bool,
    ) -> (d: PagedFetchDecision)
        ensures
            condition is None ==> ({
                &&& d is Ignore
                &&& *final(self) == *old(self)
                &&& *final(state) == *old(state)
            }),
            condition matches Some(c) && c.mode is Tail ==> ({
                &&& d is StartTail
                &&& final(self).is_tail
                &&& *final(state) == *old(state)
            }),
            condition matches Some(c) && !(c.mode is Tail) ==> ({
                &&& d == PagedFetchDecision::BeginFetch(old(self).is_tail)
                &&& !final(self).is_tail
                &&& final(state).is_fetching
                &&& final(state).current_log_group == old(state).current_log_group
                &&& need_reset ==> final(state).events@.items.len() == 0 && final(state).events@.opened.len() == 0 && final(state).next_token is None && final(state).selected is None
                &&& !need_reset ==> final(state).events@ == old(state).events@ && final(state).next_token == old(state).next_token && final(state).selected == old(state).selected
            }),
    {
        match condition {
            None => PagedFetchDecision::Ignore,
            Some(c) => {
                if let SearchMode::Tail = c.mode {
                    self.is_tail = true;
                    PagedFetchDecision::StartTail
                } else {
                    let was_tail = self.is_tail;
                    self.is_tail = false;
                    state.is_fetching = true;
                    if need_reset {
                        state.reset();
                    }
                    PagedFetchDecision::BeginFetch(was_tail)
                }
            },
        }
    }

    /// Stores what one network round trip brought back: the page is merged
    /// behind the known records, the cursor token is replaced, and the
    /// fetch flag is dropped.
    pub fn complete_fetch(
        &self,
        state: &mut LogEventsState,
        fetched: &mut Vec<LogRecord>,
        next_token: Option<String>,
    )
        ensures
            final(state).events@.items == merged(
                old(state).events@.items,
                old(fetched).deep_view(),
            ),
            final(state).events@.opened == old(state).events@.opened,
            final(state).next_token.deep_view() == next_token.deep_view(),
            !final(state).is_fetching,
            final(state).current_log_group == old(state).current_log_group,
            final(state).selected == old(state).selected,
    {
        state.events.push_items(fetched, false);
        state.next_token = next_token;
        state.is_fetching = false;
    }

    /// A round trip that failed: the fetch flag is dropped and the pane
    /// keeps its last good state — the next command or tick retries.
    pub fn fetch_failed(&self, state: &mut LogEventsState)
        ensures
            !final(state).is_fetching,
            final(state).events@ == old(state).events@,
            final(state).next_token == old(state).next_token,
            final(state).selected == old(state).selected,
            final(state).current_log_group == old(state).current_log_group,
    {
        state.is_fetching = false;
    }
}

/// The decision state of one lane's tail actor: whether it is tailing, and
/// the condition it tails with.
pub struct TailLogEventEventHandler {
    pub tail_mode: bool,
    pub current_search_condition: SearchState,
}

impl TailLogEventEventHandler {
    pub fn new() -> (s: Self)
        ensures
            !s.tail_mode,
            s.current_search_condition.query@ == Seq::<char>::empty(),
            s.current_search_condition.mode is Tail,
    {
        TailLogEventEventHandler {
            tail_mode: false,
            current_search_condition: SearchState::start(),
        }
    }

    /// Starts tailing: the condition is stored, the pane is bound to the
    /// group and cleared, and ticks are armed.
    pub fn on_start(
        &mut self,
        state: &mut LogEventsState,
        gname: String,
        token: Option<String>,
        conditions: Option<SearchState>,
    )
        ensures
            final(self).tail_mode,
            conditions matches Some(c) ==> final(self).current_search_condition == c,
            conditions is None ==> final(self).current_search_condition == old(self).current_search_condition,
            final(state).events@.items.len() == 0,
            final(state).events@.opened.len() == 0,
            final(state).next_token is None,
            final(state).selected is None,
            final(state).current_log_group matches Some(g) && g@ == gname@,
            final(state).is_fetching == old(state).is_fetching,
    {
        match conditions {
            Some(c) => {
                self.current_search_condition = c;
            },
            None => {},
        }
        state.next_token = token;
        state.current_log_group = Some(gname);
        state.reset();
        self.tail_mode = true;
    }

    /// Stops tailing and clears the pane: the tailed rows are ephemeral.
    pub fn on_stop(&mut self, state: &mut LogEventsState)
        ensures
            !final(self).tail_mode,
            final(self).current_search_condition == old(self).current_search_condition,
            final(state).events@.items.len() == 0,
            final(state).events@.opened.len() == 0,
            final(state).next_token is None,
            final(state).selected is None,
            final(state).is_fetching == old(state).is_fetching,
            final(state).current_log_group == old(state).current_log_group,
    {
        self.tail_mode = false;
        state.reset();
    }

    /// Reacts to one tick: when tailing and no fetch is outstanding, the
    /// fetch flag is raised and the group and token to fetch with are
    /// handed out. A tick that lands while a fetch is in flight is dropped
    /// — never queued — so at most one request per pane is outstanding.
    pub fn on_tick_begin(&mut self, state: &mut LogEventsState) -> (r: Option<
        (String, Option<String>),
    >)
        requires
            old(self).tail_mode ==> old(state).current_log_group is Some,
        ensures
            *final(self) == *old(self),
            !old(self).tail_mode ==> r is None && *final(state) == *old(state),
            old(state).is_fetching ==> r is None && *final(state) == *old(state),
            old(self).tail_mode && !old(state).is_fetching ==> ({
                &&& r matches Some(p) && p.0@ == old(state).current_log_group.unwrap()@
                    && p.1.deep_view() == old(state).next_token.deep_view()
                &&& final(state).is_fetching
                &&& final(state).events@ == old(state).events@
                &&& final(state).next_token == old(state).next_token
                &&& final(state).selected == old(state).selected
                &&& final(state).current_log_group == old(state).current_log_group
            }),
    {
        if self.tail_mode {
            if !state.is_fetching {
                state.is_fetching = true;
                let gname = match &state.current_log_group {
                    Some(g) => g.clone(),
                    None => {
                        proof {
                            assert(false);
                        }
                        String::new()
                    },
                };
                let token = clone_opt_string(&state.next_token);
                return Some((gname, token));
            }
        }
        None
    }

    /// Stores what one tail round trip brought back, and follows the tail:
    /// the cursor moves to the last row.
    pub fn on_tick_complete(
        &self,
        state: &mut LogEventsState,
        fetched: &mut Vec<LogRecord>,
        next_token: Option<String>,
    )
        ensures
            final(state).events@.items == merged(
                old(state).events@.items,
                old(fetched).deep_view(),
            ),
            final(state).events@.opened == old(state).events@.opened,
            final(state).next_token.deep_view() == next_token.deep_view(),
            final(state).selected == Some(
                merged(old(state).events@.items, old(fetched).deep_view()).len() as usize,
            ),
            !final(state).is_fetching,
            final(state).current_log_group == old(state).current_log_group,
    {
        state.events.push_items(fetched, false);
        state.next_token = next_token;
        state.cursor_last();
        state.is_fetching = false;
    }

    /// A tail round trip that failed: the fetch flag is dropped and the
    /// pane keeps its last good state — the next tick retries.
    pub fn fetch_failed(&self, state: &mut LogEventsState)
        ensures
            !final(state).is_fetching,
            final(state).events@ == old(state).events@,
            final(state).next_token == old(state).next_token,
            final(state).selected == old(state).selected,
            final(state).current_log_group == old(state).current_log_group,
    {
        state.is_fetching = false;
    }
}

/// The log-group fetch actor has no decision state: it fetches the full
/// listing once asked.
pub struct LogGroupEventHandler {}

impl LogGroupEventHandler {
    pub fn new() -> (s: Self) {
        LogGroupEventHandler {  }
    }

    /// Raises the sidebar's fetch flag for the duration of the listing
    /// call.
    pub fn on_fetch_begin(&self, state: &mut LogGroupsState)
        ensures
            final(state).is_fetching,
            final(state).log_groups == old(state).log_groups,
            final(state).filtered_log_groups == old(state).filtered_log_groups,
            final(state).selection == old(state).selection,
            final(state).selected == old(state).selected,
    {
        state.is_fetching = true;
    }

    /// Stores the fetched group listing and drops the fetch flag.
    pub fn on_fetch_complete(&self, state: &mut LogGroupsState, fetched: &mut Vec<LogGroupRecord>)
        ensures
            final(state).log_groups@.items == pushed_groups(
                old(state).log_groups@.items,
                old(fetched).deep_view(),
                false,
            ),
            final(fetched).deep_view() == Seq::<LogGroupRecordView>::empty(),
            !final(state).is_fetching,
            final(state).filtered_log_groups == old(state).filtered_log_groups,
            final(state).selection == old(state).selection,
            final(state).selected == old(state).selected,
    {
        state.log_groups.push_items(fetched, false);
        state.is_fetching = false;
    }

    /// A listing call that failed: the fetch flag is dropped and the
    /// listing keeps its last good state.
    pub fn fetch_failed(&self, state: &mut LogGroupsState)
        ensures
            !final(state).is_fetching,
            final(state).log_groups == old(state).log_groups,
            final(state).filtered_log_groups == old(state).filtered_log_groups,
            final(state).selection == old(state).selection,
            final(state).selected == old(state).selected,
    {
        state.is_fetching = false;
    }
}

} // verus!
