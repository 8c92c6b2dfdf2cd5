use vstd::prelude::*;

use crate::logevents::{LogEvents, LogEventsView};
use crate::records::LogRecordView;

verus! {

/// True when the selection stands one past the "more" row while a
/// pagination token is held: the signal to fetch the next page.
pub open spec fn needs_more(s: LogEventsState) -> bool {
    &&& s.next_token is Some
    &&& s.selected matches Some(i) && s.events@.items.len() > 0 && i == s.events@.items.len() + 1
}

/// Per-pane state: the fetched events, the pagination cursor returned by the
/// last fetch, the fetch-in-progress flag, the shown log group, and the
/// selected table row. The row index may run up to the item count plus one:
/// one past the rows stands the "more" row, and one further the request to
/// fetch another page.
pub struct LogEventsState {
    pub events: LogEvents,
    pub next_token: Option<String>,
    pub is_fetching: bool,
    pub current_log_group: Option<String>,
    pub selected: Option<usize>,
}

impl LogEventsState {
    pub fn new() -> (s: Self)
        ensures
            s.events@.items == Seq::<LogRecordView>::empty(),
            s.events@.opened == Seq::<usize>::empty(),
            s.next_token is None,
            !s.is_fetching,
            s.current_log_group is None,
            s.selected is None,
    {
        LogEventsState {
            events: LogEvents::new(Vec::new()),
            next_token: None,
            is_fetching: false,
            current_log_group: None,
            selected: None,
        }
    }

    /// Clears the events, the cursor position and the pagination token;
    /// the fetch flag and the group name are kept.
    pub fn reset(&mut self)
        ensures
            final(self).events@.items == Seq::<LogRecordView>::empty(),
            final(self).events@.opened == Seq::<usize>::empty(),
            final(self).next_token is None,
            final(self).selected is None,
            final(self).is_fetching == old(self).is_fetching,
            final(self).current_log_group == old(self).current_log_group,
    {
        self.events.clear_items();
        self.selected = None;
        self.next_token = None;
    }

    /// Moves the selected row one down, up to one past the "more" row.
    pub fn next(&mut self)
        ensures
            final(self).events@ == old(self).events@,
            final(self).next_token == old(self).next_token,
            final(self).is_fetching == old(self).is_fetching,
            final(self).current_log_group == old(self).current_log_group,
            final(self).selected == match old(self).selected {
                Some(s) => if old(self).events@.items.len() == 0 {
                    None::<usize>
                } else if s <= old(self).events@.items.len() && s < usize::MAX {
                    Some((s + 1) as usize)
                } else {
                    Some(s)
                },
                None => if old(self).events@.items.len() > 0 {
                    Some(0usize)
                } else {
                    None::<usize>
                },
            },
    {
        match self.selected {
            Some(s) => {
                if self.events.has_items() {
                    if s <= self.events.items().len() && s < usize::MAX {
                        self.selected = Some(s + 1);
                    }
                } else {
                    self.selected = None;
                }
            },
            None => {
                if self.events.has_items() {
                    self.selected = Some(0);
                } else {
                    self.selected = None;
                }
            },
        }
    }

    /// Moves the selected row `step` rows down, clamped to one past the
    /// "more" row.
    pub fn next_by(&mut self, step: usize)
        requires
            step >= 1,
            old(self).selected matches Some(s) ==> s + step <= usize::MAX,
            old(self).events@.items.len() + 1 < usize::MAX,
        ensures
            final(self).events@ == old(self).events@,
            final(self).next_token == old(self).next_token,
            final(self).is_fetching == old(self).is_fetching,
            final(self).current_log_group == old(self).current_log_group,
            final(self).selected == {
                let len = old(self).events@.items.len() as int;
                match old(self).selected {
                    Some(s) => if len == 0 {
                        None::<usize>
                    } else if s + step > len + 1 {
                        Some((len + 1) as usize)
                    } else {
                        Some((s + step) as usize)
                    },
                    None => if len == 0 {
                        None::<usize>
                    } else if step - 1 > len {
                        Some(len as usize)
                    } else {
                        Some((step - 1) as usize)
                    },
                }
            },
    {
        match self.selected {
            Some(s) => {
                if self.events.has_items() {
                    let mut next_p = s + step;
                    if next_p > self.events.items().len() + 1 {
                        next_p = self.events.items().len() + 1;
                    }
                    self.selected = Some(next_p);
                } else {
                    self.selected = None;
                }
            },
            None => {
                if self.events.has_items() {
                    let mut next_p = step - 1;
                    if next_p > self.events.items().len() {
                        next_p = self.events.items().len();
                    }
                    self.selected = Some(next_p);
                } else {
                    self.selected = None;
                }
            },
        }
    }

    /// Moves the selected row one up, stopping at the top.
    pub fn previous(&mut self)
        ensures
            final(self).events@ == old(self).events@,
            final(self).next_token == old(self).next_token,
            final(self).is_fetching == old(self).is_fetching,
            final(self).current_log_group == old(self).current_log_group,
            final(self).selected == match old(self).selected {
                Some(s) => if s > 0 {
                    Some((s - 1) as usize)
                } else {
                    Some(s)
                },
                None => None::<usize>,
            },
    {
        match self.selected {
            Some(s) => {
                if s > 0 {
                    self.selected = Some(s - 1);
                }
            },
            None => {},
        }
    }

    /// Moves the selected row `step` rows up, stopping at the top.
    pub fn previous_by(&mut self, step: usize)
        ensures
            final(self).events@ == old(self).events@,
            final(self).next_token == old(self).next_token,
            final(self).is_fetching == old(self).is_fetching,
            final(self).current_log_group == old(self).current_log_group,
            final(self).selected == match old(self).selected {
                Some(s) => if s >= step {
                    Some((s - step) as usize)
                } else {
                    Some(0usize)
                },
                None => None::<usize>,
            },
    {
        match self.selected {
            Some(s) => {
                if s >= step {
                    self.selected = Some(s - step);
                } else {
                    self.selected = Some(0);
                }
            },
            None => {},
        }
    }

    pub fn cursor_first(&mut self)
        ensures
            final(self).events@ == old(self).events@,
            final(self).next_token == old(self).next_token,
            final(self).is_fetching == old(self).is_fetching,
            final(self).current_log_group == old(self).current_log_group,
            final(self).selected == Some(0usize),
    {
        self.selected = Some(0);
    }

    pub fn cursor_last(&mut self)
        ensures
            final(self).events@ == old(self).events@,
            final(self).next_token == old(self).next_token,
            final(self).is_fetching == old(self).is_fetching,
            final(self).current_log_group == old(self).current_log_group,
            final(self).selected == Some(old(self).events@.items.len() as usize),
    {
        self.selected = Some(self.events.items().len());
    }

    /// Whether the selection stands one past the "more" row while a
    /// pagination token is held: the signal to fetch the next page.
    pub fn need_more_fetching(&self) -> (r: bool)
        ensures
            r == needs_more(*self),
    {
        if self.next_token.is_some() {
            if let Some(s) = self.selected {
                return self.events.has_items() && s >= 1 && s - 1 == self.events.items().len();
            }
        }
        false
    }
}

} // verus!
