use vstd::prelude::*;

use crate::keymap::{chars_to_string, KeyCode};
use crate::loggroups_state::{selected_names, LogGroupsState, MAX_LOG_GROUP_SELECTION};
use crate::logevents::find_first;

verus! {

/// The sidebar: the incremental filter text and the names of the selected
/// groups, as last confirmed.
pub struct SideMenu {
    pub is_selected: bool,
    pub selected_log_groups: Vec<String>,
    pub query: Vec<char>,
}

impl SideMenu {
    pub fn new() -> (s: Self)
        ensures
            s.is_selected,
            s.selected_log_groups@.len() == 0,
            s.query@ == Seq::<char>::empty(),
    {
        let s = SideMenu { is_selected: true, selected_log_groups: Vec::new(), query: Vec::new() };
        proof {
            assert(s.query@ =~= Seq::<char>::empty());
        }
        s
    }

    pub fn set_select(&mut self, select: bool)
        ensures
            final(self).is_selected == select,
            final(self).selected_log_groups == old(self).selected_log_groups,
            final(self).query == old(self).query,
    {
        self.is_selected = select;
    }

    pub fn selected_log_groups(&self) -> (r: &Vec<String>)
        ensures
            r == &self.selected_log_groups,
    {
        &self.selected_log_groups
    }

    /// The filter text as a string, for the listing query.
    pub fn query_string(&self) -> (r: String)
        ensures
            r@ == self.query@,
    {
        chars_to_string(&self.query)
    }

    /// Feeds one key to the sidebar: letters and backspace edit the filter,
    /// the arrows move the cursor of the listing, and enter toggles the
    /// selection of the group under the cursor. Keys are never consumed —
    /// the orchestrator may still act on them.
    pub fn handle_event(&mut self, code: KeyCode, state: &mut LogGroupsState) -> (handled: bool)
        requires
            old(self).query@.len() < usize::MAX,
        ensures
            !handled,
            final(self).is_selected == old(self).is_selected,
            !old(self).is_selected ==> *final(self) == *old(self) && *final(state) == *old(state),
            old(self).is_selected ==> match code {
                KeyCode::Char(c) => {
                    &&& final(self).query@ == if c != '?' {
                        old(self).query@.push(c)
                    } else {
                        old(self).query@
                    }
                    &&& final(self).selected_log_groups == old(self).selected_log_groups
                    &&& *final(state) == *old(state)
                },
                KeyCode::Backspace => {
                    &&& final(self).query@ == if old(self).query@.len() > 0 {
                        old(self).query@.drop_last()
                    } else {
                        old(self).query@
                    }
                    &&& final(self).selected_log_groups == old(self).selected_log_groups
                    &&& *final(state) == *old(state)
                },
                KeyCode::Down => {
                    &&& *final(self) == *old(self)
                    &&& final(state).selected == (if final(state).filtered_log_groups@.items.len() == 0 {
                        None::<usize>
                    } else {
                        match old(state).selected {
                            Some(s) => if s < usize::MAX {
                                Some((s + 1) as usize)
                            } else {
                                Some(s)
                            },
                            None => Some(0usize),
                        }
                    })
                    &&& final(state).log_groups == old(state).log_groups
                    &&& final(state).filtered_log_groups == old(state).filtered_log_groups
                    &&& final(state).selection == old(state).selection
                    &&& final(state).is_fetching == old(state).is_fetching
                },
                KeyCode::Up => {
                    &&& *final(self) == *old(self)
                    &&& final(state).selected == (match old(state).selected {
                        Some(s) => if s > 0 {
                            Some((s - 1) as usize)
                        } else {
                            Some(s)
                        },
                        None => None::<usize>,
                    })
                    &&& final(state).log_groups == old(state).log_groups
                    &&& final(state).filtered_log_groups == old(state).filtered_log_groups
                    &&& final(state).selection == old(state).selection
                    &&& final(state).is_fetching == old(state).is_fetching
                },
                KeyCode::Enter => {
                    &&& final(self).query == old(self).query
                    &&& final(self).is_selected == old(self).is_selected
                    &&& old(state).selected is None ==> *final(state) == *old(state)
                        && final(self).selected_log_groups == old(self).selected_log_groups
                    &&& old(state).selected matches Some(idx) ==> ({
                        &&& final(state).selection@ == (match find_first(
                            old(state).selection@,
                            idx,
                            0,
                        ) {
                            Some(i) => old(state).selection@.remove(i),
                            None => if old(state).selection@.len() < MAX_LOG_GROUP_SELECTION {
                                old(state).selection@.push(idx)
                            } else {
                                old(state).selection@
                            },
                        })
                        &&& final(state).log_groups == old(state).log_groups
                        &&& final(state).filtered_log_groups == old(state).filtered_log_groups
                        &&& final(state).selected == old(state).selected
                        &&& final(self).selected_log_groups.deep_view() == selected_names(
                            final(state).filtered_log_groups@.items,
                            final(state).selection@,
                        )
                    })
                },
                _ => *final(self) == *old(self) && *final(state) == *old(state),
            },
    {
        if self.is_selected {
            match code {
                KeyCode::Char(c) => {
                    if c != '?' {
                        // '?' is the key that toggles the help screen
                        self.query.push(c);
                    }
                },
                KeyCode::Backspace => {
                    if self.query.len() > 0 {
                        self.query.pop();
                        proof {
                            assert(self.query@ =~= old(self).query@.drop_last());
                        }
                    }
                },
                KeyCode::Down => {
                    state.next();
                },
                KeyCode::Up => {
                    state.previous();
                },
                KeyCode::Enter => {
                    match state.get_current_idx() {
                        Some(idx) => {
                            state.select(idx);
                            self.selected_log_groups = state.get_selected_log_group_names();
                        },
                        None => {},
                    }
                },
                _ => {},
            }
        }
        false
    }
}

} // verus!
