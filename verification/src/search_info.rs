use vstd::prelude::*;

use crate::search_state::{mode_label_text, search_state_eq, SearchMode, SearchState};

verus! {

/// The info line above a pane's condition.
pub open spec fn search_info_text(query: Seq<char>, mode: SearchMode) -> Seq<char> {
    "query: ["@ + query + "], mode: ["@ + mode_label_text(mode) + "]"@
}

/// The condition a pane currently searches with, shown above its table.
pub struct SearchInfo {
    pub state: SearchState,
}

impl SearchInfo {
    pub fn new(state: SearchState) -> (s: Self)
        ensures
            s.state == state,
    {
        SearchInfo { state }
    }

    /// The info line as drawn.
    pub fn get_msg(&self) -> (r: String)
        ensures
            r@ == search_info_text(self.state.query@, self.state.mode),
    {
        let label = self.state.mode.label();
        "query: [".to_owned().concat(self.state.query.as_str()).concat("], mode: [").concat(
            label.as_str(),
        ).concat("]")
    }

    pub fn set_state(&mut self, new_state: SearchState)
        ensures
            final(self).state == new_state,
    {
        self.state = new_state;
    }

    pub fn get_state(&self) -> (r: SearchState)
        ensures
            r.query@ == self.state.query@,
            r.mode == self.state.mode,
    {
        SearchState { query: self.state.query.clone(), mode: self.state.mode }
    }

    /// Whether the pane already searches with this condition.
    pub fn is_same_state(&self, other_state: &SearchState) -> (r: bool)
        ensures
            r == search_state_eq(self.state, *other_state),
    {
        self.state == *other_state
    }
}

} // verus!
