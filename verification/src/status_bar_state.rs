use vstd::prelude::*;

verus! {

/// Message shown in the status bar at the bottom of the screen.
pub struct StatusBarState {
    pub message: String,
}

impl StatusBarState {
    pub fn new(message: String) -> (s: Self)
        ensures
            s.message@ == message@,
    {
        StatusBarState { message }
    }
}

} // verus!
