use vstd::prelude::*;

use crate::clock::parse_local_datetime_millis;
use crate::keymap::KeyCode;
use crate::search_state::{SearchMode, SearchState};
use crate::textbox::{textbox_handles, textbox_step, TextBox};

verus! {

/// How many time-range choices the dialog offers.
pub const MODE_NUM: usize = 6;

/// The dialog's time-range choices, in display order.
pub open spec fn mode_at_spec(i: int) -> Option<SearchMode> {
    if i == 0 {
        Some(SearchMode::Tail)
    } else if i == 1 {
        Some(SearchMode::OneMinute)
    } else if i == 2 {
        Some(SearchMode::ThirtyMinutes)
    } else if i == 3 {
        Some(SearchMode::OneHour)
    } else if i == 4 {
        Some(SearchMode::TwelveHours)
    } else if i == 5 {
        Some(SearchMode::FromTo(None, None))
    } else {
        None
    }
}

/// The time-range choice at one dialog row.
pub fn mode_at(i: usize) -> (r: Option<SearchMode>)
    ensures
        r == mode_at_spec(i as int),
{
    if i == 0 {
        Some(SearchMode::Tail)
    } else if i == 1 {
        Some(SearchMode::OneMinute)
    } else if i == 2 {
        Some(SearchMode::ThirtyMinutes)
    } else if i == 3 {
        Some(SearchMode::OneHour)
    } else if i == 4 {
        Some(SearchMode::TwelveHours)
    } else if i == 5 {
        Some(SearchMode::FromTo(None, None))
    } else {
        None
    }
}

/// Which of the two explicit-range boxes takes text input.
#[derive(Debug, PartialEq, Eq, Structural, Clone, Copy)]
pub enum CustomInputMode {
    FromInput,
    ToInput,
    Inactive,
}

/// The text of a radio row: a marked or an empty circle, then the label.
pub open spec fn radio_text(sel: bool, label: Seq<char>) -> Seq<char> {
    if sel {
        "[*] "@ + label
    } else {
        "[ ] "@ + label
    }
}

/// One radio button of the time-range choice.
pub struct Radio {
    pub is_selected: bool,
    pub label: String,
}

impl Radio {
    pub fn new(label: &str, is_selected: bool) -> (r: Self)
        ensures
            r.is_selected == is_selected,
            r.label@ == label@,
    {
        Radio { is_selected, label: label.to_owned() }
    }

    pub fn select(&mut self)
        ensures
            final(self).is_selected,
            final(self).label == old(self).label,
    {
        self.is_selected = true;
    }

    pub fn deselect(&mut self)
        ensures
            !final(self).is_selected,
            final(self).label == old(self).label,
    {
        self.is_selected = false;
    }

    /// The row as drawn.
    pub fn text(&self) -> (r: String)
        ensures
            r@ == radio_text(self.is_selected, self.label@),
    {
        if self.is_selected {
            "[*] ".to_owned().concat(self.label.as_str())
        } else {
            "[ ] ".to_owned().concat(self.label.as_str())
        }
    }
}

/// The radio group: one button per time-range choice, exactly one marked.
pub struct Radios {
    pub tail: Radio,
    pub one_minute: Radio,
    pub thirty_minutes: Radio,
    pub one_hour: Radio,
    pub twelve_hourse: Radio,
    pub custom: Radio,
}

/// The group with the button of `mode` marked and every other cleared;
/// labels are kept.
pub open spec fn radios_with_mode(r: Radios, mode: SearchMode) -> Radios {
    Radios {
        tail: Radio { is_selected: mode is Tail, ..r.tail },
        one_minute: Radio { is_selected: mode is OneMinute, ..r.one_minute },
        thirty_minutes: Radio { is_selected: mode is ThirtyMinutes, ..r.thirty_minutes },
        one_hour: Radio { is_selected: mode is OneHour, ..r.one_hour },
        twelve_hourse: Radio { is_selected: mode is TwelveHours, ..r.twelve_hourse },
        custom: Radio { is_selected: mode is FromTo, ..r.custom },
    }
}

impl Radios {
    pub fn new() -> (r: Self)
        ensures
            r.tail.is_selected && r.tail.label@ == "tail"@,
            !r.one_minute.is_selected && r.one_minute.label@ == "1 minute"@,
            !r.thirty_minutes.is_selected && r.thirty_minutes.label@ == "30 minutes"@,
            !r.one_hour.is_selected && r.one_hour.label@ == "1 hour"@,
            !r.twelve_hourse.is_selected && r.twelve_hourse.label@ == "12 hours"@,
            !r.custom.is_selected && r.custom.label@ == "custom (from to)"@,
    {
        Radios {
            tail: Radio::new("tail", true),
            one_minute: Radio::new("1 minute", false),
            thirty_minutes: Radio::new("30 minutes", false),
            one_hour: Radio::new("1 hour", false),
            twelve_hourse: Radio::new("12 hours", false),
            custom: Radio::new("custom (from to)", false),
        }
    }

    /// Marks the button of `mode` and clears the rest.
    pub fn select(&mut self, mode: &SearchMode)
        ensures
            *final(self) == radios_with_mode(*old(self), *mode),
    {
        self.tail.deselect();
        self.one_minute.deselect();
        self.thirty_minutes.deselect();
        self.one_hour.deselect();
        self.twelve_hourse.deselect();
        self.custom.deselect();
        match mode {
            SearchMode::Tail => self.tail.select(),
            SearchMode::OneMinute => self.one_minute.select(),
            SearchMode::ThirtyMinutes => self.thirty_minutes.select(),
            SearchMode::OneHour => self.one_hour.select(),
            SearchMode::TwelveHours => self.twelve_hourse.select(),
            SearchMode::FromTo(_, _) => self.custom.select(),
        }
    }

    /// The drawn row of the button that stands for `mode`.
    pub fn get_radio(&self, mode: &SearchMode) -> (r: String)
        ensures
            r@ == match *mode {
                SearchMode::Tail => radio_text(self.tail.is_selected, self.tail.label@),
                SearchMode::OneMinute => radio_text(
                    self.one_minute.is_selected,
                    self.one_minute.label@,
                ),
                SearchMode::ThirtyMinutes => radio_text(
                    self.thirty_minutes.is_selected,
                    self.thirty_minutes.label@,
                ),
                SearchMode::OneHour => radio_text(self.one_hour.is_selected, self.one_hour.label@),
                SearchMode::TwelveHours => radio_text(
                    self.twelve_hourse.is_selected,
                    self.twelve_hourse.label@,
                ),
                SearchMode::FromTo(_, _) => radio_text(
                    self.custom.is_selected,
                    self.custom.label@,
                ),
            },
    {
        match mode {
            SearchMode::Tail => self.tail.text(),
            SearchMode::OneMinute => self.one_minute.text(),
            SearchMode::ThirtyMinutes => self.thirty_minutes.text(),
            SearchMode::OneHour => self.one_hour.text(),
            SearchMode::TwelveHours => self.twelve_hourse.text(),
            SearchMode::FromTo(_, _) => self.custom.text(),
        }
    }
}

/// A malformed explicit time bound: the text of a term box did not parse as
/// a local date and time.
#[derive(Debug, PartialEq, Eq, Structural)]
pub struct SearchInputError;

/// Joins the outcomes of parsing the two term boxes: an empty box stands
/// for an open bound, a parsed one for its value, and a non-empty box that
/// did not parse refuses the whole range.
pub fn combine_bounds(
    from_empty: bool,
    from_parsed: Option<i64>,
    to_empty: bool,
    to_parsed: Option<i64>,
) -> (r: Result<(Option<i64>, Option<i64>), SearchInputError>)
    ensures
        r matches Ok(b) <==> (from_empty || from_parsed is Some) && (to_empty || to_parsed
            is Some),
        r matches Ok(b) ==> b.0 == (if from_empty {
            None::<i64>
        } else {
            from_parsed
        }) && b.1 == (if to_empty {
            None::<i64>
        } else {
            to_parsed
        }),
{
    let from = if from_empty {
        None
    } else {
        match from_parsed {
            Some(v) => Some(v),
            None => {
                return Err(SearchInputError);
            },
        }
    };
    let to = if to_empty {
        None
    } else {
        match to_parsed {
            Some(v) => Some(v),
            None => {
                return Err(SearchInputError);
            },
        }
    };
    Ok((from, to))
}

/// The modal dialog that edits a pane's search condition: the query box,
/// the radio rows, and the two explicit-range boxes.
pub struct SearchConditionDialog {
    pub focus: usize,
    pub state: SearchState,
    pub radios: Radios,
    pub query_input: TextBox,
    pub term_mode: CustomInputMode,
    pub term_from: TextBox,
    pub term_to: TextBox,
}

/// True when no text box of the dialog takes keys, so keys navigate.
pub open spec fn no_box_selected(d: SearchConditionDialog) -> bool {
    !d.query_input.is_selected && !d.term_from.is_selected && !d.term_to.is_selected
}

/// Focus row `f` decides which box takes input: the query box on the top
/// row; on the explicit-range row, whichever term box the tab cycle names.
pub open spec fn input_states_for(d: SearchConditionDialog, f: int) -> (bool, bool, bool) {
    let on_custom = mode_at_spec(if f > 0 {
        f - 1
    } else {
        0
    }) matches Some(m) && m is FromTo;
    (
        f == 0,
        on_custom && d.term_mode is FromInput,
        on_custom && d.term_mode is ToInput,
    )
}

/// The parts of the dialog a focus move leaves alone: the chosen condition,
/// the radios, and the text and cursor of every box; the boxes' selection
/// flags follow the new focus row.
pub open spec fn dialog_nav_rest(o: SearchConditionDialog, n: SearchConditionDialog) -> bool {
    &&& n.state == o.state
    &&& n.radios == o.radios
    &&& n.query_input.input == o.query_input.input
    &&& n.query_input.cursor == o.query_input.cursor
    &&& n.term_from.input == o.term_from.input
    &&& n.term_from.cursor == o.term_from.cursor
    &&& n.term_to.input == o.term_to.input
    &&& n.term_to.cursor == o.term_to.cursor
    &&& ({
        let (q, f, t) = input_states_for(n, n.focus as int);
        &&& n.query_input.is_selected == q
        &&& n.term_from.is_selected == f
        &&& n.term_to.is_selected == t
    })
}

/// How one key turns the dialog `o` into the dialog `n`: enter and escape
/// leave it alone; a text key lands in the selected box, the query box
/// first; the arrows move the focus; tab cycles the term boxes; and space
/// chooses the focused radio row as the mode.
pub open spec fn dialog_key_effect(
    o: SearchConditionDialog,
    n: SearchConditionDialog,
    code: KeyCode,
) -> bool {
    &&& (code is Enter || code is Esc) ==> n == o
    &&& (o.query_input.is_selected && textbox_handles(code)) ==> ({
        let st = textbox_step(o.query_input.input@, o.query_input.cursor as int, code);
        &&& n.query_input.input@ == st.0
        &&& n.query_input.cursor == st.1
        &&& n.query_input.is_selected == o.query_input.is_selected
        &&& n.term_from == o.term_from
        &&& n.term_to == o.term_to
        &&& n.focus == o.focus
        &&& n.state == o.state
        &&& n.radios == o.radios
        &&& n.term_mode == o.term_mode
    })
    &&& (!o.query_input.is_selected && o.term_from.is_selected && textbox_handles(code)) ==> ({
        let st = textbox_step(o.term_from.input@, o.term_from.cursor as int, code);
        &&& n.term_from.input@ == st.0
        &&& n.term_from.cursor == st.1
        &&& n.term_from.is_selected == o.term_from.is_selected
        &&& n.query_input == o.query_input
        &&& n.term_to == o.term_to
        &&& n.focus == o.focus
        &&& n.state == o.state
        &&& n.radios == o.radios
        &&& n.term_mode == o.term_mode
    })
    &&& (!o.query_input.is_selected && !o.term_from.is_selected && o.term_to.is_selected
        && textbox_handles(code)) ==> ({
        let st = textbox_step(o.term_to.input@, o.term_to.cursor as int, code);
        &&& n.term_to.input@ == st.0
        &&& n.term_to.cursor == st.1
        &&& n.term_to.is_selected == o.term_to.is_selected
        &&& n.query_input == o.query_input
        &&& n.term_from == o.term_from
        &&& n.focus == o.focus
        &&& n.state == o.state
        &&& n.radios == o.radios
        &&& n.term_mode == o.term_mode
    })
    &&& code is Down ==> ({
        &&& n.focus == if o.focus < MODE_NUM {
            o.focus + 1
        } else {
            o.focus as int
        }
        &&& n.term_mode == o.term_mode
        &&& dialog_nav_rest(o, n)
    })
    &&& code is Up ==> ({
        &&& n.focus == if o.focus > 0 {
            o.focus - 1
        } else {
            0int
        }
        &&& n.term_mode == o.term_mode
        &&& dialog_nav_rest(o, n)
    })
    &&& code is Tab ==> ({
        &&& n.term_mode == match o.term_mode {
            CustomInputMode::FromInput => CustomInputMode::ToInput,
            CustomInputMode::ToInput => CustomInputMode::Inactive,
            CustomInputMode::Inactive => CustomInputMode::FromInput,
        }
        &&& n.focus == o.focus
        &&& dialog_nav_rest(o, n)
    })
    &&& no_box_selected(o) ==> match code {
        KeyCode::Char(c) => if c == ' ' {
            &&& n.focus == o.focus
            &&& n.term_mode == o.term_mode
            &&& n.query_input == o.query_input
            &&& n.term_from == o.term_from
            &&& n.term_to == o.term_to
            &&& (o.focus == 0 ==> n == o)
            &&& (o.focus > 0 ==> (mode_at_spec(o.focus - 1) matches Some(m) ==> ({
                &&& n.state.mode == m
                &&& n.state.query == o.state.query
                &&& n.radios == radios_with_mode(o.radios, m)
            })))
        } else {
            n == o
        },
        KeyCode::Left => n == o,
        KeyCode::Right => n == o,
        KeyCode::Backspace => n == o,
        _ => true,
    }
}

impl SearchConditionDialog {
    /// Boxes are sound and the focus stays on the dialog's rows.
    pub open spec fn wf(&self) -> bool {
        &&& self.query_input.wf()
        &&& self.term_from.wf()
        &&& self.term_to.wf()
        &&& self.focus <= MODE_NUM
    }

    pub fn new(state: SearchState) -> (d: Self)
        ensures
            d.focus == 0,
            d.state == state,
            d.query_input.is_selected && d.query_input.input@.len() == 0,
            d.term_mode is Inactive,
            !d.term_from.is_selected && d.term_from.input@.len() == 0,
            !d.term_to.is_selected && d.term_to.input@.len() == 0,
            d.wf(),
    {
        SearchConditionDialog {
            focus: 0,
            state,
            radios: Radios::new(),
            query_input: TextBox::new(true),
            term_mode: CustomInputMode::Inactive,
            term_from: TextBox::new(false),
            term_to: TextBox::new(false),
        }
    }

    /// The explicit range the term boxes hold, or the error of a box whose
    /// text does not parse. Two empty boxes make the open range.
    pub fn get_timestamps(&self) -> (r: Result<
        (Option<i64>, Option<i64>),
        SearchInputError,
    >)
        ensures
            self.term_from.input@.len() == 0 && self.term_to.input@.len() == 0 ==> r == Ok::<
                _,
                SearchInputError,
            >((None::<i64>, None::<i64>)),
            r matches Ok(b) ==> (self.term_from.input@.len() == 0 ==> b.0 is None),
            r matches Ok(b) ==> (self.term_to.input@.len() == 0 ==> b.1 is None),
    {
        let from_text = self.term_from.get_input();
        let to_text = self.term_to.get_input();
        let from_empty = self.term_from.input.len() == 0;
        let to_empty = self.term_to.input.len() == 0;
        let from_parsed = if from_empty {
            None
        } else {
            parse_local_datetime_millis(from_text.as_str())
        };
        let to_parsed = if to_empty {
            None
        } else {
            parse_local_datetime_millis(to_text.as_str())
        };
        combine_bounds(from_empty, from_parsed, to_empty, to_parsed)
    }

    /// The condition the dialog stands for: its query text, and — on the
    /// explicit-range mode — the range read from the term boxes.
    pub fn get_state(&self) -> (r: Result<SearchState, SearchInputError>)
        ensures
            r matches Ok(s) ==> s.query@ == self.query_input.input@,
            !(self.state.mode is FromTo) ==> (r matches Ok(s) && s.mode == self.state.mode),
            r matches Ok(s) ==> (self.state.mode is FromTo ==> s.mode is FromTo),
            self.state.mode is FromTo && self.term_from.input@.len() == 0
                && self.term_to.input@.len() == 0 ==> (r matches Ok(s) && s.mode == SearchMode::FromTo(
                None,
                None,
            )),
    {
        let mode = if let SearchMode::FromTo(_, _) = self.state.mode {
            match self.get_timestamps() {
                Ok((from, to)) => SearchMode::FromTo(from, to),
                Err(e) => {
                    return Err(e);
                },
            }
        } else {
            self.state.mode
        };
        Ok(SearchState { query: self.query_input.get_input(), mode })
    }

    /// Reselects the input boxes for the current focus row.
    pub fn update_input_states(&mut self)
        requires
            old(self).wf(),
        ensures
            ({
                let (q, f, t) = input_states_for(*old(self), old(self).focus as int);
                &&& final(self).query_input.is_selected == q
                &&& final(self).term_from.is_selected == f
                &&& final(self).term_to.is_selected == t
            }),
            final(self).query_input.input == old(self).query_input.input,
            final(self).query_input.cursor == old(self).query_input.cursor,
            final(self).term_from.input == old(self).term_from.input,
            final(self).term_from.cursor == old(self).term_from.cursor,
            final(self).term_to.input == old(self).term_to.input,
            final(self).term_to.cursor == old(self).term_to.cursor,
            final(self).focus == old(self).focus,
            final(self).state == old(self).state,
            final(self).radios == old(self).radios,
            final(self).term_mode == old(self).term_mode,
            final(self).wf(),
    {
        if self.focus != 0 {
            self.query_input.deselect();
        } else {
            self.query_input.select();
        }
        let row = if self.focus > 0 {
            self.focus - 1
        } else {
            0
        };
        let mode = mode_at(row);
        match mode {
            Some(m) => {
                if let SearchMode::FromTo(_, _) = m {
                    match self.term_mode {
                        CustomInputMode::FromInput => {
                            self.term_from.select();
                            self.term_to.deselect();
                        },
                        CustomInputMode::ToInput => {
                            self.term_from.deselect();
                            self.term_to.select();
                        },
                        CustomInputMode::Inactive => {
                            self.term_from.deselect();
                            self.term_to.deselect();
                        },
                    }
                } else {
                    self.term_from.deselect();
                    self.term_to.deselect();
                }
            },
            None => {
                self.term_from.deselect();
                self.term_to.deselect();
            },
        }
    }

    /// Moves the focus one row down, to the last row at most.
    pub fn next(&mut self)
        requires
            old(self).wf(),
        ensures
            final(self).focus == if old(self).focus < MODE_NUM {
                old(self).focus + 1
            } else {
                old(self).focus as int
            },
            ({
                let (q, f, t) = input_states_for(*old(self), final(self).focus as int);
                &&& final(self).query_input.is_selected == q
                &&& final(self).term_from.is_selected == f
                &&& final(self).term_to.is_selected == t
            }),
            final(self).state == old(self).state,
            final(self).radios == old(self).radios,
            final(self).term_mode == old(self).term_mode,
            final(self).query_input.input == old(self).query_input.input,
            final(self).query_input.cursor == old(self).query_input.cursor,
            final(self).term_from.input == old(self).term_from.input,
            final(self).term_from.cursor == old(self).term_from.cursor,
            final(self).term_to.input == old(self).term_to.input,
            final(self).term_to.cursor == old(self).term_to.cursor,
            final(self).wf(),
    {
        if self.focus < MODE_NUM {
            self.focus = self.focus + 1;
        }
        self.update_input_states();
    }

    /// Moves the focus one row up, to the query row at most.
    pub fn previous(&mut self)
        requires
            old(self).wf(),
        ensures
            final(self).focus == if old(self).focus > 0 {
                old(self).focus - 1
            } else {
                0int
            },
            ({
                let (q, f, t) = input_states_for(*old(self), final(self).focus as int);
                &&& final(self).query_input.is_selected == q
                &&& final(self).term_from.is_selected == f
                &&& final(self).term_to.is_selected == t
            }),
            final(self).state == old(self).state,
            final(self).radios == old(self).radios,
            final(self).term_mode == old(self).term_mode,
            final(self).query_input.input == old(self).query_input.input,
            final(self).query_input.cursor == old(self).query_input.cursor,
            final(self).term_from.input == old(self).term_from.input,
            final(self).term_from.cursor == old(self).term_from.cursor,
            final(self).term_to.input == old(self).term_to.input,
            final(self).term_to.cursor == old(self).term_to.cursor,
            final(self).wf(),
    {
        if self.focus > 0 {
            self.focus = self.focus - 1;
        }
        self.update_input_states();
    }

    /// Takes the focused radio row as the chosen mode; on the query row
    /// nothing is chosen.
    pub fn select(&mut self)
        requires
            old(self).wf(),
        ensures
            old(self).focus == 0 ==> *final(self) == *old(self),
            old(self).focus > 0 ==> ({
                let m = mode_at_spec(old(self).focus - 1);
                match m {
                    Some(mode) => {
                        &&& final(self).radios == radios_with_mode(old(self).radios, mode)
                        &&& final(self).state.mode == mode
                        &&& final(self).state.query == old(self).state.query
                        &&& final(self).focus == old(self).focus
                        &&& final(self).query_input == old(self).query_input
                        &&& final(self).term_from == old(self).term_from
                        &&& final(self).term_to == old(self).term_to
                        &&& final(self).term_mode == old(self).term_mode
                    },
                    None => *final(self) == *old(self),
                }
            }),
            final(self).wf(),
    {
        if self.focus == 0 {
            return;
        }
        let mode = mode_at(self.focus - 1);
        if let Some(m) = mode {
            self.radios.select(&m);
            self.state.mode = m;
        }
    }

    /// Cycles which term box takes input: from, to, neither.
    pub fn toggle_term_mode(&mut self)
        ensures
            final(self).term_mode == match old(self).term_mode {
                CustomInputMode::FromInput => CustomInputMode::ToInput,
                CustomInputMode::ToInput => CustomInputMode::Inactive,
                CustomInputMode::Inactive => CustomInputMode::FromInput,
            },
            final(self).focus == old(self).focus,
            final(self).state == old(self).state,
            final(self).radios == old(self).radios,
            final(self).query_input == old(self).query_input,
            final(self).term_from == old(self).term_from,
            final(self).term_to == old(self).term_to,
    {
        match self.term_mode {
            CustomInputMode::FromInput => {
                self.term_mode = CustomInputMode::ToInput;
            },
            CustomInputMode::ToInput => {
                self.term_mode = CustomInputMode::Inactive;
            },
            CustomInputMode::Inactive => {
                self.term_mode = CustomInputMode::FromInput;
            },
        }
    }

    /// Feeds one key to the dialog. A selected text box takes text keys
    /// first; otherwise arrows move the focus, space chooses the focused
    /// mode, and tab cycles the term boxes. Enter and escape are left to
    /// the pane, which closes the dialog.
    pub fn handle_event(&mut self, code: KeyCode) -> (handled: bool)
        requires
            old(self).wf(),
            old(self).query_input.input@.len() < usize::MAX,
            old(self).term_from.input@.len() < usize::MAX,
            old(self).term_to.input@.len() < usize::MAX,
        ensures
            final(self).wf(),
            (code is Enter || code is Esc) ==> !handled,
            !(code is Enter || code is Esc) ==> handled,
            dialog_key_effect(*old(self), *final(self), code),
    {
        let q = self.query_input.handle_event(code);
        let f = if !q {
            self.term_from.handle_event(code)
        } else {
            false
        };
        let t = if !q && !f {
            self.term_to.handle_event(code)
        } else {
            false
        };
        if !q && !f && !t {
            match code {
                KeyCode::Down => {
                    self.next();
                },
                KeyCode::Up => {
                    self.previous();
                },
                KeyCode::Char(c) => {
                    if c == ' ' {
                        self.select();
                    }
                },
                KeyCode::Tab => {
                    self.toggle_term_mode();
                    self.update_input_states();
                },
                KeyCode::Enter => {
                    return false;
                },
                KeyCode::Esc => {
                    return false;
                },
                _ => {},
            }
        }
        true
    }
}

} // verus!
