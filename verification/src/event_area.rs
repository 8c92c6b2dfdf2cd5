use vstd::prelude::*;

use crate::keymap::{chars_to_string, str_to_chars, KeyCode, KeyModifier};
use crate::logevents::toggled;
use crate::logevents_state::{needs_more, LogEventsState};
use crate::search_condition_dialog::{dialog_key_effect, SearchConditionDialog};
use crate::search_info::SearchInfo;
use crate::search_state::{search_state_eq, SearchState};


verus! {

/// How many rows a page-step key jumps.
pub const LOGEVENT_STEP: usize = 5;

/// Which layer of a pane takes keys: its event table, or the search dialog
/// above it.
#[derive(Debug, PartialEq, Eq, Structural)]
pub enum Selection {
    Events,
    Search,
}

/// What the pane asks the outside world to do after a key: nothing, put a
/// message on the clipboard, or send a fetch command to its lane — the
/// group name, the pagination token, the condition, and whether to reset
/// first.
#[derive(Debug)]
pub enum PaneAction {
    Nothing,
    Copy(String),
    Fetch(String, Option<String>, Option<SearchState>, bool),
}

/// A long message wrapped for a column `width` characters wide: a newline
/// after every full chunk.
pub open spec fn with_newlines(s: Seq<char>, width: int) -> Seq<char>
    decreases s.len() when width > 0
{
    if s.len() <= width {
        s
    } else {
        s.take(width) + seq!['\n'] + with_newlines(s.skip(width), width)
    }
}

/// How many display rows the wrapped message takes.
pub open spec fn wrapped_height(s: Seq<char>, width: int) -> int
    decreases s.len() when width > 0
{
    if s.len() <= width {
        1int
    } else {
        1 + wrapped_height(s.skip(width), width)
    }
}

/// Wraps a table message in place for a column `width` characters wide and
/// tells how many rows it now takes.
pub fn insert_newline(row: &mut String, width: u16) -> (r: (String, u16))
    requires
        width >= 1,
        old(row)@.len() <= u16::MAX,
    ensures
        final(row)@ == with_newlines(old(row)@, width as int),
        r.0@ == with_newlines(old(row)@, width as int),
        r.1 == wrapped_height(old(row)@, width as int),
{
    let ghost orig = row@;
    let w = width as usize;
    let chars = str_to_chars(row.as_str());
    let len = chars.len();
    let mut out: Vec<char> = Vec::new();
    let mut height: u16 = 1;
    let mut i: usize = 0;
    proof {
        assert(orig.skip(0) =~= orig);
    }
    while len - i > w
        invariant
            w == width,
            1 <= w,
            i <= len,
            len == orig.len() <= u16::MAX,
            chars@ == orig,
            w <= u16::MAX,
            with_newlines(orig, w as int) == out@ + with_newlines(orig.skip(i as int), w as int),
            wrapped_height(orig, w as int) == height - 1 + wrapped_height(
                orig.skip(i as int),
                w as int,
            ),
            height - 1 <= i,
        decreases len - i,
    {
        let ghost out0 = out@;
        let mut j: usize = 0;
        while j < w
            invariant
                j <= w,
                i + w <= len,
                chars@ == orig,
                len == orig.len(),
                out@ == out0 + orig.subrange(i as int, i + j),
            decreases w - j,
        {
            out.push(chars[i + j]);
            proof {
                assert(out@ =~= out0 + orig.subrange(i as int, i + j + 1));
            }
            j = j + 1;
        }
        out.push('\n');
        proof {
            assert(orig.skip(i as int).take(w as int) =~= orig.subrange(i as int, i + w));
            assert(orig.skip(i as int).skip(w as int) =~= orig.skip(i + w));
            assert(out@ =~= out0 + (orig.skip(i as int).take(w as int) + seq!['\n']));
            assert(with_newlines(orig.skip(i as int), w as int) == orig.skip(i as int).take(
                w as int,
            ) + seq!['\n'] + with_newlines(orig.skip(i + w), w as int));
            assert(out@ + with_newlines(orig.skip(i + w), w as int) =~= out0 + with_newlines(
                orig.skip(i as int),
                w as int,
            ));
        }
        height = height + 1;
        i = i + w;
    }
    let ghost out1 = out@;
    let mut j: usize = i;
    while j < len
        invariant
            i <= j <= len,
            chars@ == orig,
            len == orig.len(),
            out@ == out1 + orig.subrange(i as int, j as int),
        decreases len - j,
    {
        out.push(chars[j]);
        proof {
            assert(out@ =~= out1 + orig.subrange(i as int, j + 1));
        }
        j = j + 1;
    }
    proof {
        assert(orig.subrange(i as int, len as int) =~= orig.skip(i as int));
        assert(with_newlines(orig.skip(i as int), w as int) == orig.skip(i as int));
        assert(out@ =~= with_newlines(orig, w as int));
    }
    let text = chars_to_string(&out);
    let copy = text.clone();
    *row = text;
    (copy, height)
}

/// One pane: the group it shows, its focus and layer, the condition info
/// line and the search dialog. The fetched rows live in the lane's shared
/// `LogEventsState`, handed in by the caller.
pub struct EventArea {
    pub log_group_name: String,
    pub is_selected: bool,
    pub search_info: SearchInfo,
    pub search_condition_dialog: SearchConditionDialog,
    pub selection: Selection,
}

impl EventArea {
    pub open spec fn wf(&self) -> bool {
        self.search_condition_dialog.wf()
    }

    pub fn new(log_group_name: &str) -> (s: Self)
        ensures
            s.log_group_name@ == log_group_name@,
            !s.is_selected,
            s.selection == Selection::Events,
            s.search_info.state.query@ == Seq::<char>::empty(),
            s.search_info.state.mode is Tail,
            s.wf(),
    {
        let search_state = SearchState::start();
        let dialog_state = SearchState::start();
        EventArea {
            log_group_name: log_group_name.to_owned(),
            is_selected: false,
            search_info: SearchInfo::new(search_state),
            search_condition_dialog: SearchConditionDialog::new(dialog_state),
            selection: Selection::Events,
        }
    }

    pub fn set_select(&mut self, select: bool)
        ensures
            final(self).is_selected == select,
            final(self).log_group_name == old(self).log_group_name,
            final(self).search_info == old(self).search_info,
            final(self).search_condition_dialog == old(self).search_condition_dialog,
            final(self).selection == old(self).selection,
    {
        self.is_selected = select;
    }

    pub fn log_group_name(&self) -> (r: &str)
        ensures
            r@ == self.log_group_name@,
    {
        self.log_group_name.as_str()
    }

    /// Feeds one key to the pane. With the dialog open the dialog takes the
    /// key; enter there commits the condition, and a changed condition asks
    /// for a fresh fetch with reset. On the table, keys move the cursor and
    /// fold rows; walking past the "more" row asks for the next page, and
    /// enter asks for a clipboard copy of the selected message.
    pub fn handle_event(&mut self, code: KeyCode, modifier: KeyModifier, lstate: &mut LogEventsState) -> (r: (
        bool,
        PaneAction,
    ))
        requires
            old(self).wf(),
            old(self).search_condition_dialog.query_input.input@.len() < usize::MAX,
            old(self).search_condition_dialog.term_from.input@.len() < usize::MAX,
            old(self).search_condition_dialog.term_to.input@.len() < usize::MAX,
            old(lstate).selected matches Some(s) ==> s + LOGEVENT_STEP <= usize::MAX,
            old(lstate).events@.items.len() + 1 < usize::MAX,
        ensures
            final(self).wf(),
            final(self).log_group_name == old(self).log_group_name,
            final(self).is_selected == old(self).is_selected,
            !old(self).is_selected ==> ({
                &&& *final(self) == *old(self)
                &&& *final(lstate) == *old(lstate)
                &&& !r.0
                &&& r.1 is Nothing
            }),
            old(self).is_selected && old(self).selection == Selection::Search ==> ({
                &&& !(code is Enter) && !(code is Esc) ==> ({
                    &&& r.0
                    &&& r.1 is Nothing
                    &&& *final(lstate) == *old(lstate)
                    &&& final(self).selection == Selection::Search
                    &&& final(self).search_info == old(self).search_info
                    &&& dialog_key_effect(
                        old(self).search_condition_dialog,
                        final(self).search_condition_dialog,
                        code,
                    )
                })
                &&& code is Esc ==> ({
                    &&& !r.0
                    &&& r.1 is Nothing
                    &&& *final(lstate) == *old(lstate)
                    &&& final(self).selection == Selection::Events
                    &&& final(self).search_info == old(self).search_info
                    &&& final(self).search_condition_dialog == old(self).search_condition_dialog
                })
                &&& code is Enter ==> ({
                    &&& !r.0
                    &&& final(self).selection == Selection::Events
                    &&& *final(lstate) == *old(lstate)
                    &&& final(self).search_condition_dialog == old(self).search_condition_dialog
                    &&& !(r.1 is Copy)
                    // a fetch goes out exactly when the committed condition
                    // differs from the one the pane searched with
                    &&& ((r.1 is Fetch) <==> !search_state_eq(
                        old(self).search_info.state,
                        final(self).search_info.state,
                    ))
                    // away from the explicit-range mode no parse is involved,
                    // so the commit itself is owed: the pane takes the
                    // dialog's query text and mode
                    &&& !(old(self).search_condition_dialog.state.mode is FromTo) ==> ({
                        &&& final(self).search_info.state.query@ == old(
                            self,
                        ).search_condition_dialog.query_input.input@
                        &&& final(self).search_info.state.mode == old(
                            self,
                        ).search_condition_dialog.state.mode
                    })
                    &&& (r.1 matches PaneAction::Fetch(g, t, c, reset) ==> ({
                        &&& g@ == old(self).log_group_name@
                        &&& t is None
                        &&& reset
                        &&& c matches Some(s) && search_state_eq(final(self).search_info.state, s)
                    }))
                })
            }),
            old(self).is_selected && old(self).selection == Selection::Events ==> ({
                &&& final(self).selection == (if code == KeyCode::Char('s') && modifier
                    == KeyModifier::Control {
                    Selection::Search
                } else {
                    old(self).selection
                })
                &&& final(self).search_info == old(self).search_info
                &&& code is Tab ==> ({
                    &&& r.0
                    &&& r.1 is Nothing
                    &&& match old(lstate).selected {
                        Some(idx) => final(lstate).events@.items == old(lstate).events@.items
                            && final(lstate).events@.opened == toggled(
                            old(lstate).events@.opened,
                            idx,
                        ),
                        None => *final(lstate) == *old(lstate),
                    }
                })
                &&& code is Enter ==> ({
                    &&& !r.0
                    &&& *final(lstate) == *old(lstate)
                    &&& match old(lstate).selected {
                        Some(idx) => if idx < old(lstate).events@.items.len() && old(lstate).events@.items[idx as int].message is Some {
                            r.1 matches PaneAction::Copy(m) && m@ == old(lstate).events@.items[idx as int].message.unwrap()
                        } else {
                            r.1 is Nothing
                        },
                        None => r.1 is Nothing,
                    }
                })
                &&& (code == KeyCode::Char('j') || code == KeyCode::Char('J')) ==> ({
                    &&& !r.0
                    &&& final(lstate).events@ == old(lstate).events@
                    &&& final(lstate).next_token == old(lstate).next_token
                    &&& final(lstate).is_fetching == old(lstate).is_fetching
                    &&& ((!final(lstate).is_fetching && needs_more(*final(lstate))) <==> r.1
                        is Fetch)
                    &&& (r.1 matches PaneAction::Fetch(g, t, c, reset) ==> ({
                        &&& g@ == old(self).log_group_name@
                        &&& !reset
                        &&& t.deep_view() == final(lstate).next_token.deep_view()
                        &&& c matches Some(cs) && search_state_eq(cs, old(self).search_info.state)
                    }))
                })
                &&& code == KeyCode::Char('j') ==> final(lstate).selected == (match old(
                    lstate,
                ).selected {
                    Some(s) => if old(lstate).events@.items.len() == 0 {
                        None::<usize>
                    } else if s <= old(lstate).events@.items.len() && s < usize::MAX {
                        Some((s + 1) as usize)
                    } else {
                        Some(s)
                    },
                    None => if old(lstate).events@.items.len() > 0 {
                        Some(0usize)
                    } else {
                        None::<usize>
                    },
                })
                &&& code == KeyCode::Char('J') ==> final(lstate).selected == ({
                    let len = old(lstate).events@.items.len() as int;
                    match old(lstate).selected {
                        Some(s) => if len == 0 {
                            None::<usize>
                        } else if s + LOGEVENT_STEP > len + 1 {
                            Some((len + 1) as usize)
                        } else {
                            Some((s + LOGEVENT_STEP) as usize)
                        },
                        None => if len == 0 {
                            None::<usize>
                        } else if LOGEVENT_STEP - 1 > len {
                            Some(len as usize)
                        } else {
                            Some((LOGEVENT_STEP - 1) as usize)
                        },
                    }
                })
                &&& code == KeyCode::Char('k') ==> ({
                    &&& r.0 == false && r.1 is Nothing
                    &&& final(lstate).events@ == old(lstate).events@
                    &&& final(lstate).next_token == old(lstate).next_token
                    &&& final(lstate).is_fetching == old(lstate).is_fetching
                    &&& final(lstate).selected == (match old(lstate).selected {
                        Some(s) => if s > 0 {
                            Some((s - 1) as usize)
                        } else {
                            Some(s)
                        },
                        None => None::<usize>,
                    })
                })
                &&& code == KeyCode::Char('K') ==> ({
                    &&& r.0 == false && r.1 is Nothing
                    &&& final(lstate).events@ == old(lstate).events@
                    &&& final(lstate).next_token == old(lstate).next_token
                    &&& final(lstate).is_fetching == old(lstate).is_fetching
                    &&& final(lstate).selected == (match old(lstate).selected {
                        Some(s) => if s >= LOGEVENT_STEP {
                            Some((s - LOGEVENT_STEP) as usize)
                        } else {
                            Some(0usize)
                        },
                        None => None::<usize>,
                    })
                })
                &&& code == KeyCode::Char('g') ==> ({
                    &&& r.0 == false && r.1 is Nothing
                    &&& final(lstate).events@ == old(lstate).events@
                    &&& final(lstate).selected == Some(0usize)
                })
                &&& code == KeyCode::Char('G') ==> ({
                    &&& r.0 == false && r.1 is Nothing
                    &&& final(lstate).events@ == old(lstate).events@
                    &&& final(lstate).selected == Some(old(lstate).events@.items.len() as usize)
                })
                &&& (code == KeyCode::Char('s') && modifier == KeyModifier::Control) ==> ({
                    &&& r.0 == false && r.1 is Nothing
                    &&& *final(lstate) == *old(lstate)
                })
                &&& (code is Left || code is Right || code is Up || code is Down || code is Esc
                    || code is Other) ==> ({
                    &&& r.0 == false && r.1 is Nothing
                    &&& *final(lstate) == *old(lstate)
                    &&& *final(self) == *old(self)
                })
            }),
    {
        if !self.is_selected {
            return (false, PaneAction::Nothing);
        }
        let mut next_token: Option<String> = None;
        let mut need_more_fetching = false;
        let mut change_search_condition = false;
        match self.selection {
            Selection::Search => {
                if self.search_condition_dialog.handle_event(code) {
                    return (true, PaneAction::Nothing);
                }
                match code {
                    KeyCode::Esc => {
                        self.selection = Selection::Events;
                        return (false, PaneAction::Nothing);
                    },
                    KeyCode::Enter => {
                        match self.search_condition_dialog.get_state() {
                            Ok(s) => {
                                change_search_condition = !self.search_info.is_same_state(&s);
                                self.search_info.set_state(s);
                            },
                            Err(_) => {},
                        }
                        self.selection = Selection::Events;
                        if change_search_condition {
                            let state = self.search_info.get_state();
                            return (
                                false,
                                PaneAction::Fetch(
                                    self.log_group_name.clone(),
                                    None,
                                    Some(state),
                                    true,
                                ),
                            );
                        }
                        return (false, PaneAction::Nothing);
                    },
                    _ => {
                        return (false, PaneAction::Nothing);
                    },
                }
            },
            Selection::Events => {
                match code {
                    KeyCode::Enter => {
                        match lstate.selected {
                            Some(idx) => {
                                match lstate.events.get_message(idx) {
                                    Some(text) => {
                                        return (false, PaneAction::Copy(text));
                                    },
                                    None => {
                                        return (false, PaneAction::Nothing);
                                    },
                                }
                            },
                            None => {
                                return (false, PaneAction::Nothing);
                            },
                        }
                    },
                    KeyCode::Tab => {
                        match lstate.selected {
                            Some(idx) => {
                                lstate.events.toggle_select(idx);
                            },
                            None => {},
                        }
                        return (true, PaneAction::Nothing);
                    },
                    KeyCode::Char(c) => {
                        if c == 'j' {
                            lstate.next();
                            if !lstate.is_fetching && lstate.need_more_fetching() {
                                next_token = crate::records::clone_opt_string(&lstate.next_token);
                                need_more_fetching = true;
                            }
                        } else if c == 'J' {
                            lstate.next_by(LOGEVENT_STEP);
                            if !lstate.is_fetching && lstate.need_more_fetching() {
                                next_token = crate::records::clone_opt_string(&lstate.next_token);
                                need_more_fetching = true;
                            }
                        } else if c == 'k' {
                            lstate.previous();
                        } else if c == 'K' {
                            lstate.previous_by(LOGEVENT_STEP);
                        } else if c == 's' {
                            if let KeyModifier::Control = modifier {
                                self.selection = Selection::Search;
                            }
                        } else if c == 'g' {
                            lstate.cursor_first();
                        } else if c == 'G' {
                            lstate.cursor_last();
                        }
                    },
                    _ => {},
                }
            },
        }
        if need_more_fetching {
            let state = self.search_info.get_state();
            return (
                false,
                PaneAction::Fetch(self.log_group_name.clone(), next_token, Some(state), false),
            );
        }
        (false, PaneAction::Nothing)
    }
}

} // verus!
