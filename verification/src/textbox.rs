use vstd::prelude::*;

use crate::keymap::{chars_to_string, inserted, KeyCode, KeyEventWrapper, KeyMaps, KeyModifier};

verus! {

/// The text, cursor and handled flag after one key reaches a selected box:
/// arrows move the cursor within the text, a character lands at the cursor,
/// backspace deletes before it, and any other key is left to the parent.
pub open spec fn textbox_step(input: Seq<char>, cursor: int, code: KeyCode) -> (
    Seq<char>,
    int,
    bool,
) {
    match code {
        KeyCode::Left => (input, if cursor > 0 {
            cursor - 1
        } else {
            0int
        }, true),
        KeyCode::Right => (input, if cursor < input.len() {
            cursor + 1
        } else {
            cursor
        }, true),
        KeyCode::Char(c) => (input.insert(cursor, c), cursor + 1, true),
        KeyCode::Backspace => if cursor > 0 {
            (input.remove(cursor - 1), cursor - 1, true)
        } else {
            (input, 0int, true)
        },
        _ => (input, cursor, false),
    }
}

/// The keys a text box consumes itself.
pub open spec fn textbox_handles(code: KeyCode) -> bool {
    match code {
        KeyCode::Left => true,
        KeyCode::Right => true,
        KeyCode::Char(_) => true,
        KeyCode::Backspace => true,
        _ => false,
    }
}

/// A one-line text input with a cursor, fed one key at a time.
pub struct TextBox {
    pub is_selected: bool,
    pub cursor: usize,
    pub input: Vec<char>,
}

impl TextBox {
    /// The cursor never leaves the text: it stands on a character or one
    /// past the last.
    pub open spec fn wf(&self) -> bool {
        self.cursor <= self.input@.len()
    }

    pub fn new(is_selected: bool) -> (s: Self)
        ensures
            s.is_selected == is_selected,
            s.cursor == 0,
            s.input@ == Seq::<char>::empty(),
            s.wf(),
    {
        let s = TextBox { is_selected, cursor: 0, input: Vec::new() };
        proof {
            assert(s.input@ =~= Seq::<char>::empty());
        }
        s
    }

    /// The entered text.
    pub fn get_input(&self) -> (r: String)
        ensures
            r@ == self.input@,
    {
        chars_to_string(&self.input)
    }

    /// The text with the cursor bar inserted, as the box draws it.
    pub fn get_text_to_show(&self) -> (r: String)
        requires
            self.wf(),
        ensures
            r@ == self.input@.take(self.cursor as int) + seq!['|'] + self.input@.skip(
                self.cursor as int,
            ),
    {
        let mut shown = self.input.clone();
        proof {
            assert(shown@ == self.input@);
        }
        shown.insert(self.cursor, '|');
        let r = chars_to_string(&shown);
        proof {
            assert(shown@ =~= self.input@.take(self.cursor as int) + seq!['|'] + self.input@.skip(
                self.cursor as int,
            ));
        }
        r
    }

    fn cursor_next(&mut self)
        ensures
            final(self).input == old(self).input,
            final(self).is_selected == old(self).is_selected,
            final(self).cursor == if old(self).cursor < old(self).input@.len() {
                old(self).cursor + 1
            } else {
                old(self).cursor as int
            },
    {
        if self.cursor < self.input.len() {
            self.cursor = self.cursor + 1;
        }
    }

    fn cursor_previous(&mut self)
        ensures
            final(self).input == old(self).input,
            final(self).is_selected == old(self).is_selected,
            final(self).cursor == if old(self).cursor > 0 {
                old(self).cursor - 1
            } else {
                0int
            },
    {
        if self.cursor > 0 {
            self.cursor = self.cursor - 1;
        }
    }

    pub fn select(&mut self)
        ensures
            final(self).is_selected,
            final(self).cursor == old(self).cursor,
            final(self).input == old(self).input,
    {
        self.is_selected = true;
    }

    pub fn deselect(&mut self)
        ensures
            !final(self).is_selected,
            final(self).cursor == old(self).cursor,
            final(self).input == old(self).input,
    {
        self.is_selected = false;
    }

    /// Feeds one key to the box: arrows move the cursor, a character is
    /// inserted at it, backspace deletes before it. An unselected box, and
    /// any other key, is left untouched and unhandled.
    pub fn handle_event(&mut self, code: KeyCode) -> (handled: bool)
        requires
            old(self).wf(),
            old(self).input@.len() < usize::MAX,
        ensures
            final(self).wf(),
            final(self).is_selected == old(self).is_selected,
            !old(self).is_selected ==> ({
                &&& !handled
                &&& final(self).input == old(self).input
                &&& final(self).cursor == old(self).cursor
            }),
            old(self).is_selected ==> ({
                let st = textbox_step(old(self).input@, old(self).cursor as int, code);
                &&& final(self).input@ == st.0
                &&& final(self).cursor == st.1
                &&& handled == st.2
            }),
            !textbox_handles(code) ==> ({
                &&& !handled
                &&& final(self).input == old(self).input
                &&& final(self).cursor == old(self).cursor
            }),
    {
        if self.is_selected {
            match code {
                KeyCode::Left => {
                    self.cursor_previous();
                    true
                },
                KeyCode::Right => {
                    self.cursor_next();
                    true
                },
                KeyCode::Char(c) => {
                    self.input.insert(self.cursor, c);
                    self.cursor = self.cursor + 1;
                    true
                },
                KeyCode::Backspace => {
                    if self.cursor > 0 {
                        self.input.remove(self.cursor - 1);
                        self.cursor = self.cursor - 1;
                    }
                    true
                },
                _ => false,
            }
        } else {
            false
        }
    }

    /// Adds this box's bindings to the help footer when it is selected.
    pub fn push_key_maps(&self, maps: &mut KeyMaps)
        ensures
            self.is_selected ==> final(maps)@ == inserted(
                inserted(
                    inserted(
                        old(maps)@,
                        KeyEventWrapper { code: KeyCode::Left, modifier: KeyModifier::Plain },
                        "Move cursor"@,
                    ),
                    KeyEventWrapper { code: KeyCode::Right, modifier: KeyModifier::Plain },
                    "Move cursor"@,
                ),
                KeyEventWrapper { code: KeyCode::Backspace, modifier: KeyModifier::Plain },
                "Delete char"@,
            ),
            !self.is_selected ==> final(maps)@ == old(maps)@,
    {
        if self.is_selected {
            maps.insert(
                KeyEventWrapper::new(KeyCode::Left, KeyModifier::Plain),
                "Move cursor".to_owned(),
            );
            maps.insert(
                KeyEventWrapper::new(KeyCode::Right, KeyModifier::Plain),
                "Move cursor".to_owned(),
            );
            maps.insert(
                KeyEventWrapper::new(KeyCode::Backspace, KeyModifier::Plain),
                "Delete char".to_owned(),
            );
        }
    }
}

} // verus!
