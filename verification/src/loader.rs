use vstd::prelude::*;

use crate::keymap::str_to_chars;

verus! {

/// A spinner: hands out the characters of its text one at a time, around
/// and around.
pub struct Loader {
    chars: Vec<char>,
    pos: usize,
}

impl Loader {
    pub closed spec fn text(&self) -> Seq<char> {
        self.chars@
    }

    pub closed spec fn position(&self) -> int {
        self.pos as int
    }

    /// The position always stands on a character, once there are any.
    pub open spec fn wf(&self) -> bool {
        self.text().len() > 0 ==> self.position() < self.text().len()
    }

    pub fn new(s: String) -> (r: Self)
        ensures
            r.text() == s@,
            r.position() == 0,
            r.wf(),
    {
        Loader { chars: str_to_chars(s.as_str()), pos: 0 }
    }

    /// The next spinner character, advancing cyclically.
    pub fn get_char(&mut self) -> (c: char)
        requires
            old(self).text().len() > 0,
            old(self).wf(),
        ensures
            c == old(self).text()[old(self).position()],
            final(self).text() == old(self).text(),
            final(self).position() == if old(self).position() + 1 == old(self).text().len() {
                0int
            } else {
                old(self).position() + 1
            },
            final(self).wf(),
    {
        proof {
            assert(self.pos < self.chars.len());
        }
        let c = self.chars[self.pos];
        if self.pos + 1 == self.chars.len() {
            self.pos = 0;
        } else {
            self.pos = self.pos + 1;
        }
        c
    }
}

} // verus!
