//! The single-line text editor behind the add-process dialog.
//!
//! Each editing operation is small enough to state exactly: inserting puts
//! the character at the cursor, deleting removes around it, and movement
//! clamps to the ends of the line.

use vstd::prelude::*;

use crate::text::push_char;

verus! {

/// The most characters an input line accepts.
pub const INPUT_LINE_MAX: usize = 100000;

/// A line of text with a cursor.
pub struct InputLine {
    pub chars: Vec<char>,
    pub cursor: usize,
}

impl InputLine {
    /// The cursor stays inside the line (one past the end is allowed), and
    /// the line is bounded.
    pub open spec fn wf(self) -> bool {
        self.cursor <= self.chars.len() <= INPUT_LINE_MAX
    }

    /// An empty line.
    pub fn new() -> (r: InputLine)
        ensures
            r.wf(),
            r.chars@ == Seq::<char>::empty(),
            r.cursor == 0,
    {
        InputLine { chars: Vec::new(), cursor: 0 }
    }

    /// Inserts a character at the cursor and moves the cursor past it; a
    /// full line ignores the insertion.
    pub fn insert_char(&mut self, c: char)
        requires
            old(self).wf(),
        ensures
            final(self).wf(),
            old(self).chars@.len() < INPUT_LINE_MAX ==> {
                &&& final(self).chars@ == old(self).chars@.insert(old(self).cursor as int, c)
                &&& final(self).cursor == old(self).cursor + 1
            },
            old(self).chars@.len() >= INPUT_LINE_MAX ==> *final(self) == *old(self),
    {
        if self.chars.len() < INPUT_LINE_MAX {
            let at = self.cursor;
            self.chars.insert(at, c);
            self.cursor = at + 1;
        }
    }

    /// Removes the character before the cursor, if any.
    pub fn backspace(&mut self)
        requires
            old(self).wf(),
        ensures
            final(self).wf(),
            old(self).cursor == 0 ==> *final(self) == *old(self),
            old(self).cursor > 0 ==> {
                &&& final(self).chars@ == old(self).chars@.remove(old(self).cursor - 1)
                &&& final(self).cursor == old(self).cursor - 1
            },
    {
        if self.cursor > 0 {
            let at = self.cursor - 1;
            self.chars.remove(at);
            self.cursor = at;
        }
    }

    /// Removes the character under the cursor, if any.
    pub fn delete(&mut self)
        requires
            old(self).wf(),
        ensures
            final(self).wf(),
            old(self).cursor == old(self).chars@.len() ==> *final(self) == *old(self),
            old(self).cursor < old(self).chars@.len() ==> {
                &&& final(self).chars@ == old(self).chars@.remove(old(self).cursor as int)
                &&& final(self).cursor == old(self).cursor
            },
    {
        if self.cursor < self.chars.len() {
            let at = self.cursor;
            self.chars.remove(at);
        }
    }

    /// Moves the cursor one place left, clamped at the start.
    pub fn move_left(&mut self)
        requires
            old(self).wf(),
        ensures
            final(self).wf(),
            final(self).chars@ == old(self).chars@,
            final(self).cursor == if old(self).cursor > 0 {
                old(self).cursor - 1
            } else {
                0int
            },
    {
        if self.cursor > 0 {
            self.cursor = self.cursor - 1;
        }
    }

    /// Moves the cursor one place right, clamped at the end.
    pub fn move_right(&mut self)
        requires
            old(self).wf(),
        ensures
            final(self).wf(),
            final(self).chars@ == old(self).chars@,
            final(self).cursor == if old(self).cursor < old(self).chars@.len() {
                old(self).cursor + 1
            } else {
                old(self).chars@.len() as int
            },
    {
        if self.cursor < self.chars.len() {
            self.cursor = self.cursor + 1;
        }
    }

    /// Moves the cursor to the start of the line.
    pub fn move_home(&mut self)
        requires
            old(self).wf(),
        ensures
            final(self).wf(),
            final(self).chars@ == old(self).chars@,
            final(self).cursor == 0,
    {
        self.cursor = 0;
    }

    /// Moves the cursor to the end of the line.
    pub fn move_end(&mut self)
        requires
            old(self).wf(),
        ensures
            final(self).wf(),
            final(self).chars@ == old(self).chars@,
            final(self).cursor == old(self).chars@.len(),
    {
        self.cursor = self.chars.len();
    }

    /// The text of the line.
    pub fn value(&self) -> (s: String)
        ensures
            s@ == self.chars@,
    {
        let mut s = String::new();
        let mut i: usize = 0;
        while i < self.chars.len()
            invariant
                i <= self.chars.len(),
                s@ == self.chars@.take(i as int),
            decreases self.chars.len() - i,
        {
            let c = self.chars[i];
            push_char(&mut s, c);
            proof {
                assert(s@ =~= self.chars@.take(i as int + 1));
            }
            i += 1;
        }
        proof {
            assert(s@ =~= self.chars@);
        }
        s
    }
}

} // verus!
