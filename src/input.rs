use vstd::prelude::*;

verus! {

/// A single line of editable text with a cursor between characters.
pub struct InputLine {
    input: Vec<char>,
    cursor_position: usize,
}

/// `pos`, or `len` when `pos` is past the end.
pub open spec fn clamp_to(pos: int, len: int) -> int {
    if pos > len {
        len
    } else {
        pos
    }
}

impl InputLine {
    pub closed spec fn text(&self) -> Seq<char> {
        self.input@
    }

    /// The number of characters before the cursor.
    pub closed spec fn cursor(&self) -> nat {
        self.cursor_position as nat
    }

    /// The cursor stands within the text.
    pub closed spec fn wf(&self) -> bool {
        self.cursor_position <= self.input@.len()
    }

    /// An empty line with the cursor at its start.
    pub fn new() -> (r: Self)
        ensures
            r.wf(),
            r.text() == Seq::<char>::empty(),
            r.cursor() == 0,
    {
        InputLine { input: Vec::new(), cursor_position: 0 }
    }

    pub fn input(&self) -> (r: &Vec<char>)
        ensures
            r@ == self.text(),
    {
        &self.input
    }

    pub fn cursor_position(&self) -> (r: usize)
        ensures
            r == self.cursor(),
    {
        self.cursor_position
    }

    /// `pos` limited to the length of the text.
    pub fn clamp_cursor(&self, pos: usize) -> (r: usize)
        ensures
            r == clamp_to(pos as int, self.text().len() as int),
            self.text().len() <= usize::MAX,
    {
        let len = self.input.len();
        if pos > len {
            len
        } else {
            pos
        }
    }

    /// Moves the cursor one character left, staying at the start if it is
    /// there already.
    pub fn move_cursor_left(&mut self)
        ensures
            final(self).wf(),
            final(self).text() == old(self).text(),
            final(self).cursor() == clamp_to(
                if old(self).cursor() == 0 {
                    0
                } else {
                    old(self).cursor() - 1
                },
                old(self).text().len() as int,
            ),
    {
        let moved = self.cursor_position.saturating_sub(1);
        self.cursor_position = self.clamp_cursor(moved);
    }

    /// Moves the cursor one character right, staying at the end if it is
    /// there already.
    pub fn move_cursor_right(&mut self)
        ensures
            final(self).wf(),
            final(self).text() == old(self).text(),
            final(self).cursor() == clamp_to(
                old(self).cursor() + 1int,
                old(self).text().len() as int,
            ),
    {
        let moved = self.cursor_position.saturating_add(1);
        self.cursor_position = self.clamp_cursor(moved);
    }

    /// Inserts `new_char` at the cursor and moves the cursor past it.
    pub fn enter_char(&mut self, new_char: char)
        requires
            old(self).wf(),
            old(self).text().len() < usize::MAX,
        ensures
            final(self).wf(),
            final(self).text() == old(self).text().insert(old(self).cursor() as int, new_char),
            final(self).cursor() == old(self).cursor() + 1,
    {
        self.input.insert(self.cursor_position, new_char);
        self.move_cursor_right();
    }

    /// Deletes the character before the cursor, if there is one, and moves
    /// the cursor back over it.
    pub fn delete_char(&mut self)
        requires
            old(self).wf(),
        ensures
            final(self).wf(),
            old(self).cursor() == 0 ==> final(self).text() == old(self).text()
                && final(self).cursor() == 0,
            old(self).cursor() > 0 ==> final(self).text() == old(self).text().remove(
                old(self).cursor() - 1,
            ) && final(self).cursor() == old(self).cursor() - 1,
    {
        if self.cursor_position != 0 {
            let current_index = self.cursor_position;
            self.input.remove(current_index - 1);
            self.move_cursor_left();
        }
    }
}

} // verus!
