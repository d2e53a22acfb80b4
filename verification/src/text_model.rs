use vstd::prelude::*;

verus! {

/// Relies on `String::push`: appends one character at the end of the string.
pub assume_specification[ String::push ](s: &mut String, ch: char)
    ensures
        final(s)@ == old(s)@.push(ch),
;

/// A single editable line of text with a character-index cursor.
///
/// The cursor counts characters, not bytes, so a multi-byte character is one
/// cursor unit. The invariant `0 <= cursor <= buffer length` holds after
/// every operation; deletion and navigation clamp at the boundaries.
pub struct TextModel {
    chars: Vec<char>,
    pos: usize,
}

impl TextModel {
    /// The buffered characters, in order.
    pub closed spec fn buffer(self) -> Seq<char> {
        self.chars@
    }

    /// The cursor index into `buffer()`.
    pub closed spec fn cursor(self) -> int {
        self.pos as int
    }

    /// The cursor is a valid insertion point into the buffer.
    pub open spec fn wf(self) -> bool {
        0 <= self.cursor() <= self.buffer().len()
    }

    /// A fresh, empty editor line.
    pub fn new() -> (m: TextModel)
        ensures
            m.wf(),
            m.buffer() == Seq::<char>::empty(),
            m.cursor() == 0,
    {
        TextModel { chars: Vec::new(), pos: 0 }
    }

    /// The number of buffered characters.
    pub fn len(&self) -> (n: usize)
        ensures
            n == self.buffer().len(),
    {
        self.chars.len()
    }

    /// The cursor position as a plain index.
    pub fn cursor_position(&self) -> (p: usize)
        ensures
            p == self.cursor(),
    {
        self.pos
    }

    /// Inserts `c` at the cursor and advances the cursor past it.
    pub fn insert(&mut self, c: char)
        requires
            old(self).wf(),
            old(self).buffer().len() < usize::MAX,
        ensures
            final(self).wf(),
            final(self).buffer() == old(self).buffer().insert(old(self).cursor(), c),
            final(self).cursor() == old(self).cursor() + 1,
    {
        self.chars.insert(self.pos, c);
        self.pos = self.pos + 1;
    }

    /// Removes the character just before the cursor and steps the cursor
    /// back, or does nothing when the cursor is already at the start.
    pub fn delete_before_cursor(&mut self)
        requires
            old(self).wf(),
        ensures
            final(self).wf(),
            old(self).cursor() == 0 ==> final(self).buffer() == old(self).buffer()
                && final(self).cursor() == 0,
            old(self).cursor() > 0 ==> final(self).buffer() == old(self).buffer().remove(
                old(self).cursor() - 1,
            ) && final(self).cursor() == old(self).cursor() - 1,
    {
        if self.pos > 0 {
            self.chars.remove(self.pos - 1);
            self.pos = self.pos - 1;
        }
    }

    /// Moves the cursor one character to the left, stopping at the start.
    pub fn move_left(&mut self)
        requires
            old(self).wf(),
        ensures
            final(self).wf(),
            final(self).buffer() == old(self).buffer(),
            final(self).cursor() == if old(self).cursor() == 0 {
                0int
            } else {
                old(self).cursor() - 1
            },
    {
        if self.pos > 0 {
            self.pos = self.pos - 1;
        }
    }

    /// Moves the cursor one character to the right, stopping at the end.
    pub fn move_right(&mut self)
        requires
            old(self).wf(),
        ensures
            final(self).wf(),
            final(self).buffer() == old(self).buffer(),
            final(self).cursor() == if old(self).cursor() < old(self).buffer().len() {
                old(self).cursor() + 1
            } else {
                old(self).cursor()
            },
    {
        if self.pos < self.chars.len() {
            self.pos = self.pos + 1;
        }
    }

    /// The buffered text as a string, cursor and buffer untouched.
    pub fn content(&self) -> (s: String)
        ensures
            s@ == self.buffer(),
    {
        let mut s = String::new();
        let mut i: usize = 0;
        while i < self.chars.len()
            invariant
                i <= self.chars.len(),
                s@ == self.chars@.subrange(0, i as int),
            decreases self.chars.len() - i,
        {
            s.push(self.chars[i]);
            assert(self.chars@.subrange(0, i as int).push(self.chars@[i as int])
                =~= self.chars@.subrange(0, i + 1 as int));
            i = i + 1;
        }
        assert(self.chars@.subrange(0, self.chars@.len() as int) =~= self.chars@);
        s
    }

    /// Returns the whole buffered text and resets the line to empty with the
    /// cursor at the start. Used by the submit action.
    pub fn take_and_clear(&mut self) -> (s: String)
        requires
            old(self).wf(),
        ensures
            final(self).wf(),
            s@ == old(self).buffer(),
            final(self).buffer() == Seq::<char>::empty(),
            final(self).cursor() == 0,
    {
        let s = self.content();
        self.chars.clear();
        self.pos = 0;
        assert(self.chars@ =~= Seq::<char>::empty());
        s
    }
}

/// Law: inserting a character at the cursor and then deleting before the
/// advanced cursor restores the buffer and the cursor to their pre-insert
/// values. `insert` leaves the cursor at `cursor + 1`, so the following
/// `delete_before_cursor` removes index `cursor` and steps back to `cursor`.
pub proof fn lemma_insert_then_delete_restores(buffer: Seq<char>, cursor: int, c: char)
    requires
        0 <= cursor <= buffer.len(),
    ensures
        buffer.insert(cursor, c).remove((cursor + 1) - 1) == buffer,
        (cursor + 1) - 1 == cursor,
{
    assert(buffer.insert(cursor, c).remove(cursor) =~= buffer);
}

/// The buffer that results from inserting the characters of `cs`, in order,
/// into an empty editor line: each step inserts at the cursor, which `insert`
/// leaves one past the new character, so the k-th character lands at index k.
pub open spec fn buffer_after_inserts(cs: Seq<char>) -> Seq<char>
    decreases cs.len(),
{
    if cs.len() == 0 {
        Seq::<char>::empty()
    } else {
        buffer_after_inserts(cs.drop_last()).insert(cs.len() - 1, cs.last())
    }
}

/// Law: after inserting N characters into an empty editor line with no
/// intervening cursor moves, the buffer is exactly their concatenation in
/// order; `take_and_clear` then returns that concatenation and leaves the
/// buffer empty with the cursor at 0.
pub proof fn lemma_inserts_build_concatenation(cs: Seq<char>)
    ensures
        buffer_after_inserts(cs) == cs,
    decreases cs.len(),
{
    if cs.len() == 0 {
        assert(buffer_after_inserts(cs) =~= cs);
    } else {
        lemma_inserts_build_concatenation(cs.drop_last());
        assert(buffer_after_inserts(cs) =~= cs);
    }
}

} // verus!
