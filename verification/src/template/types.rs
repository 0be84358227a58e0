//! Template values: the rendered MML draft with the position where the
//! editor cursor should be placed, and the body accumulator the builders
//! use to assemble the draft body part by part.

use vstd::prelude::*;

use crate::text::{count_nl, extend_chars, extend_str, join, last_line_len, lemma_join_push, string_of};

verus! {

/// A position in a template: `row` is the line number (the first line is
/// 1), `col` the number of characters before the cursor on that line.
/// A locked cursor is not moved by [`TemplateBody::flush`].
#[derive(Clone, Copy, Debug, PartialEq, Eq)]
pub struct TemplateCursor {
    pub row: usize,
    pub col: usize,
    pub locked: bool,
}

impl TemplateCursor {
    /// An unlocked cursor at the given position.
    pub fn new(row: usize, col: usize) -> (r: Self)
        ensures
            r.row == row,
            r.col == col,
            !r.locked,
    {
        TemplateCursor { row, col, locked: false }
    }

    /// Freezes the cursor at its current position.
    pub fn lock(&mut self)
        ensures
            final(self).row == old(self).row,
            final(self).col == old(self).col,
            final(self).locked,
    {
        self.locked = true;
    }
}

/// A draft message in MML form, with the cursor position.
#[derive(Clone, Debug, PartialEq, Eq)]
pub struct Template {
    pub content: String,
    pub cursor: TemplateCursor,
}

impl Template {
    /// A template with the given content and an unlocked cursor at
    /// `(row, col)`.
    pub fn new_with_cursor(content: String, cursor: (usize, usize)) -> (r: Self)
        ensures
            r.content@ == content@,
            r.cursor.row == cursor.0,
            r.cursor.col == cursor.1,
            !r.cursor.locked,
    {
        Template { content, cursor: TemplateCursor::new(cursor.0, cursor.1) }
    }
}

/// The separator between two flushed parts of a body: one empty line.
pub open spec fn part_sep() -> Seq<char> {
    seq!['\n', '\n']
}

/// Row reached after flushing the `parts`, one after the other, from a
/// cursor on row `row`: each part starts two rows below the end of the
/// previous one (one empty line in between).
pub open spec fn rows_after(row: int, parts: Seq<Seq<char>>) -> int
    decreases parts.len(),
{
    if parts.len() == 0 {
        row
    } else {
        rows_after(row, parts.drop_last()) + 2 + count_nl(parts.last())
    }
}

/// Accumulates a body part by part: text is pushed into a buffer, and
/// [`TemplateBody::flush`] turns the buffer into the next part. The parts
/// are separated by an empty line. Unless it is locked, the cursor
/// follows the end of the last flushed part.
pub struct TemplateBody {
    pub buffer: Vec<char>,
    pub parts: Vec<Vec<char>>,
    pub cursor: TemplateCursor,
}

impl TemplateBody {
    /// The flushed parts.
    pub open spec fn parts(&self) -> Seq<Seq<char>> {
        self.parts@.map_values(|p: Vec<char>| p@)
    }

    /// The text pushed since the last flush.
    pub open spec fn buffer(&self) -> Seq<char> {
        self.buffer@
    }

    /// The body text: the flushed parts separated by an empty line.
    pub open spec fn body_text(&self) -> Seq<char> {
        join(self.parts(), part_sep())
    }

    /// An empty body whose cursor starts at `cursor`.
    pub fn new(cursor: TemplateCursor) -> (r: Self)
        ensures
            r.parts() == Seq::<Seq<char>>::empty(),
            r.buffer() == Seq::<char>::empty(),
            r.cursor == cursor,
    {
        let r = TemplateBody { buffer: Vec::new(), parts: Vec::new(), cursor };
        assert(r.parts() =~= Seq::<Seq<char>>::empty());
        r
    }

    /// Appends `s` to the buffer.
    pub fn push_str(&mut self, s: &str)
        ensures
            final(self).buffer() == old(self).buffer() + s@,
            final(self).parts() == old(self).parts(),
            final(self).cursor == old(self).cursor,
    {
        extend_str(&mut self.buffer, s);
    }

    /// Appends the characters of `s` to the buffer.
    pub fn push_chars(&mut self, s: &[char])
        ensures
            final(self).buffer() == old(self).buffer() + s@,
            final(self).parts() == old(self).parts(),
            final(self).cursor == old(self).cursor,
    {
        extend_chars(&mut self.buffer, s);
    }

    /// Appends `c` to the buffer.
    pub fn push(&mut self, c: char)
        ensures
            final(self).buffer() == old(self).buffer().push(c),
            final(self).parts() == old(self).parts(),
            final(self).cursor == old(self).cursor,
    {
        self.buffer.push(c);
    }

    /// Removes the last character of the buffer and returns it.
    pub fn pop(&mut self) -> (r: Option<char>)
        ensures
            old(self).buffer().len() > 0 ==> r == Some(old(self).buffer().last())
                && final(self).buffer() == old(self).buffer().drop_last(),
            old(self).buffer().len() == 0 ==> r is None && final(self).buffer() == old(
                self,
            ).buffer(),
            final(self).parts() == old(self).parts(),
            final(self).cursor == old(self).cursor,
    {
        self.buffer.pop()
    }

    /// Turns the buffer into the next part and empties it. An unlocked
    /// cursor moves to the end of that part.
    pub fn flush(&mut self)
        requires
            !old(self).cursor.locked ==> old(self).cursor.row + 2 + old(self).buffer().len()
                <= usize::MAX,
        ensures
            final(self).parts() == old(self).parts().push(old(self).buffer()),
            final(self).buffer() == Seq::<char>::empty(),
            final(self).cursor.locked == old(self).cursor.locked,
            old(self).cursor.locked ==> final(self).cursor == old(self).cursor,
            !old(self).cursor.locked ==> final(self).cursor.row == old(self).cursor.row + 2
                + count_nl(old(self).buffer()) && final(self).cursor.col == last_line_len(
                old(self).buffer(),
            ),
    {
        let mut part: Vec<char> = Vec::new();
        std::mem::swap(&mut part, &mut self.buffer);
        if !self.cursor.locked {
            let nl = crate::text::count_newlines(&part);
            let col = crate::text::last_line_length(&part);
            proof {
                crate::text::lemma_count_nl_le(part@);
            }
            self.cursor.row = self.cursor.row + 2 + nl;
            self.cursor.col = col;
        }
        self.parts.push(part);
        assert(self.parts() =~= old(self).parts().push(old(self).buffer()));
    }

    /// The body text: the flushed parts separated by an empty line.
    pub fn text_chars(&self) -> (r: Vec<char>)
        ensures
            r@ == self.body_text(),
    {
        let mut r: Vec<char> = Vec::new();
        let n = self.parts.len();
        for i in 0..n
            invariant
                n == self.parts@.len(),
                r@ == join(self.parts().take(i as int), part_sep()),
        {
            proof {
                lemma_join_push(self.parts().take(i as int), part_sep(), self.parts()[i as int]);
                assert(self.parts().take(i + 1) =~= self.parts().take(i as int).push(
                    self.parts()[i as int],
                ));
            }
            if i > 0 {
                r.push('\n');
                r.push('\n');
            }
            extend_chars(&mut r, &self.parts[i]);
            assert(r@ =~= join(self.parts().take(i + 1), part_sep()));
        }
        assert(self.parts().take(n as int) =~= self.parts());
        r
    }

    /// The body text as a `String`.
    pub fn to_text(&self) -> (r: String)
        ensures
            r@ == self.body_text(),
    {
        let v = self.text_chars();
        string_of(&v)
    }
}

} // verus!
