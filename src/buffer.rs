use vstd::prelude::*;
use crate::dictionary::WORD_LENGTH;

verus! {

/// Number of guesses a player has in one game.
pub const MAX_ROWS: usize = 6;

/// The row being typed: its index on the grid, the column of the next
/// letter, and the letter (or none yet) of each of its cells.
pub struct GuessBuffer {
    row: usize,
    column: usize,
    letters: Vec<Option<char>>,
}

/// What a `GuessBuffer` holds, as mathematical values.
pub struct BufferView {
    pub row: nat,
    pub column: nat,
    pub letters: Seq<Option<char>>,
}

/// A row whose cells are all empty.
pub open spec fn blank_cells() -> Seq<Option<char>> {
    Seq::new(WORD_LENGTH as nat, |i: int| None)
}

impl BufferView {
    /// The cells are exactly the first `column` ones filled, and the row lies
    /// on the grid.
    pub open spec fn wf(self) -> bool {
        &&& self.letters.len() == WORD_LENGTH
        &&& self.column <= WORD_LENGTH
        &&& self.row <= MAX_ROWS
        &&& forall|i: int| 0 <= i < WORD_LENGTH ==> (#[trigger] self.letters[i] is Some <==> i < self.column)
    }

    /// The row after typing `c`: written in the next cell, unless the row is full.
    pub open spec fn typed(self, c: char) -> BufferView {
        if self.column < WORD_LENGTH {
            BufferView {
                row: self.row,
                column: self.column + 1,
                letters: self.letters.update(self.column as int, Some(c)),
            }
        } else {
            self
        }
    }

    /// The row after a deletion: the last filled cell emptied, unless none is.
    pub open spec fn deleted(self) -> BufferView {
        if self.column > 0 {
            BufferView {
                row: self.row,
                column: (self.column - 1) as nat,
                letters: self.letters.update(self.column - 1, None),
            }
        } else {
            self
        }
    }

    /// The letters typed so far, in order.
    pub open spec fn word(self) -> Seq<char> {
        Seq::new(self.column, |i: int| self.letters[i]->0)
    }

    /// An empty row at index `row`.
    pub open spec fn empty_at(row: nat) -> BufferView {
        BufferView { row, column: 0, letters: blank_cells() }
    }
}

impl View for GuessBuffer {
    type V = BufferView;

    closed spec fn view(&self) -> BufferView {
        BufferView { row: self.row as nat, column: self.column as nat, letters: self.letters@ }
    }
}

/// Typing a letter and deleting it at once gives back the row as it was,
/// whenever the row had room for the letter.
pub proof fn lemma_type_then_delete(b: BufferView, c: char)
    requires
        b.wf(),
        b.column < WORD_LENGTH,
    ensures
        b.typed(c).wf(),
        b.typed(c).deleted() == b,
{
    let t = b.typed(c);
    assert forall|i: int| 0 <= i < WORD_LENGTH implies (#[trigger] t.letters[i] is Some <==> i < t.column) by {
        if i != b.column {
            assert(t.letters[i] == b.letters[i]);
        }
    }
    assert(b.letters[b.column as int] is None);
    assert(t.deleted().letters =~= b.letters);
}

impl GuessBuffer {
    /// The buffer's invariant.
    pub open spec fn wf(&self) -> bool {
        self@.wf()
    }

    /// An empty row at index `row`.
    pub fn empty_at(row: usize) -> (r: GuessBuffer)
        requires
            row <= MAX_ROWS,
        ensures
            r.wf(),
            r@ == BufferView::empty_at(row as nat),
    {
        let mut letters: Vec<Option<char>> = Vec::new();
        let mut i: usize = 0;
        while i < WORD_LENGTH
            invariant
                0 <= i <= WORD_LENGTH,
                letters@ =~= Seq::new(i as nat, |j: int| None::<char>),
            decreases WORD_LENGTH - i,
        {
            letters.push(None);
            i += 1;
        }
        GuessBuffer { row, column: 0, letters }
    }

    /// Index of the row on the grid.
    pub fn row(&self) -> (r: usize)
        ensures
            r == self@.row,
    {
        self.row
    }

    /// Column of the next letter, which is also the number of letters typed.
    pub fn column(&self) -> (r: usize)
        ensures
            r == self@.column,
    {
        self.column
    }

    /// The letter in cell `i`, if one was typed there.
    pub fn letter(&self, i: usize) -> (r: Option<char>)
        requires
            self.wf(),
            i < WORD_LENGTH,
        ensures
            r == self@.letters[i as int],
    {
        self.letters[i]
    }

    /// Whether every cell of the row holds a letter.
    pub fn is_full(&self) -> (r: bool)
        requires
            self.wf(),
        ensures
            r == (self@.column == WORD_LENGTH),
    {
        self.column == WORD_LENGTH
    }

    /// Writes `c` in the next cell; does nothing when the row is full.
    pub fn type_letter(&mut self, c: char)
        requires
            old(self).wf(),
        ensures
            final(self).wf(),
            final(self)@ == old(self)@.typed(c),
    {
        if self.column < WORD_LENGTH {
            let ghost before = self@;
            let col = self.column;
            self.letters.set(col, Some(c));
            self.column = col + 1;
            proof {
                assert forall|i: int| 0 <= i < WORD_LENGTH implies (#[trigger] self@.letters[i] is Some <==> i
                    < self@.column) by {
                    if i != col {
                        assert(self@.letters[i] == before.letters[i]);
                    }
                }
            }
        }
    }

    /// Empties the last filled cell; does nothing when the row is empty.
    pub fn delete_letter(&mut self)
        requires
            old(self).wf(),
        ensures
            final(self).wf(),
            final(self)@ == old(self)@.deleted(),
    {
        if self.column > 0 {
            let ghost before = self@;
            let col = self.column - 1;
            self.letters.set(col, None);
            self.column = col;
            proof {
                assert forall|i: int| 0 <= i < WORD_LENGTH implies (#[trigger] self@.letters[i] is Some <==> i
                    < self@.column) by {
                    if i != col {
                        assert(self@.letters[i] == before.letters[i]);
                    }
                }
            }
        }
    }

    /// The letters typed so far, in order.
    pub fn current_word(&self) -> (r: Vec<char>)
        requires
            self.wf(),
        ensures
            r@ == self@.word(),
    {
        let mut r: Vec<char> = Vec::new();
        let mut i: usize = 0;
        while i < self.column
            invariant
                self.wf(),
                0 <= i <= self@.column,
                r@ =~= Seq::new(i as nat, |j: int| self@.letters[j]->0),
            decreases self@.column - i,
        {
            assert(self@.letters[i as int] is Some);
            match self.letters[i] {
                Some(c) => r.push(c),
                None => {},
            }
            i += 1;
        }
        r
    }
}

} // verus!
