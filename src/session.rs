use vstd::prelude::*;
use rand::Rng;
use crate::buffer::{BufferView, GuessBuffer, MAX_ROWS};
use crate::dictionary::{copy_word, CustomAsset, WORD_LENGTH};
use crate::scoring::{
    alphabet, key_status_spec, key_statuses, score_guess, score_spec, CellResult, KeyStatus,
};

verus! {

/// The stage a game is in.
#[derive(PartialEq, Eq, Structural, Clone, Copy, Debug)]
pub enum Phase {
    /// Waiting for a word list and a call to start a game.
    Initializing,
    /// The player types the current row.
    Playing,
    /// A guess was just submitted and awaits its verdict.
    Scoring,
    /// The last guess was the secret word.
    Won,
    /// Every row was used without finding the secret word.
    Lost,
}

/// Why an operation of a session was refused. A refused operation leaves the
/// session as it was.
#[derive(PartialEq, Eq, Structural, Clone, Copy, Debug)]
pub enum SessionError {
    /// The word list is empty, so no game can start.
    NotReady,
    /// The operation is not allowed in the current phase.
    IllegalPhaseOperation,
    /// The row does not hold a letter in every cell yet.
    IncompleteRow,
    /// The word of the row is not in the word list.
    WordNotInDictionary,
}

/// An input of the player, as the presentation layer reports it.
#[derive(PartialEq, Eq, Structural, Clone, Copy, Debug)]
pub enum Event {
    /// A letter key.
    Letter(char),
    /// The key that erases the last letter.
    Delete,
    /// The key that submits the row.
    Submit,
    /// The player acknowledges the end of a game.
    AcceptResult,
}

/// The key label that submits a row on the on-screen keyboard.
pub const SUBMIT_LABEL: char = '\u{23ce}';

/// The key label that erases a letter on the on-screen keyboard.
pub const DELETE_LABEL: char = '\u{2190}';

/// The event of the key labelled `c`: the submit and delete labels (or a
/// line feed, carriage return, backspace or delete character), and the
/// letters, capitals taken as small letters. Other keys give no event.
pub open spec fn key_event_spec(c: char) -> Option<Event> {
    if c == SUBMIT_LABEL || c == '\n' || c == '\r' {
        Some(Event::Submit)
    } else if c == DELETE_LABEL || c == '\u{8}' || c == '\u{7f}' {
        Some(Event::Delete)
    } else if 'a' <= c && c <= 'z' {
        Some(Event::Letter(c))
    } else if 'A' <= c && c <= 'Z' {
        Some(Event::Letter((((c as u8) + 32) as u8) as char))
    } else {
        None
    }
}

impl Event {
    /// The event of the key labelled `c`, if the key has one.
    pub fn from_key_label(c: char) -> (r: Option<Event>)
        ensures
            r == key_event_spec(c),
    {
        if c == SUBMIT_LABEL || c == '\n' || c == '\r' {
            Some(Event::Submit)
        } else if c == DELETE_LABEL || c == '\u{8}' || c == '\u{7f}' {
            Some(Event::Delete)
        } else if 'a' <= c && c <= 'z' {
            Some(Event::Letter(c))
        } else if 'A' <= c && c <= 'Z' {
            Some(Event::Letter(((c as u8) + 32) as char))
        } else {
            None
        }
    }
}

/// One row of the grid as the player sees it.
pub struct RowSnapshot {
    /// The letter of each cell, if any.
    pub letters: Vec<Option<char>>,
    /// The result of each cell, once the row is a submitted guess.
    pub results: Option<Vec<CellResult>>,
}

/// Everything the presentation layer draws: phase, grid, keyboard and streak.
pub struct Snapshot {
    pub phase: Phase,
    /// The rows of the grid, from the first.
    pub rows: Vec<RowSnapshot>,
    /// The status of each letter key, from `a` to `z`.
    pub keys: Vec<KeyStatus>,
    pub wins: u32,
}

/// What a session holds, as mathematical values.
pub struct SessionView {
    pub dictionary: Seq<Seq<char>>,
    pub secret: Seq<char>,
    pub guesses: Seq<Seq<char>>,
    pub buffer: BufferView,
    pub wins: nat,
    pub phase: Phase,
}

/// Largest win streak a session counts to; further wins leave it there.
pub const MAX_WINS: u32 = 0xffff_ffff;

impl SessionView {
    /// The invariant of a session.
    pub open spec fn wf(self) -> bool {
        &&& self.buffer.wf()
        &&& self.buffer.row == self.guesses.len()
        &&& self.guesses.len() <= MAX_ROWS
        &&& self.wins <= MAX_WINS
        &&& forall|g: int| 0 <= g < self.guesses.len() ==> (#[trigger] self.guesses[g]).len() == WORD_LENGTH
        &&& forall|g: int| 0 <= g < self.guesses.len() ==> self.dictionary.contains(#[trigger] self.guesses[g])
        &&& self.phase != Phase::Initializing ==> self.dictionary.contains(self.secret)
        &&& self.phase == Phase::Initializing ==> self.guesses.len() == 0
        &&& self.phase == Phase::Playing ==> self.guesses.len() < MAX_ROWS
        &&& self.phase != Phase::Playing ==> self.buffer == BufferView::empty_at(self.guesses.len())
        &&& self.phase == Phase::Scoring ==> self.guesses.len() > 0
        &&& self.phase == Phase::Won ==> self.guesses.len() > 0 && self.guesses.last() == self.secret
        &&& self.phase == Phase::Lost ==> self.guesses.len() == MAX_ROWS && self.guesses.last() != self.secret
    }

    /// The session after a game starts with the word at `index` (taken
    /// modulo the number of words) as its secret.
    pub open spec fn started(self, index: nat) -> SessionView {
        SessionView {
            secret: self.dictionary[(index % self.dictionary.len()) as int],
            guesses: Seq::empty(),
            buffer: BufferView::empty_at(0),
            phase: Phase::Playing,
            ..self
        }
    }

    /// Why starting a game is refused, if it is.
    pub open spec fn start_error(self) -> Option<SessionError> {
        if self.phase != Phase::Initializing {
            Some(SessionError::IllegalPhaseOperation)
        } else if self.dictionary.len() == 0 {
            Some(SessionError::NotReady)
        } else {
            None
        }
    }

    /// The session after an attempt to start a game.
    pub open spec fn after_start(self, index: nat) -> SessionView {
        if self.start_error() is None {
            self.started(index)
        } else {
            self
        }
    }

    /// The session after the letter `c` is typed: only while playing.
    pub open spec fn with_letter(self, c: char) -> SessionView {
        if self.phase == Phase::Playing {
            SessionView { buffer: self.buffer.typed(c), ..self }
        } else {
            self
        }
    }

    /// The session after a deletion: only while playing.
    pub open spec fn with_deletion(self) -> SessionView {
        if self.phase == Phase::Playing {
            SessionView { buffer: self.buffer.deleted(), ..self }
        } else {
            self
        }
    }

    /// Why submitting the row is refused, if it is.
    pub open spec fn submit_error(self) -> Option<SessionError> {
        if self.phase != Phase::Playing {
            Some(SessionError::IllegalPhaseOperation)
        } else if self.buffer.column < WORD_LENGTH {
            Some(SessionError::IncompleteRow)
        } else if !self.dictionary.contains(self.buffer.word()) {
            Some(SessionError::WordNotInDictionary)
        } else {
            None
        }
    }

    /// The session after the row is accepted as a guess.
    pub open spec fn submitted(self) -> SessionView {
        SessionView {
            guesses: self.guesses.push(self.buffer.word()),
            buffer: BufferView::empty_at(self.buffer.row + 1),
            phase: Phase::Scoring,
            ..self
        }
    }

    /// The session after an attempt to submit the row: unchanged when the
    /// submission is refused.
    pub open spec fn after_submit(self) -> SessionView {
        if self.submit_error() is None {
            self.submitted()
        } else {
            self
        }
    }

    /// The session after the event `e`.
    pub open spec fn after_event(self, e: Event) -> SessionView {
        match e {
            Event::Letter(c) => self.with_letter(c),
            Event::Delete => self.with_deletion(),
            Event::Submit => self.after_submit(),
            Event::AcceptResult => self.accepted(),
        }
    }

    /// What handling the event `e` reports: only a submission can be refused.
    pub open spec fn event_outcome(self, e: Event) -> Result<(), SessionError> {
        match e {
            Event::Submit => outcome(self.submit_error()),
            _ => Ok(()),
        }
    }

    /// The letters shown on row `r` of the grid: a submitted guess, the row
    /// being typed, or an empty row below it.
    pub open spec fn row_letters(self, r: int) -> Seq<Option<char>> {
        if r < self.guesses.len() {
            self.guesses[r].map_values(|c: char| Some(c))
        } else if r == self.guesses.len() {
            self.buffer.letters
        } else {
            crate::buffer::blank_cells()
        }
    }

    /// The status of the key for the `i`-th letter of the alphabet.
    pub open spec fn key_at(self, i: int) -> KeyStatus {
        key_status_spec(self.secret, self.guesses, alphabet()[i])
    }

    /// The session after the last guess is judged: won if it is the secret,
    /// lost if no row is left, else back to playing. Only while scoring.
    pub open spec fn scored(self) -> SessionView {
        if self.phase == Phase::Scoring {
            if self.guesses.last() == self.secret {
                SessionView { phase: Phase::Won, ..self }
            } else if self.guesses.len() >= MAX_ROWS {
                SessionView { phase: Phase::Lost, ..self }
            } else {
                SessionView { phase: Phase::Playing, ..self }
            }
        } else {
            self
        }
    }

    /// The session after the player acknowledges the end of a game: the
    /// streak grows after a win and falls to zero after a loss, and the
    /// grid is cleared for a new game. Only once a game is won or lost.
    pub open spec fn accepted(self) -> SessionView {
        if self.phase == Phase::Won || self.phase == Phase::Lost {
            SessionView {
                wins: if self.phase == Phase::Lost {
                    0
                } else if self.wins < MAX_WINS {
                    self.wins + 1
                } else {
                    self.wins
                },
                guesses: Seq::empty(),
                buffer: BufferView::empty_at(0),
                phase: Phase::Initializing,
                ..self
            }
        } else {
            self
        }
    }
}

/// The result of an operation that is refused with `e`, if `e` is given.
pub open spec fn outcome(e: Option<SessionError>) -> Result<(), SessionError> {
    match e {
        Some(e) => Err(e),
        None => Ok(()),
    }
}

/// One game of guessing a secret word, and the streak of games won in a row.
pub struct GameSession {
    dictionary: CustomAsset,
    secret: Vec<char>,
    guesses: Vec<Vec<char>>,
    buffer: GuessBuffer,
    wins: u32,
    phase: Phase,
}

impl View for GameSession {
    type V = SessionView;

    closed spec fn view(&self) -> SessionView {
        SessionView {
            dictionary: self.dictionary@,
            secret: self.secret@,
            guesses: self.guesses@.map_values(|g: Vec<char>| g@),
            buffer: self.buffer@,
            wins: self.wins as nat,
            phase: self.phase,
        }
    }
}

/// Relies on rand::Rng::gen_range of rand's thread-local generator: a value
/// in `[0, n)`, which panics only when `n` is zero.
#[verifier::external_body]
fn random_index(n: usize) -> (r: usize)
    requires
        n > 0,
    ensures
        r < n,
{
    rand::thread_rng().gen_range(0, n)
}

impl GameSession {
    /// The session's invariant.
    pub open spec fn wf(&self) -> bool {
        self@.wf()
    }

    /// A session waiting to start its first game with the words of `dictionary`.
    pub fn new(dictionary: CustomAsset) -> (r: GameSession)
        ensures
            r.wf(),
            r@.dictionary == dictionary@,
            r@.guesses.len() == 0,
            r@.buffer == BufferView::empty_at(0),
            r@.wins == 0,
            r@.phase == Phase::Initializing,
    {
        GameSession {
            dictionary,
            secret: Vec::new(),
            guesses: Vec::new(),
            buffer: GuessBuffer::empty_at(0),
            wins: 0,
            phase: Phase::Initializing,
        }
    }

    /// Replaces the word list; only while no game is under way.
    pub fn load_dictionary(&mut self, dictionary: CustomAsset) -> (r: Result<(), SessionError>)
        requires
            old(self).wf(),
        ensures
            final(self).wf(),
            old(self)@.phase == Phase::Initializing ==> r == Ok::<(), SessionError>(()) && final(self)@
                == (SessionView { dictionary: dictionary@, ..old(self)@ }),
            old(self)@.phase != Phase::Initializing ==> r == Err::<(), SessionError>(
                SessionError::IllegalPhaseOperation,
            ) && final(self)@ == old(self)@,
    {
        if self.phase != Phase::Initializing {
            return Err(SessionError::IllegalPhaseOperation);
        }
        self.dictionary = dictionary;
        Ok(())
    }

    /// Starts a game whose secret is the word at `index` of the word list,
    /// taken modulo the number of words.
    pub fn start_at(&mut self, index: usize) -> (r: Result<(), SessionError>)
        requires
            old(self).wf(),
        ensures
            final(self).wf(),
            r == outcome(old(self)@.start_error()),
            final(self)@ == old(self)@.after_start(index as nat),
    {
        if self.phase != Phase::Initializing {
            return Err(SessionError::IllegalPhaseOperation);
        }
        let n = self.dictionary.len();
        if n == 0 {
            return Err(SessionError::NotReady);
        }
        let i = index % n;
        self.secret = self.dictionary.word(i);
        self.guesses = Vec::new();
        self.buffer = GuessBuffer::empty_at(0);
        self.phase = Phase::Playing;
        proof {
            assert(self@.guesses =~= Seq::<Seq<char>>::empty());
            assert(self@.dictionary.contains(self@.secret));
        }
        Ok(())
    }

    /// Starts a game with a secret drawn at random from the word list.
    pub fn start(&mut self) -> (r: Result<(), SessionError>)
        requires
            old(self).wf(),
        ensures
            final(self).wf(),
            r == outcome(old(self)@.start_error()),
            r is Err ==> final(self)@ == old(self)@,
            r is Ok ==> (exists|i: nat| i < old(self)@.dictionary.len() && final(self)@ == old(self)@.started(i)),
    {
        if self.phase != Phase::Initializing {
            return Err(SessionError::IllegalPhaseOperation);
        }
        let n = self.dictionary.len();
        if n == 0 {
            return Err(SessionError::NotReady);
        }
        let i = random_index(n);
        let r = self.start_at(i);
        assert(final(self)@ == old(self)@.started(i as nat));
        r
    }

    /// Types `c` in the next cell of the row; ignored unless playing with
    /// room left in the row.
    pub fn handle_letter(&mut self, c: char)
        requires
            old(self).wf(),
        ensures
            final(self).wf(),
            final(self)@ == old(self)@.with_letter(c),
    {
        if self.phase == Phase::Playing {
            self.buffer.type_letter(c);
        }
    }

    /// Clears the last typed cell of the row; ignored unless playing with a
    /// letter in the row.
    pub fn handle_delete(&mut self)
        requires
            old(self).wf(),
        ensures
            final(self).wf(),
            final(self)@ == old(self)@.with_deletion(),
    {
        if self.phase == Phase::Playing {
            self.buffer.delete_letter();
        }
    }

    /// Submits the row as a guess. A full row whose word is in the word
    /// list is added to the guesses and the game goes to scoring; any other
    /// submission leaves the session, row included, as it was.
    pub fn submit(&mut self) -> (r: Result<(), SessionError>)
        requires
            old(self).wf(),
        ensures
            final(self).wf(),
            r == outcome(old(self)@.submit_error()),
            final(self)@ == old(self)@.after_submit(),
    {
        if self.phase != Phase::Playing {
            return Err(SessionError::IllegalPhaseOperation);
        }
        if !self.buffer.is_full() {
            return Err(SessionError::IncompleteRow);
        }
        let word = self.buffer.current_word();
        if !self.dictionary.contains(&word) {
            return Err(SessionError::WordNotInDictionary);
        }
        let ghost before = self@;
        let row = self.buffer.row();
        self.guesses.push(word);
        self.buffer = GuessBuffer::empty_at(row + 1);
        self.phase = Phase::Scoring;
        proof {
            assert(self@.guesses =~= before.guesses.push(before.buffer.word()));
            assert forall|g: int| 0 <= g < self@.guesses.len() implies (#[trigger] self@.guesses[g]).len()
                == WORD_LENGTH && self@.dictionary.contains(self@.guesses[g]) by {
                if g < before.guesses.len() {
                    assert(self@.guesses[g] == before.guesses[g]);
                }
            }
        }
        Ok(())
    }

    /// Judges the last guess: the game is won if it is the secret word, lost
    /// if no row is left, and otherwise goes on. Ignored unless scoring.
    pub fn acknowledge_scoring(&mut self)
        requires
            old(self).wf(),
        ensures
            final(self).wf(),
            final(self)@ == old(self)@.scored(),
    {
        if self.phase != Phase::Scoring {
            return;
        }
        let last = self.guesses.len() - 1;
        if crate::dictionary::same_word(&self.guesses[last], &self.secret) {
            self.phase = Phase::Won;
        } else if self.guesses.len() >= MAX_ROWS {
            self.phase = Phase::Lost;
        } else {
            self.phase = Phase::Playing;
        }
    }

    /// Closes a won or lost game: a win adds one to the streak, a loss
    /// resets it, and the session waits for a new game. Ignored otherwise.
    pub fn accept_result(&mut self)
        requires
            old(self).wf(),
        ensures
            final(self).wf(),
            final(self)@ == old(self)@.accepted(),
    {
        if self.phase != Phase::Won && self.phase != Phase::Lost {
            return;
        }
        if self.phase == Phase::Lost {
            self.wins = 0;
        } else if self.wins < MAX_WINS {
            self.wins = self.wins + 1;
        }
        self.guesses = Vec::new();
        self.buffer = GuessBuffer::empty_at(0);
        self.phase = Phase::Initializing;
        assert(self@.guesses =~= Seq::<Seq<char>>::empty());
    }

    /// Applies the player's input `e`. Letters and deletions outside their
    /// phase or beyond the row's ends, and an acknowledgement while a game
    /// runs, are ignored; a refused submission is reported.
    pub fn handle_event(&mut self, e: Event) -> (r: Result<(), SessionError>)
        requires
            old(self).wf(),
        ensures
            final(self).wf(),
            final(self)@ == old(self)@.after_event(e),
            r == old(self)@.event_outcome(e),
    {
        match e {
            Event::Letter(c) => {
                self.handle_letter(c);
                Ok(())
            },
            Event::Delete => {
                self.handle_delete();
                Ok(())
            },
            Event::Submit => self.submit(),
            Event::AcceptResult => {
                self.accept_result();
                Ok(())
            },
        }
    }

    /// The phase of the game.
    pub fn phase(&self) -> (r: Phase)
        ensures
            r == self@.phase,
    {
        self.phase
    }

    /// Index of the row being typed, which is the number of guesses made.
    pub fn row(&self) -> (r: usize)
        ensures
            r == self@.buffer.row,
    {
        self.buffer.row()
    }

    /// Number of letters typed in the current row.
    pub fn column(&self) -> (r: usize)
        ensures
            r == self@.buffer.column,
    {
        self.buffer.column()
    }

    /// Number of games won in a row.
    pub fn wins(&self) -> (r: u32)
        ensures
            r == self@.wins,
    {
        self.wins
    }

    /// The secret word of the current or last game.
    pub fn secret(&self) -> (r: Vec<char>)
        ensures
            r@ == self@.secret,
    {
        copy_word(&self.secret)
    }

    /// The letters typed in the current row.
    pub fn current_word(&self) -> (r: Vec<char>)
        requires
            self.wf(),
        ensures
            r@ == self@.buffer.word(),
    {
        self.buffer.current_word()
    }

    /// The guesses submitted in this game, in order.
    pub fn guesses(&self) -> (r: &Vec<Vec<char>>)
        ensures
            r@.map_values(|g: Vec<char>| g@) == self@.guesses,
    {
        &self.guesses
    }

    /// The word list in use.
    pub fn dictionary(&self) -> (r: &CustomAsset)
        ensures
            r@ == self@.dictionary,
    {
        &self.dictionary
    }

    /// Row `r` of the grid.
    fn row_snapshot(&self, r: usize) -> (s: RowSnapshot)
        requires
            self.wf(),
            r < MAX_ROWS,
        ensures
            s.letters@ == self@.row_letters(r as int),
            s.results is Some <==> r < self@.guesses.len(),
            r < self@.guesses.len() ==> s.results->0@ == score_spec(self@.secret, self@.guesses[r as int]),
    {
        let mut letters: Vec<Option<char>> = Vec::new();
        if r < self.guesses.len() {
            let g = &self.guesses[r];
            assert(g@ == self@.guesses[r as int]);
            let mut i: usize = 0;
            while i < g.len()
                invariant
                    0 <= i <= g@.len(),
                    letters@ =~= Seq::new(i as nat, |j: int| Some(g@[j])),
                decreases g@.len() - i,
            {
                letters.push(Some(g[i]));
                i += 1;
            }
            assert(letters@ =~= self@.row_letters(r as int));
            RowSnapshot { letters, results: Some(score_guess(&self.secret, g)) }
        } else {
            let on_buffer = r == self.guesses.len();
            let mut i: usize = 0;
            while i < WORD_LENGTH
                invariant
                    self.wf(),
                    0 <= i <= WORD_LENGTH,
                    on_buffer == (r == self@.guesses.len()),
                    r >= self@.guesses.len(),
                    letters@ =~= self@.row_letters(r as int).subrange(0, i as int),
                decreases WORD_LENGTH - i,
            {
                let ghost row_seq = self@.row_letters(r as int);
                assert(row_seq.len() == WORD_LENGTH);
                if on_buffer {
                    letters.push(self.buffer.letter(i));
                } else {
                    letters.push(None);
                }
                assert(letters@ =~= row_seq.subrange(0, i as int + 1));
                i += 1;
            }
            assert(letters@ =~= self@.row_letters(r as int));
            RowSnapshot { letters, results: None }
        }
    }

    /// A picture of the session for the presentation layer: the phase, every
    /// row of the grid with the results of submitted guesses, the status of
    /// every letter key and the win streak.
    pub fn snapshot(&self) -> (s: Snapshot)
        requires
            self.wf(),
        ensures
            s.phase == self@.phase,
            s.wins == self@.wins,
            s.rows@.len() == MAX_ROWS,
            forall|r: int| 0 <= r < MAX_ROWS ==> (#[trigger] s.rows@[r]).letters@ == self@.row_letters(r),
            forall|r: int| 0 <= r < MAX_ROWS ==> ((#[trigger] s.rows@[r]).results is Some <==> r < self@.guesses.len()),
            forall|r: int|
                0 <= r < self@.guesses.len() ==> (#[trigger] s.rows@[r]).results->0@ == score_spec(
                    self@.secret,
                    self@.guesses[r],
                ),
            s.keys@.len() == 26,
            forall|i: int| 0 <= i < 26 ==> #[trigger] s.keys@[i] == self@.key_at(i),
    {
        let mut rows: Vec<RowSnapshot> = Vec::new();
        let mut r: usize = 0;
        while r < MAX_ROWS
            invariant
                self.wf(),
                0 <= r <= MAX_ROWS,
                rows@.len() == r,
                forall|k: int| 0 <= k < r ==> (#[trigger] rows@[k]).letters@ == self@.row_letters(k),
                forall|k: int| 0 <= k < r ==> ((#[trigger] rows@[k]).results is Some <==> k < self@.guesses.len()),
                forall|k: int|
                    0 <= k < r && k < self@.guesses.len() ==> (#[trigger] rows@[k]).results->0@ == score_spec(
                        self@.secret,
                        self@.guesses[k],
                    ),
            decreases MAX_ROWS - r,
        {
            rows.push(self.row_snapshot(r));
            r += 1;
        }
        let keys = key_statuses(&self.secret, &self.guesses);
        Snapshot { phase: self.phase, rows, keys, wins: self.wins }
    }
}

} // verus!
