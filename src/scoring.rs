use vstd::prelude::*;

verus! {

/// Feedback for one letter of a submitted guess.
#[derive(PartialEq, Eq, Structural, Clone, Copy, Debug)]
pub enum CellResult {
    /// The letter stands at this very position of the secret word.
    Correct,
    /// The letter occurs somewhere else in the secret word.
    Present,
    /// The letter does not occur in the secret word.
    Absent,
}

/// The result of one position: a letter is `Present` whenever it occurs
/// anywhere in the secret, however often it is repeated in the guess.
pub open spec fn cell_result_spec(secret: Seq<char>, guess: Seq<char>, i: int) -> CellResult {
    if i < secret.len() && guess[i] == secret[i] {
        CellResult::Correct
    } else if secret.contains(guess[i]) {
        CellResult::Present
    } else {
        CellResult::Absent
    }
}

/// The results of a whole guess, one per letter.
pub open spec fn score_spec(secret: Seq<char>, guess: Seq<char>) -> Seq<CellResult> {
    Seq::new(guess.len(), |i: int| cell_result_spec(secret, guess, i))
}

/// Whether `c` occurs in `word`.
pub fn contains_letter(word: &Vec<char>, c: char) -> (r: bool)
    ensures
        r == word@.contains(c),
{
    let mut i: usize = 0;
    while i < word.len()
        invariant
            0 <= i <= word@.len(),
            forall|j: int| 0 <= j < i ==> word@[j] != c,
        decreases word@.len() - i,
    {
        if word[i] == c {
            return true;
        }
        i += 1;
    }
    false
}

/// Scores the letter at position `i` of `guess` against `secret`.
pub fn score_letter(secret: &Vec<char>, guess: &Vec<char>, i: usize) -> (r: CellResult)
    requires
        i < guess@.len(),
    ensures
        r == cell_result_spec(secret@, guess@, i as int),
{
    let c = guess[i];
    if i < secret.len() && secret[i] == c {
        CellResult::Correct
    } else if contains_letter(secret, c) {
        CellResult::Present
    } else {
        CellResult::Absent
    }
}

/// Scores a whole guess against the secret word, position by position.
pub fn score_guess(secret: &Vec<char>, guess: &Vec<char>) -> (r: Vec<CellResult>)
    ensures
        r@ == score_spec(secret@, guess@),
{
    let mut r: Vec<CellResult> = Vec::new();
    let mut i: usize = 0;
    while i < guess.len()
        invariant
            0 <= i <= guess@.len(),
            r@ =~= Seq::new(i as nat, |j: int| cell_result_spec(secret@, guess@, j)),
        decreases guess@.len() - i,
    {
        r.push(score_letter(secret, guess, i));
        i += 1;
    }
    assert(r@ =~= score_spec(secret@, guess@));
    r
}

/// Aggregated feedback for one key of the keyboard.
#[derive(PartialEq, Eq, Structural, Clone, Copy, Debug)]
pub enum KeyStatus {
    /// No guess has shown anything about the letter yet.
    Unset,
    /// The letter was guessed and occurs in the secret word.
    Present,
    /// The letter was guessed at a position where the secret has it.
    Correct,
}

/// Orders key statuses from least to most informative.
pub open spec fn key_rank(k: KeyStatus) -> nat {
    match k {
        KeyStatus::Unset => 0,
        KeyStatus::Present => 1,
        KeyStatus::Correct => 2,
    }
}

/// `guess` holds `c` at a position where `secret` holds it too.
pub open spec fn correct_in(secret: Seq<char>, guess: Seq<char>, c: char) -> bool {
    exists|i: int| 0 <= i < guess.len() && i < secret.len() && guess[i] == c && secret[i] == c
}

/// Some guess holds `c` at a position where `secret` holds it too.
pub open spec fn correct_somewhere(secret: Seq<char>, guesses: Seq<Seq<char>>, c: char) -> bool {
    exists|g: int| 0 <= g < guesses.len() && #[trigger] correct_in(secret, guesses[g], c)
}

/// Some guess holds `c`.
pub open spec fn guessed(guesses: Seq<Seq<char>>, c: char) -> bool {
    exists|g: int| 0 <= g < guesses.len() && #[trigger] guesses[g].contains(c)
}

/// The status of the key `c` after `guesses` were submitted against `secret`.
pub open spec fn key_status_spec(secret: Seq<char>, guesses: Seq<Seq<char>>, c: char) -> KeyStatus {
    if correct_somewhere(secret, guesses, c) {
        KeyStatus::Correct
    } else if guessed(guesses, c) && secret.contains(c) {
        KeyStatus::Present
    } else {
        KeyStatus::Unset
    }
}

/// The letters of the keyboard, in alphabetical order.
pub open spec fn alphabet() -> Seq<char> {
    Seq::new(26, |i: int| ((97 + i) as u8) as char)
}

fn letter_at(i: usize) -> (c: char)
    requires
        i < 26,
    ensures
        c == alphabet()[i as int],
{
    (97u8 + i as u8) as char
}

/// Whether `guess` holds `c` at a position where `secret` holds it too.
fn correct_in_guess(secret: &Vec<char>, guess: &Vec<char>, c: char) -> (r: bool)
    ensures
        r == correct_in(secret@, guess@, c),
{
    let mut i: usize = 0;
    while i < guess.len() && i < secret.len()
        invariant
            0 <= i <= guess@.len(),
            i <= secret@.len(),
            forall|j: int| 0 <= j < i ==> !(guess@[j] == c && secret@[j] == c),
        decreases guess@.len() - i,
    {
        if guess[i] == c && secret[i] == c {
            return true;
        }
        i += 1;
    }
    false
}

/// The status of the key `c`: `Correct` once some guess placed `c` where the
/// secret has it, else `Present` once `c` was guessed and occurs in the
/// secret, else `Unset`.
pub fn key_status(secret: &Vec<char>, guesses: &Vec<Vec<char>>, c: char) -> (r: KeyStatus)
    ensures
        r == key_status_spec(secret@, guesses@.map_values(|g: Vec<char>| g@), c),
{
    let ghost gs = guesses@.map_values(|g: Vec<char>| g@);
    let mut found_correct = false;
    let mut found_guessed = false;
    let mut k: usize = 0;
    while k < guesses.len()
        invariant
            0 <= k <= guesses@.len(),
            gs == guesses@.map_values(|g: Vec<char>| g@),
            found_correct <==> exists|g: int| 0 <= g < k && #[trigger] correct_in(secret@, gs[g], c),
            found_guessed <==> exists|g: int| 0 <= g < k && #[trigger] gs[g].contains(c),
        decreases guesses@.len() - k,
    {
        assert(gs[k as int] == guesses@[k as int]@);
        let cor = correct_in_guess(secret, &guesses[k], c);
        let holds = contains_letter(&guesses[k], c);
        proof {
            if !cor && found_correct {
                let g = choose|g: int| 0 <= g < k && #[trigger] correct_in(secret@, gs[g], c);
                assert(0 <= g < k + 1 && correct_in(secret@, gs[g], c));
            }
            if !holds && found_guessed {
                let g = choose|g: int| 0 <= g < k && #[trigger] gs[g].contains(c);
                assert(0 <= g < k + 1 && gs[g].contains(c));
            }
        }
        found_correct = found_correct || cor;
        found_guessed = found_guessed || holds;
        k += 1;
    }
    if found_correct {
        KeyStatus::Correct
    } else if found_guessed && contains_letter(secret, c) {
        KeyStatus::Present
    } else {
        KeyStatus::Unset
    }
}

/// The status of every key of the keyboard, in alphabetical order.
pub fn key_statuses(secret: &Vec<char>, guesses: &Vec<Vec<char>>) -> (r: Vec<KeyStatus>)
    ensures
        r@.len() == 26,
        forall|i: int|
            0 <= i < 26 ==> #[trigger] r@[i] == key_status_spec(
                secret@,
                guesses@.map_values(|g: Vec<char>| g@),
                alphabet()[i],
            ),
{
    let mut r: Vec<KeyStatus> = Vec::new();
    let mut i: usize = 0;
    while i < 26
        invariant
            0 <= i <= 26,
            r@.len() == i,
            forall|j: int|
                0 <= j < i ==> #[trigger] r@[j] == key_status_spec(
                    secret@,
                    guesses@.map_values(|g: Vec<char>| g@),
                    alphabet()[j],
                ),
        decreases 26 - i,
    {
        r.push(key_status(secret, guesses, letter_at(i)));
        i += 1;
    }
    r
}

/// Scoring a word against itself marks every position `Correct`.
pub proof fn lemma_self_guess_all_correct(w: Seq<char>)
    ensures
        score_spec(w, w).len() == w.len(),
        forall|i: int| 0 <= i < w.len() ==> #[trigger] score_spec(w, w)[i] == CellResult::Correct,
{
}

/// A guess sharing no letter with the secret is `Absent` at every position.
pub proof fn lemma_disjoint_guess_all_absent(secret: Seq<char>, guess: Seq<char>)
    requires
        forall|i: int| 0 <= i < guess.len() ==> !secret.contains(#[trigger] guess[i]),
    ensures
        score_spec(secret, guess).len() == guess.len(),
        forall|i: int| 0 <= i < guess.len() ==> #[trigger] score_spec(secret, guess)[i] == CellResult::Absent,
{
    assert forall|i: int| 0 <= i < guess.len() implies #[trigger] score_spec(secret, guess)[i] == CellResult::Absent by {
        assert(!secret.contains(guess[i]));
        if i < secret.len() && guess[i] == secret[i] {
            assert(secret.contains(guess[i]));
        }
    }
}

/// Submitting further guesses never lowers a key's status: a `Correct` key
/// stays `Correct`, and a `Present` key stays `Present` or becomes `Correct`.
pub proof fn lemma_key_status_monotone(
    secret: Seq<char>,
    guesses: Seq<Seq<char>>,
    later: Seq<Seq<char>>,
    c: char,
)
    requires
        guesses.len() <= later.len(),
        later.subrange(0, guesses.len() as int) == guesses,
    ensures
        key_rank(key_status_spec(secret, guesses, c)) <= key_rank(key_status_spec(secret, later, c)),
        key_status_spec(secret, guesses, c) == KeyStatus::Correct ==> key_status_spec(secret, later, c)
            == KeyStatus::Correct,
{
    if correct_somewhere(secret, guesses, c) {
        let g = choose|g: int| 0 <= g < guesses.len() && #[trigger] correct_in(secret, guesses[g], c);
        assert(later[g] == later.subrange(0, guesses.len() as int)[g]);
        assert(correct_in(secret, later[g], c));
    }
    if guessed(guesses, c) {
        let g = choose|g: int| 0 <= g < guesses.len() && #[trigger] guesses[g].contains(c);
        assert(later[g] == later.subrange(0, guesses.len() as int)[g]);
        assert(later[g].contains(c));
    }
}

} // verus!
