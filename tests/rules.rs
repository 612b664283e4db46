use wordle_rules::{
    key_status, key_statuses, score_guess, score_letter, CellResult, CustomAsset, Event,
    GameSession, GuessBuffer, KeyStatus, Phase, SessionError, MAX_ROWS, WORD_LENGTH,
};

fn w(s: &str) -> Vec<char> {
    s.chars().collect()
}

fn dict(words: &[&str]) -> CustomAsset {
    CustomAsset { words: words.iter().map(|s| w(s)).collect() }
}

fn type_word(s: &mut GameSession, word: &str) {
    for c in word.chars() {
        s.handle_letter(c);
    }
}

fn playing(words: &[&str], secret_index: usize) -> GameSession {
    let mut s = GameSession::new(dict(words));
    assert_eq!(s.start_at(secret_index), Ok(()));
    s
}

use CellResult::{Absent, Correct, Present};

#[test]
fn self_guess_is_correct_everywhere() {
    for word in ["crane", "plane", "shale", "geese"] {
        assert_eq!(score_guess(&w(word), &w(word)), vec![Correct; 5]);
    }
}

#[test]
fn disjoint_guess_is_absent_everywhere() {
    assert_eq!(score_guess(&w("crane"), &w("tulip")), vec![Absent; 5]);
    assert_eq!(score_guess(&w("shale"), &w("dumpy")), vec![Absent; 5]);
}

#[test]
fn repeated_letters_are_all_present() {
    assert_eq!(
        score_guess(&w("crane"), &w("geese")),
        vec![Absent, Present, Present, Absent, Correct]
    );
    assert_eq!(score_letter(&w("crane"), &w("geese"), 1), Present);
    assert_eq!(score_letter(&w("crane"), &w("geese"), 4), Correct);
}

#[test]
fn type_then_delete_restores_row() {
    for start in 0..WORD_LENGTH {
        let mut b = GuessBuffer::empty_at(0);
        for _ in 0..start {
            b.type_letter('x');
        }
        let before: Vec<Option<char>> = (0..WORD_LENGTH).map(|i| b.letter(i)).collect();
        b.type_letter('k');
        assert_eq!(b.column(), start + 1);
        assert_eq!(b.letter(start), Some('k'));
        b.delete_letter();
        let after: Vec<Option<char>> = (0..WORD_LENGTH).map(|i| b.letter(i)).collect();
        assert_eq!(b.column(), start);
        assert_eq!(b.row(), 0);
        assert_eq!(before, after);
    }
}

#[test]
fn delete_on_empty_row_is_ignored() {
    let mut s = playing(&["crane"], 0);
    s.handle_delete();
    assert_eq!(s.column(), 0);
    type_word(&mut s, "cr");
    s.handle_delete();
    assert_eq!(s.current_word(), w("c"));
}

#[test]
fn unknown_word_submission_changes_nothing() {
    let mut s = playing(&["crane", "plane", "shale"], 0);
    type_word(&mut s, "qwert");
    assert_eq!(s.submit(), Err(SessionError::WordNotInDictionary));
    assert_eq!(s.phase(), Phase::Playing);
    assert_eq!(s.column(), 5);
    assert_eq!(s.row(), 0);
    assert_eq!(s.current_word(), w("qwert"));
    assert!(s.guesses().is_empty());
    s.handle_delete();
    s.handle_delete();
    s.handle_delete();
    s.handle_delete();
    s.handle_delete();
    type_word(&mut s, "shale");
    assert_eq!(s.submit(), Ok(()));
    assert_eq!(s.phase(), Phase::Scoring);
}

#[test]
fn correct_key_never_regresses() {
    let secret = w("crane");
    let mut guesses = vec![w("crisp")];
    let c = 2;
    assert_eq!(key_status(&secret, &guesses, 'c'), KeyStatus::Correct);
    assert_eq!(key_status(&secret, &guesses, 'r'), KeyStatus::Correct);
    assert_eq!(key_status(&secret, &guesses, 'i'), KeyStatus::Unset);
    assert_eq!(key_statuses(&secret, &guesses)[c], KeyStatus::Correct);
    guesses.push(w("rocky"));
    guesses.push(w("truck"));
    assert_eq!(key_status(&secret, &guesses, 'c'), KeyStatus::Correct);
    assert_eq!(key_status(&secret, &guesses, 'r'), KeyStatus::Correct);
    assert_eq!(key_statuses(&secret, &guesses)[c], KeyStatus::Correct);
}

#[test]
fn key_statuses_cover_alphabet() {
    let keys = key_statuses(&w("crane"), &vec![w("plane"), w("react")]);
    assert_eq!(keys.len(), 26);
    let at = |c: char| keys[(c as u8 - b'a') as usize];
    assert_eq!(at('a'), KeyStatus::Correct);
    assert_eq!(at('n'), KeyStatus::Correct);
    assert_eq!(at('e'), KeyStatus::Correct);
    assert_eq!(at('r'), KeyStatus::Present);
    assert_eq!(at('c'), KeyStatus::Present);
    assert_eq!(at('p'), KeyStatus::Unset);
    assert_eq!(at('t'), KeyStatus::Unset);
    assert_eq!(at('z'), KeyStatus::Unset);
    assert!(key_statuses(&w("crane"), &vec![]).iter().all(|k| *k == KeyStatus::Unset));
}

#[test]
fn scenario_wrong_guess_advances_row() {
    let mut s = playing(&["crane", "plane", "shale"], 0);
    assert_eq!(s.secret(), w("crane"));
    type_word(&mut s, "plane");
    assert_eq!(s.submit(), Ok(()));
    let snap = s.snapshot();
    assert_eq!(
        snap.rows[0].results,
        Some(vec![Absent, Absent, Correct, Correct, Correct])
    );
    assert_eq!(snap.rows[0].letters, w("plane").into_iter().map(Some).collect::<Vec<_>>());
    assert_eq!(snap.rows[1].results, None);
    s.acknowledge_scoring();
    assert_eq!(s.row(), 1);
    assert_eq!(s.column(), 0);
    assert_eq!(s.phase(), Phase::Playing);
}

#[test]
fn scenario_secret_guess_wins() {
    let mut s = playing(&["crane", "plane", "shale"], 0);
    assert_eq!(s.phase(), Phase::Playing);
    type_word(&mut s, "crane");
    assert_eq!(s.submit(), Ok(()));
    assert_eq!(s.phase(), Phase::Scoring);
    s.acknowledge_scoring();
    assert_eq!(s.phase(), Phase::Won);
    assert_eq!(s.wins(), 0);
    s.accept_result();
    assert_eq!(s.wins(), 1);
    assert_eq!(s.phase(), Phase::Initializing);
    assert_eq!(s.row(), 0);
    assert!(s.guesses().is_empty());
}

#[test]
fn scenario_six_misses_lose() {
    let words = ["crane", "plane", "shale", "brick", "mound", "fight", "pluck"];
    let mut s = playing(&words, 0);
    type_word(&mut s, "crane");
    assert_eq!(s.submit(), Ok(()));
    s.acknowledge_scoring();
    s.accept_result();
    assert_eq!(s.wins(), 1);
    assert_eq!(s.start_at(0), Ok(()));
    for (i, guess) in words[1..].iter().enumerate() {
        assert_eq!(s.phase(), Phase::Playing);
        type_word(&mut s, guess);
        assert_eq!(s.submit(), Ok(()));
        assert_eq!(s.phase(), Phase::Scoring);
        s.acknowledge_scoring();
        assert_eq!(s.row(), i + 1);
    }
    assert_eq!(s.phase(), Phase::Lost);
    assert_eq!(s.row(), MAX_ROWS);
    type_word(&mut s, "crane");
    assert_eq!(s.column(), 0);
    s.accept_result();
    assert_eq!(s.wins(), 0);
    assert_eq!(s.phase(), Phase::Initializing);
}

#[test]
fn scenario_sixth_letter_is_ignored() {
    let mut s = playing(&["crane"], 0);
    type_word(&mut s, "planes");
    assert_eq!(s.column(), 5);
    assert_eq!(s.current_word(), w("plane"));
}

#[test]
fn start_on_empty_dictionary_is_not_ready() {
    let mut s = GameSession::new(dict(&[]));
    assert_eq!(s.start(), Err(SessionError::NotReady));
    assert_eq!(s.phase(), Phase::Initializing);
    assert_eq!(s.load_dictionary(dict(&["crane"])), Ok(()));
    assert_eq!(s.start(), Ok(()));
    assert_eq!(s.phase(), Phase::Playing);
    assert_eq!(s.secret(), w("crane"));
}

#[test]
fn random_start_picks_a_listed_word() {
    let words = ["crane", "plane", "shale"];
    for _ in 0..20 {
        let mut s = GameSession::new(dict(&words));
        assert_eq!(s.start(), Ok(()));
        let secret: String = s.secret().into_iter().collect();
        assert!(words.contains(&secret.as_str()));
    }
}

#[test]
fn start_index_wraps_around() {
    let s = playing(&["crane", "plane", "shale"], 4);
    assert_eq!(s.secret(), w("plane"));
}

#[test]
fn operations_outside_their_phase_are_refused() {
    let mut s = GameSession::new(dict(&["crane"]));
    s.handle_letter('c');
    assert_eq!(s.column(), 0);
    assert_eq!(s.submit(), Err(SessionError::IllegalPhaseOperation));
    s.accept_result();
    assert_eq!(s.phase(), Phase::Initializing);
    assert_eq!(s.start(), Ok(()));
    assert_eq!(s.start(), Err(SessionError::IllegalPhaseOperation));
    assert_eq!(s.load_dictionary(dict(&["plane"])), Err(SessionError::IllegalPhaseOperation));
    type_word(&mut s, "cran");
    assert_eq!(s.submit(), Err(SessionError::IncompleteRow));
    s.handle_letter('e');
    assert_eq!(s.submit(), Ok(()));
    s.handle_letter('x');
    s.handle_delete();
    assert_eq!(s.column(), 0);
    assert_eq!(s.submit(), Err(SessionError::IllegalPhaseOperation));
    assert_eq!(s.phase(), Phase::Scoring);
}

#[test]
fn events_drive_the_session() {
    let mut s = playing(&["crane", "plane"], 1);
    for c in "plank".chars() {
        assert_eq!(s.handle_event(Event::Letter(c)), Ok(()));
    }
    assert_eq!(s.handle_event(Event::Submit), Err(SessionError::WordNotInDictionary));
    assert_eq!(s.handle_event(Event::Delete), Ok(()));
    assert_eq!(s.handle_event(Event::Letter('e')), Ok(()));
    assert_eq!(s.handle_event(Event::Submit), Ok(()));
    s.acknowledge_scoring();
    assert_eq!(s.phase(), Phase::Won);
    assert_eq!(s.handle_event(Event::AcceptResult), Ok(()));
    assert_eq!(s.wins(), 1);
}

#[test]
fn key_labels_map_to_events() {
    assert_eq!(Event::from_key_label('\u{23ce}'), Some(Event::Submit));
    assert_eq!(Event::from_key_label('\n'), Some(Event::Submit));
    assert_eq!(Event::from_key_label('\u{2190}'), Some(Event::Delete));
    assert_eq!(Event::from_key_label('\u{8}'), Some(Event::Delete));
    assert_eq!(Event::from_key_label('q'), Some(Event::Letter('q')));
    assert_eq!(Event::from_key_label('Q'), Some(Event::Letter('q')));
    assert_eq!(Event::from_key_label(' '), None);
    assert_eq!(Event::from_key_label('7'), None);
}

#[test]
fn word_list_from_text() {
    let d = CustomAsset::from_text(&w("crane\nplane\r\nshale\n"));
    assert_eq!(d.words, vec![w("crane"), w("plane"), w("shale")]);
    assert_eq!(d.len(), 3);
    assert!(d.contains(&w("plane")));
    assert!(!d.contains(&w("plan")));
    assert_eq!(d.word(2), w("shale"));
    let last = CustomAsset::from_text(&w("crane\n\nplane"));
    assert_eq!(last.words, vec![w("crane"), w(""), w("plane")]);
    let bare_cr = CustomAsset::from_text(&w("crane\r\nbaz\r"));
    assert_eq!(bare_cr.words, vec![w("crane"), w("baz\r")]);
    let empty = CustomAsset::from_text(&w(""));
    assert!(!empty.is_ready());
    assert_eq!(empty.len(), 0);
}

#[test]
fn snapshot_shows_grid_keys_and_streak() {
    let mut s = playing(&["crane", "plane"], 0);
    type_word(&mut s, "plane");
    assert_eq!(s.submit(), Ok(()));
    s.acknowledge_scoring();
    type_word(&mut s, "cr");
    let snap = s.snapshot();
    assert_eq!(snap.phase, Phase::Playing);
    assert_eq!(snap.wins, 0);
    assert_eq!(snap.rows.len(), MAX_ROWS);
    assert_eq!(snap.rows[1].letters, vec![Some('c'), Some('r'), None, None, None]);
    assert_eq!(snap.rows[1].results, None);
    assert_eq!(snap.rows[2].letters, vec![None; 5]);
    assert_eq!(snap.keys[(b'p' - b'a') as usize], KeyStatus::Unset);
    assert_eq!(snap.keys[(b'e' - b'a') as usize], KeyStatus::Correct);
    assert_eq!(snap.keys.len(), 26);
}
