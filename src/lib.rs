//! Rules engine of a five-letter word-guessing game: scoring of guesses,
//! keyboard feedback, the row being typed and the session's phases.

pub mod scoring;
pub mod dictionary;
pub mod buffer;
pub mod session;

pub use buffer::{GuessBuffer, MAX_ROWS};
pub use dictionary::{CustomAsset, WORD_LENGTH};
pub use scoring::{key_status, key_statuses, score_guess, score_letter, CellResult, KeyStatus};
pub use session::{Event, GameSession, Phase, RowSnapshot, SessionError, Snapshot};
