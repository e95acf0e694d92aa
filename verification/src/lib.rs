//! Time-synchronised captions for the track a media player is playing.
//!
//! The crate holds the two parts that decide what is shown and when: the
//! parser that turns a caption file into a timeline (`grammar`, `parser`,
//! `lyric`), and the synchroniser that walks the timeline in step with the
//! player (`sync`). Around them stand what a track is set up with (`track`,
//! `error`) and the record that goes to the sink (`sink`). Talking to the
//! player, sleeping and writing are left to the caller.
//!
//! `format_laws` and `run_laws` state what holds of every caption file and of
//! every run; `trusted` holds the few calls whose contracts are not proved.

pub mod error;
pub mod format_laws;
pub mod grammar;
pub mod lyric;
pub mod parser;
pub mod run_laws;
pub mod sink;
pub mod sync;
pub mod text;
pub mod time;
pub mod track;
pub mod trusted;
