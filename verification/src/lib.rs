//! A basketball scoreboard for the terminal, without the terminal: the
//! decoders of the schedule, box-score, play-by-play and roster feeds, the
//! state of the tabs and the cursor, and the text of what the screen lists.
//!
//! A feed is parsed into a [`json::Json`] tree and decoded from there; every
//! decoder says in its contract which documents it accepts and what it makes
//! of them. Statistics are read leniently: a text that is no number counts
//! zero and is never a reason to refuse a document.

pub mod app;
pub mod boxscore;
pub mod date;
pub mod error;
pub mod feeds;
pub mod json;
pub mod nav;
pub mod pbp;
pub mod period;
pub mod player;
pub mod schedule;
pub mod signal;
pub mod text;
pub mod totals;
pub mod ui;
pub mod watch;
