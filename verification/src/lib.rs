//! A personal productivity tracker: tasks with due dates and priorities,
//! timed focus sessions, and the rules that drive a live countdown in the
//! terminal.
//!
//! This crate is the part that decides. It opens no database, reads no
//! clock and touches no terminal: a caller hands it plain values and does
//! what it answers with.
//!
//! - [`coordinator`], [`clock`] and [`watcher`] are the three state machines
//!   of a running session: the control loop and its two workers.
//! - [`render`] maps the display state to a frame, [`table`] lays out
//!   listings.
//! - [`filter`] turns a listing request into a query, [`store`] writes the
//!   statements for the store and reads its rows, [`handlers`] puts the two
//!   together for each command.
//! - [`task`], [`session`], [`models`], [`duration`], [`instant`], [`date`],
//!   [`analyze`] and [`error`] hold the data and its rules; [`text`] holds
//!   what is needed of strings.
//!
//! Every function is proved against its contract, with these exceptions,
//! whose contracts are taken on trust: the five calls into `chrono` at the
//! top of [`instant`], and the call of `str::to_lowercase` in [`text`].

pub mod analyze;
pub mod clock;
pub mod coordinator;
pub mod date;
pub mod duration;
pub mod error;
pub mod filter;
pub mod handlers;
pub mod instant;
pub mod models;
pub mod render;
pub mod session;
pub mod store;
pub mod table;
pub mod task;
pub mod text;
pub mod watcher;
