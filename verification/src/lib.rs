//! Finding crackmes on crackmes.one.
//!
//! The catalog is searched in two steps. A first request opens a session:
//! its answer carries a session cookie and, in its page, a form token
//! ([`session`]). A second request posts a filter together with the token
//! ([`search`], [`cli`]), and its answer holds the matching entries in a
//! table ([`listing`], [`challenge`]). What an answer, or the lack of one,
//! means for the run is decided in [`retrieval`]. The entries are then
//! browsed in a small terminal session ([`app`], [`event`], [`ui`]).
//!
//! Nothing here touches the network or the terminal: every function takes
//! and returns plain values, and the program around the library moves them.

pub mod app;
pub mod challenge;
pub mod cli;
pub mod errors;
pub mod event;
pub mod listing;
pub mod markup;
pub mod query;
pub mod retrieval;
pub mod score;
pub mod search;
pub mod session;
pub mod text;
pub mod ui;
