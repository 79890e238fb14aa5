//! The core of a terminal writing application: a modal editor with timed
//! flow sessions, draft management and a soft-wrapping text buffer.
//!
//! Everything here is a pure state machine. A key event, a clock tick or
//! the outcome of a storage action goes in; the next state comes out,
//! possibly with a request (`state::Effect`) for the caller to perform the
//! storage or spell-check work and hand its outcome back. The buffer keeps
//! its cursor and selection anchor valid across every edit, long lines
//! soft-wrap at the last space within the column limit, and Visual mode
//! never stands without a selection anchor; these invariants and the laws
//! in `laws` and `wrap` are machine-checked.

pub mod buffer;
pub mod keys;
pub mod laws;
pub mod settings;
pub mod state;
pub mod store;
pub mod strutil;
pub mod timefmt;
pub mod wrap;
