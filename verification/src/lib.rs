//! Engine of a terminal typing trainer for learning an alternate keyboard
//! layout: physical layouts and their key data, a position-aligned layout
//! mapper, progressive level key-sets, a filtered word bank, per-character
//! input tracking, and the session state machine that ties them together.
pub mod chars;
pub mod input;
pub mod layout;
pub mod mapper;
pub mod session;
pub mod words;
