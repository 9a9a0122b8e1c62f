//! A terminal menu shell: a three-screen menu state machine driven by key and
//! tick events, together with pure rendering of each screen's content and the
//! timing rule for the event source's tick interval.

pub mod state;
pub mod timer;
pub mod view;
