//! Document commands, the recently-used list and launch-URL routing of a
//! desktop diagram editor, as pure decisions over plain values.
//!
//! Nothing here touches a file, a window or a clock that the caller did not
//! hand in or ask for: the surrounding shell performs each effect and feeds
//! the outcome back.

pub mod clock;
pub mod document;
pub mod flow;
pub mod launch;
pub mod paths;
pub mod recents;
