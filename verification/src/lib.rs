//! A terminal project launcher's core: a wrap-around selectable list of
//! favorite project entries, and the key-driven state machine that moves the
//! selection, confirms a launch, and terminates.

pub mod app;
pub mod list;
