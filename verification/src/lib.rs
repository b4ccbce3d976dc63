//! Live terminal dashboard core: a Model-Update-View state machine over a
//! remote event log, with an adaptive table renderer (dynamic column sizing,
//! row truncation to the viewport, relative-time formatting, and an
//! intensity-to-color gradient). Everything here is plain data in and plain
//! data out; the terminal, HTTP and configuration plumbing live outside.

pub mod color;
pub mod events;
pub mod frame;
pub mod model;
pub mod table;
pub mod timefmt;
