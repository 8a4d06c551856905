//! Core of a foreground-activity tracker: a session state machine that turns a
//! stream of activity snapshots into discrete usage sessions, together with the
//! poll-driver decisions, delivery bookkeeping, focus/tray state and the
//! distraction-blocking policy around it. All logic here is verified; the host
//! binary supplies the platform probe, the clock and the network.

pub mod appstate;
pub mod blocking;
pub mod driver;
pub mod laws;
pub mod session;
pub mod snapshot;
pub mod text;
pub mod tracker;
pub mod wire;
