//! FrameWise: the logic of a lightweight performance toolkit for Windows —
//! a live FPS and system-stats overlay, and a read-only optimization audit —
//! with each decision stated in a contract and proved.
//!
//! The modules hold what the overlay shows and where (`overlay`), the frame
//! statistics and the reader of PresentMon's output (`stats`), the audit's
//! detectors and report (`audit`), the configuration and its safe ranges
//! (`config`), the hotkey parser (`hotkey`), Windows version gating
//! (`platform`), the tray icon's image (`tray`), the main loop's event
//! handling (`events`), log time stamps (`logging`), and the text helpers
//! they share (`text`).

pub mod audit;
pub mod config;
pub mod events;
pub mod hotkey;
pub mod logging;
pub mod overlay;
pub mod platform;
pub mod stats;
pub mod text;
pub mod tray;
