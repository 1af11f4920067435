//! Interactive move-resolution core for a shogi board UI.
//!
//! The crate turns pointer-driven input (clicks, drags, releases) into
//! validated moves against a position oracle (the `shogi` crate), keeping the
//! selection, promotion and gesture state consistent along the way.

pub mod action;
pub mod assets;
pub mod game;
pub mod gesture;
pub mod laws;
pub mod oracle;
pub mod types;
