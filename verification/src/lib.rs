//! Keeps a Windows session on a single keyboard layout: the decisions, text
//! handling and layout rules of the enforcer, separated from the Win32 calls
//! that carry them out.

pub mod geometry;
pub mod layout;
pub mod menu;
pub mod mode;
pub mod paint;
pub mod text;
pub mod tray;
pub mod update;
pub mod wide;
pub mod window;
