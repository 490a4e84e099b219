//! Verified core of the macOS accessibility inspector: decoding of the replies
//! that the native accessibility layer sends back, the choices the commands
//! make around them, and the layout decisions of the highlight overlay.

pub mod text;
pub mod bridge;
pub mod placement;
pub mod tooltip;
pub mod highlight;
pub mod commands;
pub mod models;
