//! Decision logic of a Wayland video wallpaper driven by mpv: command-line
//! parsing, the mpv configuration, the frame-callback loop, the decode loop,
//! presentation timing and the texts of its error messages.

pub mod cli;
pub mod decode;
pub mod frame;
pub mod mpv;
pub mod text;
pub mod timing;
