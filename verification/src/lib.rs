//! State and decisions of a graphical front end for yt-dlp.

pub mod command;
pub mod config;
pub mod download_log;
pub mod effect;
pub mod gui;
pub mod laws;
pub mod links;
pub mod log_setup;
pub mod media_options;
pub mod path;
pub mod progress;
pub mod screen;
pub mod session;
pub mod single;
pub mod sponsorblock;
pub mod text;
pub mod text_laws;

pub use crate::config::{Config, WindowPosition, WindowSize};
pub use crate::effect::Effect;
pub use crate::gui::{Message, Tab, WindowEvent, YtGUI};
