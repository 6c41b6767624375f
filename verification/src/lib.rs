//! Graphics options, their configuration file, the options popup and the
//! scoring rules of a single-player pong game.
pub mod text;
pub mod settings;
pub mod options_popup;
pub mod options_dialog;
pub mod pong;
pub mod fps_overlay;
