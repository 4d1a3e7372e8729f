pub mod autostart;
pub mod history;
pub mod hotkey;
pub mod icons;
pub mod paste;
pub mod text;
pub mod tray;
pub mod ui;
