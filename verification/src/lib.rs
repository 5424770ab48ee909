//! Decision logic of a lightweight desktop Discord client.
pub mod host;
pub mod json;
pub mod labels;
pub mod laws;
pub mod native;
pub mod page_script;
pub mod page_script_facts;
pub mod scripts;
pub mod settings;
pub mod settings_laws;
pub mod text;
pub mod tray;

pub use labels::tray_label;
pub use scripts::bootstrap_script;
pub use settings::{default_language, default_mute_shortcut, default_true, Settings};
