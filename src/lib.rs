pub mod command;
pub mod startup;

pub use command::check_tauri_window;
pub use startup::{
    serves_commands, startup_failure_message, step, Phase, StartupAction, StartupEvent,
};
