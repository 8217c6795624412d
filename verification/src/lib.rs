//! Backend core of the Kade IDE desktop shell.
//!
//! The crate decides where the application's persistent data lives, what has
//! to happen so that those directories exist before first use, how entries of
//! the tray menu map to window commands, and how failures are classified.
//! Everything that touches the file system or the windowing runtime is left
//! to the caller: the functions here take what was observed and say what is
//! to be done next.

pub mod bootstrap;
pub mod error;
pub mod files;
pub mod paths;
pub mod provision;
mod text;
pub mod tray;

use vstd::prelude::*;

pub use crate::bootstrap::{init_app, BootAction, BootEvent, BootPhase, Bootstrap};
pub use crate::error::{Error, ErrorView};
pub use crate::files::{read_file, write_file, WriteAction, WriteEvent, WriteState};
pub use crate::paths::{
    get_cache_dir, get_config_dir, get_data_dir, get_local_data_dir, resolve, ResolvedPath,
    StorageRole, APP_NAME,
};
pub use crate::provision::{ensure_dir_exists, DirAction, DirEvent, DirState, PathStatus};
pub use crate::tray::{
    on_menu_event, setup_tray, window_outcome, MenuEntry, TrayAction, TrayCommand, MAIN_WINDOW,
};

verus! {

/// The version of the application.
pub const APP_VERSION: &'static str = "0.1.0";

/// The version of the application, as a text of its own.
pub fn get_app_version() -> (version: String)
    ensures
        version@ == APP_VERSION@,
{
    APP_VERSION.to_owned()
}

} // verus!
