//! The windows of the application.

use vstd::prelude::*;

verus! {

/// Label of the main window.
pub const MAIN_WINDOW_LABEL: &'static str = "main";

/// The page that the main window opens.
pub const MAIN_WINDOW_URL: &'static str = "https://www.messenger.com/login";

/// Title of the main window.
pub const MAIN_WINDOW_TITLE: &'static str = "Messterial";

/// Inner width of the main window, in logical pixels.
pub const MAIN_WINDOW_WIDTH: u32 = 1200;

/// Inner height of the main window, in logical pixels.
pub const MAIN_WINDOW_HEIGHT: u32 = 800;

/// Title that a popup window starts with, until its page names itself.
pub const POPUP_WINDOW_TITLE: &'static str = "Messenger";

/// Inner width of a popup window, in logical pixels.
pub const POPUP_WINDOW_WIDTH: u32 = 800;

/// Inner height of a popup window, in logical pixels.
pub const POPUP_WINDOW_HEIGHT: u32 = 600;

} // verus!
