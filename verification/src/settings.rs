//! The launcher's fixed settings: the panel's label and measures, the
//! shortcuts that toggle it, and where its user interface is loaded from.

use vstd::prelude::*;
use crate::layout::PanelConfig;

verus! {

/// The label by which the panel is found again after it was created.
pub const PANEL_LABEL: &'static str = "launcher";

/// Width of the panel, in logical units.
pub const PANEL_WIDTH: u32 = 375;

/// Height of the panel, in logical units.
pub const PANEL_HEIGHT: u32 = 420;

/// Distance of the panel from the top of the monitor, in logical units.
pub const TOP_OFFSET: u32 = 80;

/// The shortcut that toggles the panel.
pub const PRIMARY_SHORTCUT: &'static str = "Command+Shift+Space";

/// A second shortcut that toggles the panel as the first does.
pub const SECONDARY_SHORTCUT: &'static str = "Option+Space";

/// Address of the local server that serves the interface during development.
pub const DEV_SERVER_URL: &'static str = "http://localhost:1420";

/// The page of the bundled interface.
pub const BUNDLED_PAGE: &'static str = "index.html";

/// The measures of the launcher panel.
pub fn launcher_config() -> (config: PanelConfig)
    ensures
        config == (PanelConfig { width: PANEL_WIDTH, height: PANEL_HEIGHT, top_offset: TOP_OFFSET }),
{
    PanelConfig { width: PANEL_WIDTH, height: PANEL_HEIGHT, top_offset: TOP_OFFSET }
}

/// Where the panel's user interface comes from.
#[derive(Clone, Copy, Debug, PartialEq, Eq, Structural)]
pub enum UiSource {
    /// A development server on this machine.
    DevServer,
    /// The page bundled with the application.
    Bundled,
}

impl UiSource {
    /// The source for a build: the development server in a debug build,
    /// the bundled page in a release build.
    pub fn for_build(debug_build: bool) -> (source: UiSource)
        ensures
            source == (if debug_build { UiSource::DevServer } else { UiSource::Bundled }),
    {
        if debug_build {
            UiSource::DevServer
        } else {
            UiSource::Bundled
        }
    }

    /// The server's address, or the page's path within the bundle.
    pub fn location(&self) -> (location: &'static str)
        ensures
            location@ == (match *self {
                UiSource::DevServer => DEV_SERVER_URL@,
                UiSource::Bundled => BUNDLED_PAGE@,
            }),
    {
        match self {
            UiSource::DevServer => DEV_SERVER_URL,
            UiSource::Bundled => BUNDLED_PAGE,
        }
    }
}

} // verus!
