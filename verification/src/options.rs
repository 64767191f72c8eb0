//! The options of one session.
use vstd::prelude::*;
use crate::settings::AppSettings;

verus! {

/// What a session is to do besides its always-on work. Supplied by the
/// caller for each enable and disable; never changed by the core.
#[derive(Clone, Copy, Debug, PartialEq, Eq)]
pub struct GameModeOptions {
    /// Tear the shell down for the session.
    pub suspend_explorer: bool,
    /// Terminate browsers.
    pub suspend_browsers: bool,
    /// Terminate game launchers.
    pub suspend_launchers: bool,
    /// Isolate the host from multicast name resolution and NetBIOS.
    pub isolate_network: bool,
}

impl Default for GameModeOptions {
    fn default() -> (o: Self)
        ensures
            o == (GameModeOptions {
                suspend_explorer: false,
                suspend_browsers: false,
                suspend_launchers: false,
                isolate_network: false,
            }),
    {
        GameModeOptions {
            suspend_explorer: false,
            suspend_browsers: false,
            suspend_launchers: false,
            isolate_network: false,
        }
    }
}

impl GameModeOptions {
    /// The session options held in the user's settings.
    pub fn from_settings(settings: &AppSettings) -> (o: Self)
        ensures
            o == (GameModeOptions {
                suspend_explorer: settings.suspend_explorer,
                suspend_browsers: settings.suspend_browsers,
                suspend_launchers: settings.suspend_launchers,
                isolate_network: settings.isolate_network,
            }),
    {
        GameModeOptions {
            suspend_explorer: settings.suspend_explorer,
            suspend_browsers: settings.suspend_browsers,
            suspend_launchers: settings.suspend_launchers,
            isolate_network: settings.isolate_network,
        }
    }
}

} // verus!
