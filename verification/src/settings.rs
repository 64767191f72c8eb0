//! The user's settings, as the front end supplies them.
use vstd::prelude::*;

verus! {

/// The six hardware tweaks, each switched on or off by itself.
#[derive(Clone, Copy, Debug, PartialEq, Eq)]
pub struct AdvancedModuleSettings {
    /// Keep every core unparked.
    pub disable_core_parking: bool,
    /// Favour the system cache and large pages.
    pub enable_large_pages: bool,
    /// Boost the multimedia scheduler.
    pub mmcss_priority_boost: bool,
    /// Hardware-accelerated GPU scheduling.
    pub enable_hags: bool,
    /// Demote background processes to idle priority.
    pub process_idle_demotion: bool,
    /// Disable TCP auto-tuning.
    pub lower_bufferbloat: bool,
}

/// Everything the user can configure.
#[derive(Clone, Copy, Debug, PartialEq, Eq)]
pub struct AppSettings {
    pub suspend_explorer: bool,
    pub suspend_browsers: bool,
    pub suspend_launchers: bool,
    pub isolate_network: bool,
    pub advanced_tweaks: bool,
    pub disable_mpo: bool,
    pub run_on_startup: bool,
    pub advanced_modules: AdvancedModuleSettings,
}

/// The hardware tweaks of a first start: only the network buffer tweak is on.
pub open spec fn default_modules() -> AdvancedModuleSettings {
    AdvancedModuleSettings {
        disable_core_parking: false,
        enable_large_pages: false,
        mmcss_priority_boost: false,
        enable_hags: false,
        process_idle_demotion: false,
        lower_bufferbloat: true,
    }
}

/// The settings of a first start: browsers and launchers are terminated,
/// nothing else is on.
pub open spec fn default_settings() -> AppSettings {
    AppSettings {
        suspend_explorer: false,
        suspend_browsers: true,
        suspend_launchers: true,
        isolate_network: false,
        advanced_tweaks: false,
        disable_mpo: false,
        run_on_startup: false,
        advanced_modules: default_modules(),
    }
}

/// The value of a switch that is on unless the user turned it off.
pub fn default_true() -> (b: bool)
    ensures
        b,
{
    true
}

impl Default for AdvancedModuleSettings {
    fn default() -> (s: Self)
        ensures
            s == default_modules(),
    {
        AdvancedModuleSettings {
            disable_core_parking: false,
            enable_large_pages: false,
            mmcss_priority_boost: false,
            enable_hags: false,
            process_idle_demotion: false,
            lower_bufferbloat: default_true(),
        }
    }
}

impl Default for AppSettings {
    fn default() -> (s: Self)
        ensures
            s == default_settings(),
    {
        AppSettings {
            suspend_explorer: false,
            suspend_browsers: default_true(),
            suspend_launchers: default_true(),
            isolate_network: false,
            advanced_tweaks: false,
            disable_mpo: false,
            run_on_startup: false,
            advanced_modules: AdvancedModuleSettings::default(),
        }
    }
}

/// Where the settings are kept, and what is used when they cannot be had.
#[derive(Clone, Debug, PartialEq, Eq)]
pub struct SettingsService {
    /// Directory under which the settings folder lives.
    pub base_dir: String,
}

impl SettingsService {
    /// Name of the settings folder.
    pub fn folder_name() -> (name: &'static str)
        ensures
            name@ == "XillyGameMode"@,
    {
        "XillyGameMode"
    }

    /// Name of the settings file inside the folder.
    pub fn file_name() -> (name: &'static str)
        ensures
            name@ == "settings.json"@,
    {
        "settings.json"
    }

    /// The service for a local data directory; the current directory stands
    /// in when the host names none.
    pub fn new(data_local_dir: Option<String>) -> (s: Self)
        ensures
            s.base_dir@ == match data_local_dir {
                Some(dir) => dir@,
                None => "."@,
            },
    {
        match data_local_dir {
            Some(dir) => SettingsService { base_dir: dir },
            None => SettingsService { base_dir: ".".to_owned() },
        }
    }

    /// The settings in force: those read from the file, or the defaults when
    /// the file is missing or cannot be understood.
    pub fn load(&self, stored: Option<AppSettings>) -> (settings: AppSettings)
        ensures
            settings == match stored {
                Some(s) => s,
                None => default_settings(),
            },
    {
        match stored {
            Some(s) => s,
            None => AppSettings::default(),
        }
    }
}

} // verus!
