//! What the caller has read from the host before it asks for a decision.
use vstd::prelude::*;
use vstd::string::StringExecFns;
use crate::advanced_modules::{
    background_only, clock_rate, core_parking_max, core_parking_min, hags_mode,
    large_page_minimum, large_system_cache, no_lazy_mode, scheduling_category, sfio_priority,
    system_responsiveness,
};
use crate::detector::WindowInfo;
use crate::effect::{append_deep, push_deep, run_tool, Effect, EffectView, Hive};
use crate::process::ProcessEntry;
use crate::registry::{
    allow_auto_game_mode, auto_game_mode, auto_restart_shell, games_gpu_priority, games_priority,
    power_attributes, priority_separation,
};
use crate::revi_tweaks::{
    registry_tweaks, services_to_disable, startup_location, string_tweaks, tweak_location,
    ReviTweaksService,
};
use crate::service_control::{optimization_services, ServiceStatus, WindowsServiceManager};
use crate::store::{location, ConfigStore, Location};

verus! {

/// The name of one configuration value.
#[derive(Clone, Debug, PartialEq, Eq)]
pub struct ValueName {
    pub hive: Hive,
    pub path: String,
    pub name: String,
}

impl View for ValueName {
    type V = Location;

    open spec fn view(&self) -> Location {
        location(self.hive, self.path@, self.name@)
    }
}

impl DeepView for ValueName {
    type V = Location;

    open spec fn deep_view(&self) -> Location {
        self@
    }
}

impl ValueName {
    pub fn new(hive: Hive, path: &str, name: &str) -> (v: Self)
        ensures
            v@ == location(hive, path@, name@),
    {
        ValueName { hive, path: path.to_owned(), name: name.to_owned() }
    }
}

/// The values with a fixed name that the providers capture, in the order
/// orchestrator, hardware tweaks.
pub open spec fn fixed_locations() -> Seq<Location> {
    seq![
        power_attributes(),
        priority_separation(),
        auto_game_mode(),
        allow_auto_game_mode(),
        games_priority(),
        games_gpu_priority(),
        auto_restart_shell(),
        core_parking_min(),
        core_parking_max(),
        system_responsiveness(),
        no_lazy_mode(),
        scheduling_category(),
        sfio_priority(),
        background_only(),
        clock_rate(),
        large_system_cache(),
        large_page_minimum(),
        hags_mode(),
    ]
}

/// The start-up types of the services `names`.
pub open spec fn startup_locations(names: Seq<Seq<char>>) -> Seq<Location> {
    Seq::new(names.len(), |i: int| startup_location(names[i]))
}

/// The locations of the integer tweaks `tweaks`.
pub open spec fn dword_tweak_locations(tweaks: Seq<(Seq<char>, Seq<char>, u32)>) -> Seq<Location> {
    Seq::new(tweaks.len(), |i: int| tweak_location(tweaks[i].0, tweaks[i].1))
}

/// The locations of the text tweaks `tweaks`.
pub open spec fn text_tweak_locations(tweaks: Seq<(Seq<char>, Seq<char>, Seq<char>)>) -> Seq<
    Location,
> {
    Seq::new(tweaks.len(), |i: int| tweak_location(tweaks[i].0, tweaks[i].1))
}

/// Every configuration value that some provider reads from the store of a
/// snapshot: the fixed ones, then what the system-wide tweak set captures.
pub open spec fn watched_locations() -> Seq<Location> {
    fixed_locations() + startup_locations(services_to_disable()) + dword_tweak_locations(
        registry_tweaks(),
    ) + text_tweak_locations(string_tweaks())
}

/// The query whose output is the chassis report.
pub open spec fn chassis_query() -> EffectView {
    run_tool("wmic"@, seq!["path"@, "Win32_SystemEnclosure"@, "get"@, "ChassisTypes"@])
}

/// The query whose output is the listing of the installed power schemes.
pub open spec fn scheme_listing_query() -> EffectView {
    run_tool("powercfg"@, seq!["/list"@])
}

/// The query whose output describes the global TCP parameters.
pub open spec fn tcp_query() -> EffectView {
    run_tool("netsh"@, seq!["int"@, "tcp"@, "show"@, "global"@])
}

/// Every service whose state some provider asks for.
pub open spec fn watched_service_names() -> Seq<Seq<char>> {
    optimization_services() + services_to_disable()
}

/// A snapshot of the host. The caller fills it by reading the host; every
/// read that failed is recorded as an absent value, as an empty list, or by
/// `processes_known`.
pub struct HostSnapshot {
    /// The caller's own process id.
    pub own_pid: u32,
    /// Whether the process snapshot could be taken.
    pub processes_known: bool,
    /// The process table, in the host's snapshot order.
    pub processes: Vec<ProcessEntry>,
    /// The top-level windows, in the host's enumeration order.
    pub windows: Vec<WindowInfo>,
    /// Width of the primary display.
    pub screen_width: i32,
    /// Height of the primary display.
    pub screen_height: i32,
    /// The configuration values the providers read.
    pub store: ConfigStore,
    /// The state of the services the providers ask about.
    pub services: Vec<ServiceStatus>,
    /// Names of the network interface sub-keys.
    pub interfaces: Vec<String>,
    /// The chassis report, when it was asked for and obtained.
    pub chassis_report: Option<String>,
    /// The active power scheme.
    pub active_scheme: Option<u128>,
    /// The listing of the installed power schemes.
    pub scheme_listing: Option<String>,
    /// Boost mode of the active scheme.
    pub boost_mode: Option<u32>,
    /// Minimum processor state of the active scheme.
    pub min_processor: Option<u32>,
    /// Output of the TCP global-parameters query.
    pub tcp_global: Option<String>,
}

impl HostSnapshot {
    /// The process rows, when the snapshot was taken.
    pub open spec fn rows(&self) -> Option<Seq<ProcessEntry>> {
        if self.processes_known {
            Some(self.processes@)
        } else {
            None
        }
    }

    /// The tool to run for `chassis_report`.
    pub fn chassis_query() -> (e: Effect)
        ensures
            e@ == chassis_query(),
    {
        let args = vec!["path", "Win32_SystemEnclosure", "get", "ChassisTypes"];
        assert(args.deep_view() =~= seq![
            "path"@,
            "Win32_SystemEnclosure"@,
            "get"@,
            "ChassisTypes"@,
        ]);
        Effect::run_tool("wmic", args)
    }

    /// The tool to run for `scheme_listing`.
    pub fn scheme_listing_query() -> (e: Effect)
        ensures
            e@ == scheme_listing_query(),
    {
        let args = vec!["/list"];
        assert(args.deep_view() =~= seq!["/list"@]);
        Effect::run_tool("powercfg", args)
    }

    /// The tool to run for `tcp_global`.
    pub fn tcp_query() -> (e: Effect)
        ensures
            e@ == tcp_query(),
    {
        let args = vec!["int", "tcp", "show", "global"];
        assert(args.deep_view() =~= seq!["int"@, "tcp"@, "show"@, "global"@]);
        Effect::run_tool("netsh", args)
    }

    /// The configuration values to read into `store` before a snapshot is
    /// handed to a provider.
    pub fn watched_values() -> (list: Vec<ValueName>)
        ensures
            list.deep_view() == watched_locations(),
    {
        let h = Hive::LocalMachine;
        let games =
            "SOFTWARE\\Microsoft\\Windows NT\\CurrentVersion\\Multimedia\\SystemProfile\\Tasks\\Games";
        let parking =
            "SYSTEM\\CurrentControlSet\\Control\\Power\\PowerSettings\\54533251-82be-4824-96c1-47b60b740d00\\0cc5b647-c1df-4637-891a-dec35c318583";
        let profile = "SOFTWARE\\Microsoft\\Windows NT\\CurrentVersion\\Multimedia\\SystemProfile";
        let memory = "SYSTEM\\CurrentControlSet\\Control\\Session Manager\\Memory Management";
        let game_bar = "Software\\Microsoft\\GameBar";
        let mut list: Vec<ValueName> = Vec::new();
        push_deep(
            &mut list,
            ValueName::new(
                h,
                "SYSTEM\\CurrentControlSet\\Control\\Power\\PowerSettings\\54533251-82be-4824-96c1-47b60b740d00\\be337238-0d82-4146-a960-4f3749d470c7",
                "Attributes",
            ),
        );
        push_deep(
            &mut list,
            ValueName::new(
                h,
                "SYSTEM\\CurrentControlSet\\Control\\PriorityControl",
                "Win32PrioritySeparation",
            ),
        );
        push_deep(&mut list, ValueName::new(Hive::CurrentUser, game_bar, "AutoGameModeEnabled"));
        push_deep(&mut list, ValueName::new(Hive::CurrentUser, game_bar, "AllowAutoGameMode"));
        push_deep(&mut list, ValueName::new(h, games, "Priority"));
        push_deep(&mut list, ValueName::new(h, games, "GPU Priority"));
        push_deep(
            &mut list,
            ValueName::new(
                h,
                "SOFTWARE\\Microsoft\\Windows NT\\CurrentVersion\\Winlogon",
                "AutoRestartShell",
            ),
        );
        push_deep(&mut list, ValueName::new(h, parking, "ValueMin"));
        push_deep(&mut list, ValueName::new(h, parking, "ValueMax"));
        push_deep(&mut list, ValueName::new(h, profile, "SystemResponsiveness"));
        push_deep(&mut list, ValueName::new(h, profile, "NoLazyMode"));
        push_deep(&mut list, ValueName::new(h, games, "Scheduling Category"));
        push_deep(&mut list, ValueName::new(h, games, "SFIO Priority"));
        push_deep(&mut list, ValueName::new(h, games, "Background Only"));
        push_deep(&mut list, ValueName::new(h, games, "Clock Rate"));
        push_deep(&mut list, ValueName::new(h, memory, "LargeSystemCache"));
        push_deep(&mut list, ValueName::new(h, memory, "LargePageMinimum"));
        push_deep(
            &mut list,
            ValueName::new(h, "SYSTEM\\CurrentControlSet\\Control\\GraphicsDrivers", "HwSchMode"),
        );
        assert(list.deep_view() =~= fixed_locations());

        let services = ReviTweaksService::services_to_disable();
        let mut startups: Vec<ValueName> = Vec::new();
        let mut i: usize = 0;
        assert(startups.deep_view() =~= startup_locations(services.deep_view().subrange(0, 0)));
        while i < services.len()
            invariant
                i <= services@.len(),
                services.deep_view() == services_to_disable(),
                startups.deep_view() == startup_locations(
                    services.deep_view().subrange(0, i as int),
                ),
            decreases services@.len() - i,
        {
            let mut path = "SYSTEM\\CurrentControlSet\\Services\\".to_owned();
            path.append(services[i]);
            assert(services.deep_view()[i as int] == services@[i as int]@);
            push_deep(&mut startups, ValueName::new(Hive::LocalMachine, path.as_str(), "Start"));
            assert(startups.deep_view() =~= startup_locations(
                services.deep_view().subrange(0, i as int + 1),
            ));
            i += 1;
        }
        assert(services.deep_view().subrange(0, services@.len() as int) =~= services.deep_view());
        append_deep(&mut list, startups);

        let dwords = ReviTweaksService::registry_tweaks();
        let mut integers: Vec<ValueName> = Vec::new();
        let mut j: usize = 0;
        assert(integers.deep_view() =~= dword_tweak_locations(dwords.deep_view().subrange(0, 0)));
        while j < dwords.len()
            invariant
                j <= dwords@.len(),
                dwords.deep_view() == registry_tweaks(),
                integers.deep_view() == dword_tweak_locations(
                    dwords.deep_view().subrange(0, j as int),
                ),
            decreases dwords@.len() - j,
        {
            let (path, name, data) = dwords[j];
            assert(dwords.deep_view()[j as int] == (path@, name@, data));
            push_deep(&mut integers, ValueName::new(Hive::LocalMachine, path, name));
            assert(integers.deep_view() =~= dword_tweak_locations(
                dwords.deep_view().subrange(0, j as int + 1),
            ));
            j += 1;
        }
        assert(dwords.deep_view().subrange(0, dwords@.len() as int) =~= dwords.deep_view());
        append_deep(&mut list, integers);

        let strings = ReviTweaksService::string_tweaks();
        let mut texts: Vec<ValueName> = Vec::new();
        let mut k: usize = 0;
        assert(texts.deep_view() =~= text_tweak_locations(strings.deep_view().subrange(0, 0)));
        while k < strings.len()
            invariant
                k <= strings@.len(),
                strings.deep_view() == string_tweaks(),
                texts.deep_view() == text_tweak_locations(
                    strings.deep_view().subrange(0, k as int),
                ),
            decreases strings@.len() - k,
        {
            let (path, name, text) = strings[k];
            assert(strings.deep_view()[k as int] == (path@, name@, text@));
            push_deep(&mut texts, ValueName::new(Hive::LocalMachine, path, name));
            assert(texts.deep_view() =~= text_tweak_locations(
                strings.deep_view().subrange(0, k as int + 1),
            ));
            k += 1;
        }
        assert(strings.deep_view().subrange(0, strings@.len() as int) =~= strings.deep_view());
        append_deep(&mut list, texts);
        list
    }

    /// The services whose state is to be read into `services` before a
    /// snapshot is handed to a provider.
    pub fn watched_services() -> (list: Vec<&'static str>)
        ensures
            list.deep_view() == watched_service_names(),
    {
        let mut list = WindowsServiceManager::optimization_services();
        append_deep(&mut list, ReviTweaksService::services_to_disable());
        list
    }

    /// A snapshot of a host about which nothing is known.
    pub fn empty(own_pid: u32) -> (h: Self)
        ensures
            h.own_pid == own_pid,
            !h.processes_known,
            h.processes@.len() == 0,
            h.windows@.len() == 0,
            h.screen_width == 0,
            h.screen_height == 0,
            h.store.history@.len() == 0,
            h.services@.len() == 0,
            h.interfaces@.len() == 0,
            h.chassis_report.is_none(),
            h.active_scheme.is_none(),
            h.scheme_listing.is_none(),
            h.boost_mode.is_none(),
            h.min_processor.is_none(),
            h.tcp_global.is_none(),
    {
        HostSnapshot {
            own_pid,
            processes_known: false,
            processes: Vec::new(),
            windows: Vec::new(),
            screen_width: 0,
            screen_height: 0,
            store: ConfigStore::new(),
            services: Vec::new(),
            interfaces: Vec::new(),
            chassis_report: None,
            active_scheme: None,
            scheme_listing: None,
            boost_mode: None,
            min_processor: None,
            tcp_global: None,
        }
    }
}

} // verus!
