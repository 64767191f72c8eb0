//! Hardware-tweak provider: six tunables, each applied and restored by
//! itself. Every tweak captures what it replaces and restores from the
//! capture, or from its documented default when nothing was captured.
use vstd::prelude::*;
use vstd::string::StringExecFns;
use crate::effect::{
    append_deep, push_deep, restore_dword, run_tool, set_dword, Effect, EffectView, Hive,
    PriorityClass,
};
use crate::host::HostSnapshot;
use crate::process::{process_name, ProcessEntry, ProcessService};
use crate::settings::AdvancedModuleSettings;
use crate::registry::{integer_or_absent, put_back};
use crate::store::{
    as_dword, lemma_replay_concat, lemma_replay_untouched, lemma_single_writer,
    lemma_spares_concat, location, replay, spares, ConfigStore, Location, StoredValue,
};
use crate::text::{
    chars_of, contains, decimal, has_substring, in_list, lines, lowercase, matches_any,
    push_decimal, second_field, split_second_field, text_lines, to_lowercase, trim, trimmed,
};

verus! {

/// Default share of cores that may not be parked, in percent.
pub const DEFAULT_MIN_CORES: u32 = 50;

/// Default share of cores that may be unparked, in percent.
pub const DEFAULT_MAX_CORES: u32 = 100;

/// Default share of the processor reserved for background work, in percent.
pub const DEFAULT_SYSTEM_RESPONSIVENESS: u32 = 20;

/// Default of the multimedia scheduler's lazy-mode switch.
pub const DEFAULT_NO_LAZY_MODE: u32 = 0;

/// Default of the flag that makes the system favour its cache: off.
pub const DEFAULT_LARGE_SYSTEM_CACHE: u32 = 0;

/// Scheduling mode with hardware-accelerated GPU scheduling.
pub const HAGS_ENABLED: u32 = 2;

pub open spec fn core_parking_path() -> Seq<char> {
    "SYSTEM\\CurrentControlSet\\Control\\Power\\PowerSettings\\54533251-82be-4824-96c1-47b60b740d00\\0cc5b647-c1df-4637-891a-dec35c318583"@
}

pub open spec fn system_profile_path() -> Seq<char> {
    "SOFTWARE\\Microsoft\\Windows NT\\CurrentVersion\\Multimedia\\SystemProfile"@
}

pub open spec fn games_task_path() -> Seq<char> {
    "SOFTWARE\\Microsoft\\Windows NT\\CurrentVersion\\Multimedia\\SystemProfile\\Tasks\\Games"@
}

pub open spec fn memory_management_path() -> Seq<char> {
    "SYSTEM\\CurrentControlSet\\Control\\Session Manager\\Memory Management"@
}

pub open spec fn graphics_drivers_path() -> Seq<char> {
    "SYSTEM\\CurrentControlSet\\Control\\GraphicsDrivers"@
}

pub open spec fn core_parking_min() -> Location {
    location(Hive::LocalMachine, core_parking_path(), "ValueMin"@)
}

pub open spec fn core_parking_max() -> Location {
    location(Hive::LocalMachine, core_parking_path(), "ValueMax"@)
}

pub open spec fn system_responsiveness() -> Location {
    location(Hive::LocalMachine, system_profile_path(), "SystemResponsiveness"@)
}

pub open spec fn no_lazy_mode() -> Location {
    location(Hive::LocalMachine, system_profile_path(), "NoLazyMode"@)
}

pub open spec fn scheduling_category() -> Location {
    location(Hive::LocalMachine, games_task_path(), "Scheduling Category"@)
}

pub open spec fn sfio_priority() -> Location {
    location(Hive::LocalMachine, games_task_path(), "SFIO Priority"@)
}

pub open spec fn background_only() -> Location {
    location(Hive::LocalMachine, games_task_path(), "Background Only"@)
}

pub open spec fn clock_rate() -> Location {
    location(Hive::LocalMachine, games_task_path(), "Clock Rate"@)
}

/// The flag that makes the system favour its cache.
pub open spec fn large_system_cache() -> Location {
    location(Hive::LocalMachine, memory_management_path(), "LargeSystemCache"@)
}

pub open spec fn large_page_minimum() -> Location {
    location(Hive::LocalMachine, memory_management_path(), "LargePageMinimum"@)
}

/// The GPU scheduling mode.
pub open spec fn hags_mode() -> Location {
    location(Hive::LocalMachine, graphics_drivers_path(), "HwSchMode"@)
}

/// The power-tool request that sets one parked-core percentage of the
/// current scheme.
pub open spec fn set_cores(alias: Seq<char>, percent: nat) -> EffectView {
    run_tool(
        "powercfg"@,
        seq!["/setacvalueindex"@, "scheme_current"@, "sub_processor"@, alias, decimal(percent)],
    )
}

/// The power-tool request that applies the current scheme again.
pub open spec fn reapply_scheme() -> EffectView {
    run_tool("powercfg"@, seq!["/setactive"@, "scheme_current"@])
}

/// Both parked-core percentages set, and the scheme applied again.
pub open spec fn core_parking_effects(min: nat, max: nat) -> Seq<EffectView> {
    seq![set_cores("CPMINCORES"@, min), set_cores("CPMAXCORES"@, max), reapply_scheme()]
}

/// The multimedia scheduler boost.
pub open spec fn mmcss_effects() -> Seq<EffectView> {
    seq![
        set_dword(Hive::LocalMachine, system_profile_path(), "SystemResponsiveness"@, 0),
        set_dword(Hive::LocalMachine, system_profile_path(), "NoLazyMode"@, 1),
        set_dword(Hive::LocalMachine, games_task_path(), "Scheduling Category"@, 2),
        set_dword(Hive::LocalMachine, games_task_path(), "SFIO Priority"@, 2),
        set_dword(Hive::LocalMachine, games_task_path(), "Background Only"@, 0),
        set_dword(Hive::LocalMachine, games_task_path(), "Clock Rate"@, 10000),
    ]
}

/// The captured integer, or `default` when there is none.
pub open spec fn or_default(original: Option<u32>, default: u32) -> u32 {
    match original {
        Some(v) => v,
        None => default,
    }
}

pub open spec fn large_pages_effects() -> Seq<EffectView> {
    seq![
        set_dword(Hive::LocalMachine, memory_management_path(), "LargeSystemCache"@, 1),
        set_dword(Hive::LocalMachine, memory_management_path(), "LargePageMinimum"@, 1),
    ]
}

pub open spec fn hags_effects() -> Seq<EffectView> {
    seq![set_dword(Hive::LocalMachine, graphics_drivers_path(), "HwSchMode"@, HAGS_ENABLED)]
}

/// Background processes that are demoted while a session lasts.
pub open spec fn demote_list() -> Seq<Seq<char>> {
    seq![
        "SearchIndexer"@,
        "SecurityHealthService"@,
        "SgrmBroker"@,
        "compattelrunner"@,
        "MsMpEng"@,
        "NisSrv"@,
        "WmiPrvSE"@,
        "spoolsv"@,
        "dllhost"@,
        "backgroundTaskHost"@,
        "RuntimeBroker"@,
        "ApplicationFrameHost"@,
        "SystemSettings"@,
        "SettingSyncHost"@,
        "OneDrive"@,
        "GoogleDriveFS"@,
        "Dropbox"@,
    ]
}

/// The row is demoted: a listed background process that is neither the
/// caller nor one of the system processes 0 and 4.
pub open spec fn demotable(entry: ProcessEntry, own_pid: u32) -> bool {
    entry.pid != own_pid && entry.pid != 0 && entry.pid != 4 && matches_any(
        demote_list(),
        process_name(entry.exe_file@),
    )
}

/// One demotion request for every demotable row, in snapshot order.
pub open spec fn demotion_effects(snapshot: Seq<ProcessEntry>, own_pid: u32) -> Seq<EffectView>
    decreases snapshot.len(),
{
    if snapshot.len() == 0 {
        Seq::empty()
    } else {
        let rest = demotion_effects(snapshot.drop_last(), own_pid);
        if demotable(snapshot.last(), own_pid) {
            rest.push(
                EffectView::SetPriority { pid: snapshot.last().pid, class: PriorityClass::Idle },
            )
        } else {
            rest
        }
    }
}

/// The ids among `effects` whose demotion succeeded, in order. A request
/// without a reported outcome counts as failed.
pub open spec fn demoted(effects: Seq<EffectView>, outcomes: Seq<bool>) -> Seq<u32>
    decreases effects.len(),
{
    if effects.len() == 0 {
        Seq::empty()
    } else {
        let rest = demoted(effects.drop_last(), outcomes);
        match effects.last() {
            EffectView::SetPriority { pid, class: PriorityClass::Idle } => if effects.len()
                <= outcomes.len() && outcomes[effects.len() - 1] {
                rest.push(pid)
            } else {
                rest
            },
            _ => rest,
        }
    }
}

/// Normal priority for exactly the given ids, in order.
pub open spec fn promote_effects(pids: Seq<u32>) -> Seq<EffectView> {
    Seq::new(
        pids.len(),
        |i: int| EffectView::SetPriority { pid: pids[i], class: PriorityClass::Normal },
    )
}

/// Whether a line of the TCP parameters names the auto-tuning level.
pub open spec fn mentions_autotuning(line: Seq<char>) -> bool {
    contains(lowercase(line), "auto-tuning"@) || contains(lowercase(line), "autotuning"@)
}

/// The level a line gives: for a line that names the auto-tuning level and
/// has a `:`, the second `:`-separated field, trimmed and in lower case.
pub open spec fn level_of(line: Seq<char>) -> Option<Seq<char>> {
    if mentions_autotuning(line) {
        match second_field(line) {
            Some(field) => Some(lowercase(trimmed(field))),
            None => None,
        }
    } else {
        None
    }
}

/// The level given by the first line that gives one.
pub open spec fn level_in(lines: Seq<Seq<char>>) -> Option<Seq<char>>
    decreases lines.len(),
{
    if lines.len() == 0 {
        None
    } else {
        match level_in(lines.drop_last()) {
            Some(level) => Some(level),
            None => level_of(lines.last()),
        }
    }
}

/// The auto-tuning level in the output of the TCP parameters query; `None`
/// when there is no output or no line gives a level.
pub open spec fn autotuning_level(output: Option<Seq<char>>) -> Option<Seq<char>> {
    match output {
        Some(text) => level_in(text_lines(text)),
        None => None,
    }
}

/// The network-tool request that sets the auto-tuning level.
pub open spec fn set_autotuning(level: Seq<char>) -> EffectView {
    run_tool("netsh"@, seq!["int"@, "tcp"@, "set"@, "global"@, "autotuninglevel="@ + level])
}

/// The level to restore: the captured one, or `normal`.
pub open spec fn level_or_normal(original: Option<Seq<char>>) -> Seq<char> {
    match original {
        Some(level) => level,
        None => "normal"@,
    }
}

/// Whether the TCP parameters show auto-tuning disabled: their lower-case
/// form contains `disabled`. Without output they do not.
pub open spec fn bufferbloat_active(output: Option<Seq<char>>) -> bool {
    match output {
        Some(text) => contains(lowercase(text), "disabled"@),
        None => false,
    }
}

/// The configuration values captured by the hardware tweaks. A slot is
/// filled when its tweak is applied and cleared when the tweak is restored.
/// Where a tweak has a mark (`mmcss_captured`, `large_pages_enabled`,
/// `hags_captured`), its slots are meaningful only while the mark is set,
/// and `None` then means that the value was absent.
#[derive(Clone, Copy, Debug, PartialEq, Eq)]
pub struct TweakCaptures {
    pub original_core_parking_min: Option<u32>,
    pub original_core_parking_max: Option<u32>,
    /// Whether the multimedia scheduler tweak was applied.
    pub mmcss_captured: bool,
    pub original_system_responsiveness: Option<u32>,
    pub original_no_lazy_mode: Option<u32>,
    pub original_scheduling_category: Option<u32>,
    pub original_sfio_priority: Option<u32>,
    pub original_background_only: Option<u32>,
    pub original_clock_rate: Option<u32>,
    /// Whether this session switched large pages on.
    pub large_pages_enabled: bool,
    pub original_large_system_cache: Option<u32>,
    pub original_large_page_minimum: Option<u32>,
    /// Whether the GPU scheduling tweak was applied.
    pub hags_captured: bool,
    pub original_hags_value: Option<u32>,
}

impl TweakCaptures {
    /// Nothing is captured.
    pub open spec fn is_fresh(&self) -> bool {
        *self == (TweakCaptures {
            original_core_parking_min: None,
            original_core_parking_max: None,
            mmcss_captured: false,
            original_system_responsiveness: None,
            original_no_lazy_mode: None,
            original_scheduling_category: None,
            original_sfio_priority: None,
            original_background_only: None,
            original_clock_rate: None,
            large_pages_enabled: false,
            original_large_system_cache: None,
            original_large_page_minimum: None,
            hags_captured: false,
            original_hags_value: None,
        })
    }

    /// The captures after `disable_core_parking` on `store`.
    pub open spec fn with_core_parking(&self, store: ConfigStore) -> TweakCaptures {
        TweakCaptures {
            original_core_parking_min: as_dword(store.value(core_parking_min())),
            original_core_parking_max: as_dword(store.value(core_parking_max())),
            ..*self
        }
    }

    /// The captures after `restore_core_parking`.
    pub open spec fn without_core_parking(&self) -> TweakCaptures {
        TweakCaptures { original_core_parking_min: None, original_core_parking_max: None, ..*self }
    }

    /// The captures after `enable_mmcss_boost` on `store`.
    pub open spec fn with_mmcss(&self, store: ConfigStore) -> TweakCaptures {
        TweakCaptures {
            mmcss_captured: true,
            original_system_responsiveness: as_dword(store.value(system_responsiveness())),
            original_no_lazy_mode: as_dword(store.value(no_lazy_mode())),
            original_scheduling_category: as_dword(store.value(scheduling_category())),
            original_sfio_priority: as_dword(store.value(sfio_priority())),
            original_background_only: as_dword(store.value(background_only())),
            original_clock_rate: as_dword(store.value(clock_rate())),
            ..*self
        }
    }

    /// The captures after `restore_mmcss`.
    pub open spec fn without_mmcss(&self) -> TweakCaptures {
        TweakCaptures {
            mmcss_captured: false,
            original_system_responsiveness: None,
            original_no_lazy_mode: None,
            original_scheduling_category: None,
            original_sfio_priority: None,
            original_background_only: None,
            original_clock_rate: None,
            ..*self
        }
    }

    /// The captures after `enable_large_pages` on `store`.
    pub open spec fn with_large_pages(&self, store: ConfigStore) -> TweakCaptures {
        TweakCaptures {
            large_pages_enabled: true,
            original_large_system_cache: as_dword(store.value(large_system_cache())),
            original_large_page_minimum: as_dword(store.value(large_page_minimum())),
            ..*self
        }
    }

    /// The captures after `restore_large_pages`.
    pub open spec fn without_large_pages(&self) -> TweakCaptures {
        TweakCaptures {
            large_pages_enabled: false,
            original_large_system_cache: None,
            original_large_page_minimum: None,
            ..*self
        }
    }

    /// The captures after `enable_hags` on `store`.
    pub open spec fn with_hags(&self, store: ConfigStore) -> TweakCaptures {
        TweakCaptures {
            hags_captured: true,
            original_hags_value: as_dword(store.value(hags_mode())),
            ..*self
        }
    }

    /// The captures after `restore_hags`.
    pub open spec fn without_hags(&self) -> TweakCaptures {
        TweakCaptures { hags_captured: false, original_hags_value: None, ..*self }
    }

    /// The captures after `enable`: those of every tweak that `settings`
    /// switch on, taken from `store`.
    pub open spec fn after_enable(
        &self,
        settings: AdvancedModuleSettings,
        store: ConfigStore,
    ) -> TweakCaptures {
        let a = if settings.disable_core_parking {
            self.with_core_parking(store)
        } else {
            *self
        };
        let b = if settings.mmcss_priority_boost {
            a.with_mmcss(store)
        } else {
            a
        };
        let c = if settings.enable_large_pages {
            b.with_large_pages(store)
        } else {
            b
        };
        if settings.enable_hags {
            c.with_hags(store)
        } else {
            c
        }
    }

    /// The captures after `disable`: those of every tweak that `settings`
    /// switch on are cleared.
    pub open spec fn after_disable(&self, settings: AdvancedModuleSettings) -> TweakCaptures {
        let a = if settings.disable_core_parking {
            self.without_core_parking()
        } else {
            *self
        };
        let b = if settings.mmcss_priority_boost {
            a.without_mmcss()
        } else {
            a
        };
        let c = if settings.enable_large_pages {
            b.without_large_pages()
        } else {
            b
        };
        if settings.enable_hags {
            c.without_hags()
        } else {
            c
        }
    }

    /// What `restore_core_parking` asks for: the captured bounds, or 50 and
    /// 100 where none is captured.
    pub open spec fn core_parking_restore_effects(&self) -> Seq<EffectView> {
        core_parking_effects(
            or_default(self.original_core_parking_min, DEFAULT_MIN_CORES) as nat,
            or_default(self.original_core_parking_max, DEFAULT_MAX_CORES) as nat,
        )
    }

    /// The four values of the games task put back as they were captured: a
    /// value that was absent is removed. Nothing without a capture.
    pub open spec fn games_task_restore_effects(&self) -> Seq<EffectView> {
        if self.mmcss_captured {
            seq![
                put_back(scheduling_category(), self.original_scheduling_category),
                put_back(sfio_priority(), self.original_sfio_priority),
                put_back(background_only(), self.original_background_only),
                put_back(clock_rate(), self.original_clock_rate),
            ]
        } else {
            Seq::empty()
        }
    }

    /// What `restore_mmcss` asks for: the responsiveness and the lazy-mode
    /// switch as they were captured, or 20 and 0 where none is captured;
    /// then the values of the games task.
    pub open spec fn mmcss_restore_effects(&self) -> Seq<EffectView> {
        seq![
            set_dword(
                Hive::LocalMachine,
                system_profile_path(),
                "SystemResponsiveness"@,
                or_default(self.original_system_responsiveness, DEFAULT_SYSTEM_RESPONSIVENESS),
            ),
            set_dword(
                Hive::LocalMachine,
                system_profile_path(),
                "NoLazyMode"@,
                or_default(self.original_no_lazy_mode, DEFAULT_NO_LAZY_MODE),
            ),
        ] + self.games_task_restore_effects()
    }

    /// What `restore_large_pages` asks for, if this session switched large
    /// pages on: the cache flag as it was captured, or off where none is
    /// captured; the large-page minimum as it was captured, removed where
    /// it was absent.
    pub open spec fn large_pages_restore_effects(&self) -> Seq<EffectView> {
        if self.large_pages_enabled {
            seq![
                set_dword(
                    Hive::LocalMachine,
                    memory_management_path(),
                    "LargeSystemCache"@,
                    or_default(self.original_large_system_cache, DEFAULT_LARGE_SYSTEM_CACHE),
                ),
                put_back(large_page_minimum(), self.original_large_page_minimum),
            ]
        } else {
            Seq::empty()
        }
    }

    /// What `restore_hags` asks for: the GPU scheduling mode as it was
    /// captured, removed where it was absent; nothing at all when nothing
    /// was captured.
    pub open spec fn hags_restore_effects(&self) -> Seq<EffectView> {
        if self.hags_captured {
            seq![put_back(hags_mode(), self.original_hags_value)]
        } else {
            Seq::empty()
        }
    }
}

/// The state of the hardware tweaks.
pub struct AdvancedModulesService {
    pub captures: TweakCaptures,
    /// The processes this session demoted.
    pub demoted_processes: Vec<u32>,
    pub original_autotuning_level: Option<String>,
}

impl AdvancedModulesService {
    /// Nothing is captured.
    pub open spec fn is_fresh(&self) -> bool {
        &&& self.captures.is_fresh()
        &&& self.demoted_processes@.len() == 0
        &&& self.original_autotuning_level.is_none()
    }

    /// What `enable` asks for: the tweaks that `settings` switch on, in the
    /// order core parking, multimedia scheduler, large pages, GPU
    /// scheduling, process demotion, network buffering.
    pub open spec fn enable_effects(settings: AdvancedModuleSettings, host: HostSnapshot) -> Seq<
        EffectView,
    > {
        (if settings.disable_core_parking {
            core_parking_effects(100, 100)
        } else {
            Seq::empty()
        }) + (if settings.mmcss_priority_boost {
            mmcss_effects()
        } else {
            Seq::empty()
        }) + (if settings.enable_large_pages {
            large_pages_effects()
        } else {
            Seq::empty()
        }) + (if settings.enable_hags {
            hags_effects()
        } else {
            Seq::empty()
        }) + (if settings.process_idle_demotion {
            demotion_effects(host.processes@, host.own_pid)
        } else {
            Seq::empty()
        }) + (if settings.lower_bufferbloat {
            seq![set_autotuning("disabled"@)]
        } else {
            Seq::empty()
        })
    }

    /// What `disable` asks for: the restore of every tweak that `settings`
    /// switch on, in the same order.
    pub open spec fn disable_effects(&self, settings: AdvancedModuleSettings) -> Seq<EffectView> {
        (if settings.disable_core_parking {
            self.captures.core_parking_restore_effects()
        } else {
            Seq::empty()
        }) + (if settings.mmcss_priority_boost {
            self.captures.mmcss_restore_effects()
        } else {
            Seq::empty()
        }) + (if settings.enable_large_pages {
            self.captures.large_pages_restore_effects()
        } else {
            Seq::empty()
        }) + (if settings.enable_hags {
            self.captures.hags_restore_effects()
        } else {
            Seq::empty()
        }) + (if settings.process_idle_demotion {
            promote_effects(self.demoted_processes@)
        } else {
            Seq::empty()
        }) + (if settings.lower_bufferbloat {
            seq![set_autotuning(level_or_normal(self.original_autotuning_level.deep_view()))]
        } else {
            Seq::empty()
        })
    }

    pub fn new() -> (s: Self)
        ensures
            s.is_fresh(),
    {
        AdvancedModulesService {
            captures: TweakCaptures {
                original_core_parking_min: None,
                original_core_parking_max: None,
                mmcss_captured: false,
                original_system_responsiveness: None,
                original_no_lazy_mode: None,
                original_scheduling_category: None,
                original_sfio_priority: None,
                original_background_only: None,
                original_clock_rate: None,
                large_pages_enabled: false,
                original_large_system_cache: None,
                original_large_page_minimum: None,
                hags_captured: false,
                original_hags_value: None,
            },
            demoted_processes: Vec::new(),
            original_autotuning_level: None,
        }
    }

    pub fn demote_list() -> (list: Vec<&'static str>)
        ensures
            list.deep_view() == demote_list(),
    {
        let list = vec![
            "SearchIndexer",
            "SecurityHealthService",
            "SgrmBroker",
            "compattelrunner",
            "MsMpEng",
            "NisSrv",
            "WmiPrvSE",
            "spoolsv",
            "dllhost",
            "backgroundTaskHost",
            "RuntimeBroker",
            "ApplicationFrameHost",
            "SystemSettings",
            "SettingSyncHost",
            "OneDrive",
            "GoogleDriveFS",
            "Dropbox",
        ];
        assert(list.deep_view() =~= demote_list());
        list
    }

    /// The three power-tool requests that set both parked-core percentages.
    fn core_parking_requests(min: u32, max: u32) -> (effects: Vec<Effect>)
        ensures
            effects.deep_view() == core_parking_effects(min as nat, max as nat),
    {
        let mut effects: Vec<Effect> = Vec::new();
        push_deep(&mut effects, Self::set_cores_request("CPMINCORES", min));
        push_deep(&mut effects, Self::set_cores_request("CPMAXCORES", max));
        let apply = vec!["/setactive", "scheme_current"];
        assert(apply.deep_view() =~= seq!["/setactive"@, "scheme_current"@]);
        push_deep(&mut effects, Effect::run_tool("powercfg", apply));
        assert(effects.deep_view() =~= core_parking_effects(min as nat, max as nat));
        effects
    }

    fn set_cores_request(alias: &'static str, percent: u32) -> (e: Effect)
        ensures
            e@ == set_cores(alias@, percent as nat),
    {
        let mut args: Vec<String> = Vec::new();
        push_deep(&mut args, "/setacvalueindex".to_owned());
        push_deep(&mut args, "scheme_current".to_owned());
        push_deep(&mut args, "sub_processor".to_owned());
        push_deep(&mut args, alias.to_owned());
        let mut number = String::new();
        push_decimal(&mut number, percent);
        assert(number@ =~= decimal(percent as nat));
        push_deep(&mut args, number);
        assert(args.deep_view() =~= seq![
            "/setacvalueindex"@,
            "scheme_current"@,
            "sub_processor"@,
            alias@,
            decimal(percent as nat),
        ]);
        Effect::Run { program: "powercfg".to_owned(), args, wait: true }
    }

    /// Captures the bounds of the parked-core setting, then asks for every
    /// core to stay unparked.
    pub fn disable_core_parking(&mut self, store: &ConfigStore) -> (effects: Vec<Effect>)
        ensures
            effects.deep_view() == core_parking_effects(100, 100),
            final(self).captures == old(self).captures.with_core_parking(*store),
            final(self).demoted_processes == old(self).demoted_processes,
            final(self).original_autotuning_level == old(self).original_autotuning_level,
    {
        let path =
            "SYSTEM\\CurrentControlSet\\Control\\Power\\PowerSettings\\54533251-82be-4824-96c1-47b60b740d00\\0cc5b647-c1df-4637-891a-dec35c318583";
        self.captures.original_core_parking_min = store.read_dword(
            Hive::LocalMachine,
            path,
            "ValueMin",
        );
        self.captures.original_core_parking_max = store.read_dword(
            Hive::LocalMachine,
            path,
            "ValueMax",
        );
        Self::core_parking_requests(100, 100)
    }

    /// Puts the parked-core percentages back: the captured values, or 50
    /// and 100 where none was captured. The capture is cleared.
    pub fn restore_core_parking(&mut self) -> (effects: Vec<Effect>)
        ensures
            effects.deep_view() == old(self).captures.core_parking_restore_effects(),
            final(self).captures == old(self).captures.without_core_parking(),
            final(self).demoted_processes == old(self).demoted_processes,
            final(self).original_autotuning_level == old(self).original_autotuning_level,
    {
        let min = match self.captures.original_core_parking_min {
            Some(v) => v,
            None => DEFAULT_MIN_CORES,
        };
        let max = match self.captures.original_core_parking_max {
            Some(v) => v,
            None => DEFAULT_MAX_CORES,
        };
        self.captures.original_core_parking_min = None;
        self.captures.original_core_parking_max = None;
        Self::core_parking_requests(min, max)
    }

    /// Captures every value the multimedia scheduler boost writes, then
    /// asks for the boost.
    pub fn enable_mmcss_boost(&mut self, store: &ConfigStore) -> (effects: Vec<Effect>)
        ensures
            effects.deep_view() == mmcss_effects(),
            final(self).captures == old(self).captures.with_mmcss(*store),
            final(self).demoted_processes == old(self).demoted_processes,
            final(self).original_autotuning_level == old(self).original_autotuning_level,
    {
        let profile = "SOFTWARE\\Microsoft\\Windows NT\\CurrentVersion\\Multimedia\\SystemProfile";
        let games =
            "SOFTWARE\\Microsoft\\Windows NT\\CurrentVersion\\Multimedia\\SystemProfile\\Tasks\\Games";
        let h = Hive::LocalMachine;
        self.captures.mmcss_captured = true;
        self.captures.original_system_responsiveness = store.read_dword(
            h,
            profile,
            "SystemResponsiveness",
        );
        self.captures.original_no_lazy_mode = store.read_dword(h, profile, "NoLazyMode");
        self.captures.original_scheduling_category = store.read_dword(
            h,
            games,
            "Scheduling Category",
        );
        self.captures.original_sfio_priority = store.read_dword(h, games, "SFIO Priority");
        self.captures.original_background_only = store.read_dword(h, games, "Background Only");
        self.captures.original_clock_rate = store.read_dword(h, games, "Clock Rate");
        let mut effects: Vec<Effect> = Vec::new();
        push_deep(&mut effects, Effect::set_dword(h, profile, "SystemResponsiveness", 0));
        push_deep(&mut effects, Effect::set_dword(h, profile, "NoLazyMode", 1));
        push_deep(&mut effects, Effect::set_dword(h, games, "Scheduling Category", 2));
        push_deep(&mut effects, Effect::set_dword(h, games, "SFIO Priority", 2));
        push_deep(&mut effects, Effect::set_dword(h, games, "Background Only", 0));
        push_deep(&mut effects, Effect::set_dword(h, games, "Clock Rate", 10000));
        assert(effects.deep_view() =~= mmcss_effects());
        effects
    }

    /// Puts the multimedia scheduler back. The responsiveness and the
    /// lazy-mode switch get their captured values, or 20 and 0 where none
    /// was captured; the values of the games task are put back as they
    /// were, those that were absent are removed. The capture is cleared.
    pub fn restore_mmcss(&mut self) -> (effects: Vec<Effect>)
        ensures
            effects.deep_view() == old(self).captures.mmcss_restore_effects(),
            final(self).captures == old(self).captures.without_mmcss(),
            final(self).demoted_processes == old(self).demoted_processes,
            final(self).original_autotuning_level == old(self).original_autotuning_level,
    {
        let profile = "SOFTWARE\\Microsoft\\Windows NT\\CurrentVersion\\Multimedia\\SystemProfile";
        let games =
            "SOFTWARE\\Microsoft\\Windows NT\\CurrentVersion\\Multimedia\\SystemProfile\\Tasks\\Games";
        let h = Hive::LocalMachine;
        let c = self.captures;
        let responsiveness = match c.original_system_responsiveness {
            Some(v) => v,
            None => DEFAULT_SYSTEM_RESPONSIVENESS,
        };
        let lazy_mode = match c.original_no_lazy_mode {
            Some(v) => v,
            None => DEFAULT_NO_LAZY_MODE,
        };
        let mut effects: Vec<Effect> = Vec::new();
        push_deep(
            &mut effects,
            Effect::set_dword(h, profile, "SystemResponsiveness", responsiveness),
        );
        push_deep(&mut effects, Effect::set_dword(h, profile, "NoLazyMode", lazy_mode));
        if c.mmcss_captured {
            push_deep(
                &mut effects,
                Effect::restore_dword(h, games, "Scheduling Category", c.original_scheduling_category),
            );
            push_deep(
                &mut effects,
                Effect::restore_dword(h, games, "SFIO Priority", c.original_sfio_priority),
            );
            push_deep(
                &mut effects,
                Effect::restore_dword(h, games, "Background Only", c.original_background_only),
            );
            push_deep(
                &mut effects,
                Effect::restore_dword(h, games, "Clock Rate", c.original_clock_rate),
            );
        }
        assert(effects.deep_view() =~= old(self).captures.mmcss_restore_effects());
        self.captures.mmcss_captured = false;
        self.captures.original_system_responsiveness = None;
        self.captures.original_no_lazy_mode = None;
        self.captures.original_scheduling_category = None;
        self.captures.original_sfio_priority = None;
        self.captures.original_background_only = None;
        self.captures.original_clock_rate = None;
        effects
    }

    /// Captures the system-cache flag and the large-page minimum, then asks
    /// for both to be set.
    pub fn enable_large_pages(&mut self, store: &ConfigStore) -> (effects: Vec<Effect>)
        ensures
            effects.deep_view() == large_pages_effects(),
            final(self).captures == old(self).captures.with_large_pages(*store),
            final(self).demoted_processes == old(self).demoted_processes,
            final(self).original_autotuning_level == old(self).original_autotuning_level,
    {
        let path = "SYSTEM\\CurrentControlSet\\Control\\Session Manager\\Memory Management";
        self.captures.large_pages_enabled = true;
        self.captures.original_large_system_cache = store.read_dword(
            Hive::LocalMachine,
            path,
            "LargeSystemCache",
        );
        self.captures.original_large_page_minimum = store.read_dword(
            Hive::LocalMachine,
            path,
            "LargePageMinimum",
        );
        let mut effects: Vec<Effect> = Vec::new();
        push_deep(&mut effects, Effect::set_dword(Hive::LocalMachine, path, "LargeSystemCache", 1));
        push_deep(&mut effects, Effect::set_dword(Hive::LocalMachine, path, "LargePageMinimum", 1));
        assert(effects.deep_view() =~= large_pages_effects());
        effects
    }

    /// Puts large pages back, if this session switched them on: the cache
    /// flag gets its captured value, or is switched off where none was
    /// captured; the large-page minimum is put back as it was, and removed
    /// if it was absent. The capture is cleared.
    pub fn restore_large_pages(&mut self) -> (effects: Vec<Effect>)
        ensures
            effects.deep_view() == old(self).captures.large_pages_restore_effects(),
            final(self).captures == old(self).captures.without_large_pages(),
            final(self).demoted_processes == old(self).demoted_processes,
            final(self).original_autotuning_level == old(self).original_autotuning_level,
    {
        let path = "SYSTEM\\CurrentControlSet\\Control\\Session Manager\\Memory Management";
        let c = self.captures;
        let mut effects: Vec<Effect> = Vec::new();
        if c.large_pages_enabled {
            let cache = match c.original_large_system_cache {
                Some(v) => v,
                None => DEFAULT_LARGE_SYSTEM_CACHE,
            };
            push_deep(
                &mut effects,
                Effect::set_dword(Hive::LocalMachine, path, "LargeSystemCache", cache),
            );
            push_deep(
                &mut effects,
                Effect::restore_dword(
                    Hive::LocalMachine,
                    path,
                    "LargePageMinimum",
                    c.original_large_page_minimum,
                ),
            );
        }
        assert(effects.deep_view() =~= old(self).captures.large_pages_restore_effects());
        self.captures.large_pages_enabled = false;
        self.captures.original_large_system_cache = None;
        self.captures.original_large_page_minimum = None;
        effects
    }

    /// Captures the GPU scheduling mode, then asks for hardware-accelerated
    /// scheduling.
    pub fn enable_hags(&mut self, store: &ConfigStore) -> (effects: Vec<Effect>)
        ensures
            effects.deep_view() == hags_effects(),
            final(self).captures == old(self).captures.with_hags(*store),
            final(self).demoted_processes == old(self).demoted_processes,
            final(self).original_autotuning_level == old(self).original_autotuning_level,
    {
        let path = "SYSTEM\\CurrentControlSet\\Control\\GraphicsDrivers";
        self.captures.hags_captured = true;
        self.captures.original_hags_value = store.read_dword(Hive::LocalMachine, path, "HwSchMode");
        let mut effects: Vec<Effect> = Vec::new();
        push_deep(
            &mut effects,
            Effect::set_dword(Hive::LocalMachine, path, "HwSchMode", HAGS_ENABLED),
        );
        assert(effects.deep_view() =~= hags_effects());
        effects
    }

    /// Puts the GPU scheduling mode back as it was captured: a mode that
    /// was absent is removed again. When nothing was captured nothing is
    /// asked for. The capture is cleared.
    pub fn restore_hags(&mut self) -> (effects: Vec<Effect>)
        ensures
            effects.deep_view() == old(self).captures.hags_restore_effects(),
            final(self).captures == old(self).captures.without_hags(),
            final(self).demoted_processes == old(self).demoted_processes,
            final(self).original_autotuning_level == old(self).original_autotuning_level,
    {
        let path = "SYSTEM\\CurrentControlSet\\Control\\GraphicsDrivers";
        let mut effects: Vec<Effect> = Vec::new();
        if self.captures.hags_captured {
            push_deep(
                &mut effects,
                Effect::restore_dword(
                    Hive::LocalMachine,
                    path,
                    "HwSchMode",
                    self.captures.original_hags_value,
                ),
            );
        }
        assert(effects.deep_view() =~= old(self).captures.hags_restore_effects());
        self.captures.hags_captured = false;
        self.captures.original_hags_value = None;
        effects
    }

    /// Demotion requests for the listed background processes of the
    /// snapshot. Which of them succeeded is recorded by `record_demoted`.
    pub fn enable_process_demotion(snapshot: &Vec<ProcessEntry>, own_pid: u32) -> (effects: Vec<
        Effect,
    >)
        ensures
            effects.deep_view() == demotion_effects(snapshot@, own_pid),
    {
        let list = Self::demote_list();
        let mut effects: Vec<Effect> = Vec::new();
        let mut i: usize = 0;
        assert(effects.deep_view() =~= Seq::<EffectView>::empty());
        assert(snapshot@.subrange(0, 0) =~= Seq::<ProcessEntry>::empty());
        while i < snapshot.len()
            invariant
                i <= snapshot@.len(),
                list.deep_view() == demote_list(),
                effects.deep_view() == demotion_effects(snapshot@.subrange(0, i as int), own_pid),
            decreases snapshot@.len() - i,
        {
            proof {
                let upto = snapshot@.subrange(0, i as int + 1);
                assert(upto.drop_last() =~= snapshot@.subrange(0, i as int));
                assert(upto.last() == snapshot@[i as int]);
            }
            let pid = snapshot[i].pid;
            if pid != own_pid && pid != 0 && pid != 4 {
                let name = ProcessService::extract_process_name(snapshot[i].exe_file.as_slice());
                if in_list(&list, name.as_slice()) {
                    push_deep(&mut effects, Effect::SetPriority { pid, class: PriorityClass::Idle });
                }
            }
            i += 1;
        }
        assert(snapshot@.subrange(0, snapshot@.len() as int) =~= snapshot@);
        effects
    }

    /// Records the processes that were demoted: the ids of the demotion
    /// requests in `effects` whose outcome, at the same position in
    /// `outcomes`, is a success. They replace the recorded ones.
    pub fn record_demoted(&mut self, effects: &Vec<Effect>, outcomes: &Vec<bool>)
        ensures
            final(self).demoted_processes@ == demoted(effects.deep_view(), outcomes@),
            final(self).captures == old(self).captures,
            final(self).original_autotuning_level == old(self).original_autotuning_level,
    {
        let mut pids: Vec<u32> = Vec::new();
        let mut i: usize = 0;
        assert(effects.deep_view().subrange(0, 0) =~= Seq::<EffectView>::empty());
        while i < effects.len()
            invariant
                i <= effects@.len(),
                pids@ == demoted(effects.deep_view().subrange(0, i as int), outcomes@),
            decreases effects@.len() - i,
        {
            proof {
                let upto = effects.deep_view().subrange(0, i as int + 1);
                assert(upto.drop_last() =~= effects.deep_view().subrange(0, i as int));
                assert(upto.last() == effects@[i as int]@);
            }
            match &effects[i] {
                Effect::SetPriority { pid, class: PriorityClass::Idle } => {
                    if i < outcomes.len() && outcomes[i] {
                        pids.push(*pid);
                    }
                },
                _ => {},
            }
            i += 1;
        }
        assert(effects.deep_view().subrange(0, effects@.len() as int) =~= effects.deep_view());
        self.demoted_processes = pids;
    }

    /// Normal priority for exactly the recorded processes; the record is
    /// cleared.
    pub fn restore_process_priority(&mut self) -> (effects: Vec<Effect>)
        ensures
            effects.deep_view() == promote_effects(old(self).demoted_processes@),
            final(self).demoted_processes@ == Seq::<u32>::empty(),
            final(self).captures == old(self).captures,
            final(self).original_autotuning_level == old(self).original_autotuning_level,
    {
        let mut effects: Vec<Effect> = Vec::new();
        let mut i: usize = 0;
        assert(effects.deep_view() =~= promote_effects(self.demoted_processes@.subrange(0, 0)));
        while i < self.demoted_processes.len()
            invariant
                i <= self.demoted_processes@.len(),
                *self == *old(self),
                effects.deep_view() == promote_effects(
                    self.demoted_processes@.subrange(0, i as int),
                ),
            decreases self.demoted_processes@.len() - i,
        {
            push_deep(
                &mut effects,
                Effect::SetPriority { pid: self.demoted_processes[i], class: PriorityClass::Normal },
            );
            assert(effects.deep_view() =~= promote_effects(
                self.demoted_processes@.subrange(0, i as int + 1),
            ));
            i += 1;
        }
        assert(self.demoted_processes@.subrange(0, self.demoted_processes@.len() as int)
            =~= self.demoted_processes@);
        self.demoted_processes = Vec::new();
        assert(self.demoted_processes@ =~= Seq::<u32>::empty());
        effects
    }

    /// The level that one line of the TCP parameters gives, with the
    /// lower-case form of the line given.
    pub fn level_of_line(line: &str, lowered: &str) -> (field: Option<String>)
        ensures
            field.deep_view() == if contains(lowered@, "auto-tuning"@) || contains(
                lowered@,
                "autotuning"@,
            ) {
                second_field(line@)
            } else {
                None
            },
    {
        let low = chars_of(lowered);
        if has_substring(&low, &chars_of("auto-tuning")) || has_substring(
            &low,
            &chars_of("autotuning"),
        ) {
            split_second_field(line)
        } else {
            None
        }
    }

    /// The level given by the first of `all` that gives one.
    pub fn level_in_lines(all: &Vec<String>) -> (level: Option<String>)
        ensures
            level.deep_view() == level_in(all.deep_view()),
    {
        let mut i: usize = 0;
        assert(all.deep_view().subrange(0, 0) =~= Seq::<Seq<char>>::empty());
        while i < all.len()
            invariant
                i <= all@.len(),
                level_in(all.deep_view().subrange(0, i as int)).is_none(),
            decreases all@.len() - i,
        {
            proof {
                let upto = all.deep_view().subrange(0, i as int + 1);
                assert(upto.drop_last() =~= all.deep_view().subrange(0, i as int));
                assert(upto.last() == all@[i as int]@);
            }
            let line = all[i].as_str();
            let lowered = to_lowercase(line);
            match Self::level_of_line(line, lowered.as_str()) {
                Some(field) => {
                    let level = to_lowercase(trim(field.as_str()).as_str());
                    proof {
                        let upto = all.deep_view().subrange(0, i as int + 1);
                        assert(Some(field).deep_view() == Some(field@));
                        assert(second_field(line@) == Some(field@));
                        assert(mentions_autotuning(line@));
                        assert(level_of(upto.last()) == Some(level@));
                        assert(level_in(upto) == Some(level@));
                        Self::lemma_level_found(all.deep_view(), i as int + 1, all@.len() as int);
                        assert(all.deep_view().subrange(0, all@.len() as int) =~= all.deep_view());
                    }
                    return Some(level);
                },
                None => {},
            }
            i += 1;
        }
        assert(all.deep_view().subrange(0, all@.len() as int) =~= all.deep_view());
        None
    }

    /// The auto-tuning level in the output of the TCP parameters query.
    pub fn parse_autotuning_level(output: Option<&str>) -> (level: Option<String>)
        ensures
            level.deep_view() == autotuning_level(output.deep_view()),
    {
        match output {
            Some(text) => Self::level_in_lines(&lines(text)),
            None => None,
        }
    }

    /// Once a prefix of the lines gives a level, every longer prefix gives
    /// the same.
    proof fn lemma_level_found(lines: Seq<Seq<char>>, found: int, upto: int)
        requires
            0 <= found <= upto <= lines.len(),
            level_in(lines.subrange(0, found)).is_some(),
        ensures
            level_in(lines.subrange(0, upto)) == level_in(lines.subrange(0, found)),
        decreases upto - found,
    {
        if found < upto {
            Self::lemma_level_found(lines, found, upto - 1);
            assert(lines.subrange(0, upto).drop_last() =~= lines.subrange(0, upto - 1));
        }
    }

    /// The network-tool request that sets the auto-tuning level.
    fn autotuning_request(level: &str) -> (e: Effect)
        ensures
            e@ == set_autotuning(level@),
    {
        let mut args: Vec<String> = Vec::new();
        push_deep(&mut args, "int".to_owned());
        push_deep(&mut args, "tcp".to_owned());
        push_deep(&mut args, "set".to_owned());
        push_deep(&mut args, "global".to_owned());
        let mut last = "autotuninglevel=".to_owned();
        last.append(level);
        push_deep(&mut args, last);
        assert(args.deep_view() =~= seq![
            "int"@,
            "tcp"@,
            "set"@,
            "global"@,
            "autotuninglevel="@ + level@,
        ]);
        Effect::Run { program: "netsh".to_owned(), args, wait: true }
    }

    /// Captures the auto-tuning level from the output of the TCP parameters
    /// query, then asks for auto-tuning to be disabled.
    pub fn enable_lower_bufferbloat(&mut self, output: Option<&str>) -> (effects: Vec<Effect>)
        ensures
            effects.deep_view() == seq![set_autotuning("disabled"@)],
            final(self).original_autotuning_level.deep_view() == autotuning_level(
                output.deep_view(),
            ),
            final(self).captures == old(self).captures,
            final(self).demoted_processes == old(self).demoted_processes,
    {
        self.original_autotuning_level = Self::parse_autotuning_level(output);
        let mut effects: Vec<Effect> = Vec::new();
        push_deep(&mut effects, Self::autotuning_request("disabled"));
        assert(effects.deep_view() =~= seq![set_autotuning("disabled"@)]);
        effects
    }

    /// Puts the auto-tuning level back: the captured one, or `normal` when
    /// none was captured. The capture is cleared.
    pub fn restore_bufferbloat(&mut self) -> (effects: Vec<Effect>)
        ensures
            effects.deep_view() == seq![
                set_autotuning(level_or_normal(old(self).original_autotuning_level.deep_view())),
            ],
            final(self).original_autotuning_level.is_none(),
            final(self).captures == old(self).captures,
            final(self).demoted_processes == old(self).demoted_processes,
    {
        let request = match &self.original_autotuning_level {
            Some(level) => Self::autotuning_request(level.as_str()),
            None => Self::autotuning_request("normal"),
        };
        let mut effects: Vec<Effect> = Vec::new();
        push_deep(&mut effects, request);
        assert(effects.deep_view() =~= seq![
            set_autotuning(level_or_normal(old(self).original_autotuning_level.deep_view())),
        ]);
        self.original_autotuning_level = None;
        effects
    }

    /// Whether the TCP parameters, given in lower case, show auto-tuning
    /// disabled.
    pub fn shows_disabled(lowered: &str) -> (r: bool)
        ensures
            r == contains(lowered@, "disabled"@),
    {
        has_substring(&chars_of(lowered), &chars_of("disabled"))
    }

    /// Whether the network buffer tweak is in force on the host, judged by
    /// the output of the TCP parameters query.
    pub fn get_bufferbloat_status(output: Option<&str>) -> (active: bool)
        ensures
            active == bufferbloat_active(output.deep_view()),
    {
        match output {
            Some(text) => {
                let lowered = to_lowercase(text);
                Self::shows_disabled(lowered.as_str())
            },
            None => false,
        }
    }

    /// Switches the network buffer tweak on for good, outside any session.
    pub fn set_bufferbloat_enabled() -> (effects: Vec<Effect>)
        ensures
            effects.deep_view() == seq![set_autotuning("disabled"@)],
    {
        let mut effects: Vec<Effect> = Vec::new();
        push_deep(&mut effects, Self::autotuning_request("disabled"));
        assert(effects.deep_view() =~= seq![set_autotuning("disabled"@)]);
        effects
    }

    /// Switches the network buffer tweak off for good, outside any session.
    pub fn set_bufferbloat_disabled() -> (effects: Vec<Effect>)
        ensures
            effects.deep_view() == seq![set_autotuning("normal"@)],
    {
        let mut effects: Vec<Effect> = Vec::new();
        push_deep(&mut effects, Self::autotuning_request("normal"));
        assert(effects.deep_view() =~= seq![set_autotuning("normal"@)]);
        effects
    }

    /// The permanent toggle: switches the network buffer tweak off when it
    /// is in force, and on when it is not.
    pub fn toggle_bufferbloat(active: bool) -> (effects: Vec<Effect>)
        ensures
            effects.deep_view() == seq![
                set_autotuning(
                    if active {
                        "normal"@
                    } else {
                        "disabled"@
                    },
                ),
            ],
    {
        if active {
            Self::set_bufferbloat_disabled()
        } else {
            Self::set_bufferbloat_enabled()
        }
    }

    /// Applies every tweak that `settings` switch on, capturing what each
    /// replaces. The demoted processes are recorded later, by
    /// `record_enable`, from the outcomes of the demotion requests.
    pub fn enable(&mut self, settings: &AdvancedModuleSettings, host: &HostSnapshot) -> (effects:
        Vec<Effect>)
        ensures
            effects.deep_view() == Self::enable_effects(*settings, *host),
            final(self).captures == old(self).captures.after_enable(*settings, host.store),
            final(self).demoted_processes == old(self).demoted_processes,
            final(self).original_autotuning_level.deep_view() == if settings.lower_bufferbloat {
                autotuning_level(host.tcp_global.deep_view())
            } else {
                old(self).original_autotuning_level.deep_view()
            },
    {
        let mut effects: Vec<Effect> = Vec::new();
        assert(effects.deep_view() =~= Seq::<EffectView>::empty());
        if settings.disable_core_parking {
            append_deep(&mut effects, self.disable_core_parking(&host.store));
        }
        if settings.mmcss_priority_boost {
            append_deep(&mut effects, self.enable_mmcss_boost(&host.store));
        }
        if settings.enable_large_pages {
            append_deep(&mut effects, self.enable_large_pages(&host.store));
        }
        if settings.enable_hags {
            append_deep(&mut effects, self.enable_hags(&host.store));
        }
        if settings.process_idle_demotion {
            append_deep(
                &mut effects,
                Self::enable_process_demotion(&host.processes, host.own_pid),
            );
        }
        if settings.lower_bufferbloat {
            let output = match &host.tcp_global {
                Some(text) => Some(text.as_str()),
                None => None,
            };
            append_deep(&mut effects, self.enable_lower_bufferbloat(output));
        }
        assert(effects.deep_view() =~= Self::enable_effects(*settings, *host));
        effects
    }

    /// Completes `enable` once its requests were carried out: when process
    /// demotion is switched on, the processes whose demotion succeeded are
    /// recorded; otherwise the record stays as it was.
    pub fn record_enable(
        &mut self,
        settings: &AdvancedModuleSettings,
        effects: &Vec<Effect>,
        outcomes: &Vec<bool>,
    )
        ensures
            final(self).demoted_processes@ == if settings.process_idle_demotion {
                demoted(effects.deep_view(), outcomes@)
            } else {
                old(self).demoted_processes@
            },
            final(self).captures == old(self).captures,
            final(self).original_autotuning_level == old(self).original_autotuning_level,
    {
        if settings.process_idle_demotion {
            self.record_demoted(effects, outcomes);
        }
    }

    /// Restores every tweak that `settings` switch on and clears its
    /// capture.
    pub fn disable(&mut self, settings: &AdvancedModuleSettings) -> (effects: Vec<Effect>)
        ensures
            effects.deep_view() == old(self).disable_effects(*settings),
            final(self).captures == old(self).captures.after_disable(*settings),
            final(self).demoted_processes@ == if settings.process_idle_demotion {
                Seq::empty()
            } else {
                old(self).demoted_processes@
            },
            final(self).original_autotuning_level.deep_view() == if settings.lower_bufferbloat {
                None
            } else {
                old(self).original_autotuning_level.deep_view()
            },
    {
        let mut effects: Vec<Effect> = Vec::new();
        assert(effects.deep_view() =~= Seq::<EffectView>::empty());
        if settings.disable_core_parking {
            append_deep(&mut effects, self.restore_core_parking());
        }
        if settings.mmcss_priority_boost {
            append_deep(&mut effects, self.restore_mmcss());
        }
        if settings.enable_large_pages {
            append_deep(&mut effects, self.restore_large_pages());
        }
        if settings.enable_hags {
            append_deep(&mut effects, self.restore_hags());
        }
        if settings.process_idle_demotion {
            append_deep(&mut effects, self.restore_process_priority());
        }
        if settings.lower_bufferbloat {
            append_deep(&mut effects, self.restore_bufferbloat());
        }
        assert(effects.deep_view() =~= old(self).disable_effects(*settings));
        effects
    }
}

/// Whether a tweak that `settings` switch on writes to `at`.
pub open spec fn is_tweaked(settings: AdvancedModuleSettings, at: Location) -> bool {
    ||| settings.mmcss_priority_boost && (at == system_responsiveness() || at == no_lazy_mode()
        || at == scheduling_category() || at == sfio_priority() || at == background_only() || at
        == clock_rate())
    ||| settings.enable_large_pages && (at == large_system_cache() || at == large_page_minimum())
    ||| settings.enable_hags && at == hags_mode()
}

/// What a tweaked location holds after tweak and restore, given what it
/// held before: the same, except that the three values with a documented
/// default hold that default when they were absent.
pub open spec fn restored(at: Location, before: Option<StoredValue>) -> Option<StoredValue> {
    if at == system_responsiveness() {
        Some(StoredValue::Dword(or_default(as_dword(before), DEFAULT_SYSTEM_RESPONSIVENESS)))
    } else if at == no_lazy_mode() {
        Some(StoredValue::Dword(or_default(as_dword(before), DEFAULT_NO_LAZY_MODE)))
    } else if at == large_system_cache() {
        Some(StoredValue::Dword(or_default(as_dword(before), DEFAULT_LARGE_SYSTEM_CACHE)))
    } else {
        before
    }
}

/// The tweaked locations are pairwise different.
pub proof fn lemma_tweaked_locations_differ()
    ensures
        system_responsiveness() != no_lazy_mode(),
        scheduling_category() != sfio_priority(),
        scheduling_category() != background_only(),
        scheduling_category() != clock_rate(),
        sfio_priority() != background_only(),
        sfio_priority() != clock_rate(),
        background_only() != clock_rate(),
        large_system_cache() != large_page_minimum(),
        system_responsiveness().name.len() == 20,
        no_lazy_mode().name.len() == 10 && no_lazy_mode().name[0] == 'N',
        scheduling_category().name.len() == 19,
        sfio_priority().name.len() == 13,
        background_only().name.len() == 15,
        clock_rate().name.len() == 10 && clock_rate().name[0] == 'C',
        large_system_cache().name.len() == 16,
        large_page_minimum().name.len() == 16,
        hags_mode().name.len() == 9,
{
    reveal_strlit("SystemResponsiveness");
    reveal_strlit("NoLazyMode");
    reveal_strlit("Scheduling Category");
    reveal_strlit("SFIO Priority");
    reveal_strlit("Background Only");
    reveal_strlit("Clock Rate");
    reveal_strlit("LargeSystemCache");
    reveal_strlit("LargePageMinimum");
    reveal_strlit("HwSchMode");
    assert("SystemResponsiveness"@.len() == 20);
    assert("NoLazyMode"@.len() == 10 && "NoLazyMode"@[0] == 'N');
    assert("Scheduling Category"@.len() == 19);
    assert("SFIO Priority"@.len() == 13);
    assert("Background Only"@.len() == 15);
    assert("Clock Rate"@.len() == 10 && "Clock Rate"@[0] == 'C');
    assert("LargeSystemCache"@.len() == 16 && "LargeSystemCache"@[5] == 'S');
    assert("LargePageMinimum"@.len() == 16 && "LargePageMinimum"@[5] == 'P');
    assert("HwSchMode"@.len() == 9);
}

/// GPU scheduling, round trip: when the scheduling mode held an integer or
/// was absent, tweak and restore leave it as it was; a mode that was
/// absent is absent again.
pub proof fn lemma_hags_round_trip(captures: TweakCaptures, store: ConfigStore)
    requires
        integer_or_absent(store.value(hags_mode())),
    ensures
        replay(
            store.value(hags_mode()),
            hags_effects() + captures.with_hags(store).hags_restore_effects(),
            hags_mode(),
        ) == store.value(hags_mode()),
{
    let at = hags_mode();
    let undo = captures.with_hags(store).hags_restore_effects();
    lemma_replay_concat(store.value(at), hags_effects(), undo, at);
    lemma_single_writer(replay(store.value(at), hags_effects(), at), undo, 0, at);
}

/// GPU scheduling, nothing captured: a restore without a preceding tweak
/// asks for nothing at all; it writes no fallback.
pub proof fn lemma_hags_restore_without_capture(captures: TweakCaptures)
    requires
        !captures.hags_captured,
    ensures
        captures.hags_restore_effects().len() == 0,
{
}

/// The multimedia scheduler restore leaves, at each of the six values the
/// boost writes, what `restored` says, whatever was written in between.
pub proof fn lemma_scheduler_puts_back(
    c: TweakCaptures,
    store: ConfigStore,
    between: Option<StoredValue>,
    at: Location,
)
    requires
        c == c.with_mmcss(store),
        at == system_responsiveness() || at == no_lazy_mode() || at == scheduling_category() || at
            == sfio_priority() || at == background_only() || at == clock_rate(),
        integer_or_absent(store.value(at)),
    ensures
        replay(between, c.mmcss_restore_effects(), at) == restored(at, store.value(at)),
{
    lemma_tweaked_locations_differ();
    let undo = c.mmcss_restore_effects();
    assert(undo =~= seq![
        set_dword(
            Hive::LocalMachine,
            system_profile_path(),
            "SystemResponsiveness"@,
            or_default(c.original_system_responsiveness, DEFAULT_SYSTEM_RESPONSIVENESS),
        ),
        set_dword(
            Hive::LocalMachine,
            system_profile_path(),
            "NoLazyMode"@,
            or_default(c.original_no_lazy_mode, DEFAULT_NO_LAZY_MODE),
        ),
        put_back(scheduling_category(), c.original_scheduling_category),
        put_back(sfio_priority(), c.original_sfio_priority),
        put_back(background_only(), c.original_background_only),
        put_back(clock_rate(), c.original_clock_rate),
    ]);
    let k: int = if at == system_responsiveness() {
        0
    } else if at == no_lazy_mode() {
        1
    } else if at == scheduling_category() {
        2
    } else if at == sfio_priority() {
        3
    } else if at == background_only() {
        4
    } else {
        5
    };
    lemma_single_writer(between, undo, k, at);
}

/// The large-page restore leaves, at the cache flag and the large-page
/// minimum, what `restored` says, whatever was written in between.
pub proof fn lemma_pages_puts_back(
    c: TweakCaptures,
    store: ConfigStore,
    between: Option<StoredValue>,
    at: Location,
)
    requires
        c == c.with_large_pages(store),
        at == large_system_cache() || at == large_page_minimum(),
        integer_or_absent(store.value(at)),
    ensures
        replay(between, c.large_pages_restore_effects(), at) == restored(at, store.value(at)),
{
    lemma_tweaked_locations_differ();
    let k: int = if at == large_system_cache() {
        0
    } else {
        1
    };
    lemma_single_writer(between, c.large_pages_restore_effects(), k, at);
}

/// The GPU scheduling restore leaves the mode as it was captured, whatever
/// was written in between.
pub proof fn lemma_gpu_puts_back(c: TweakCaptures, store: ConfigStore, between: Option<StoredValue>)
    requires
        c == c.with_hags(store),
        integer_or_absent(store.value(hags_mode())),
    ensures
        replay(between, c.hags_restore_effects(), hags_mode()) == store.value(hags_mode()),
{
    lemma_single_writer(between, c.hags_restore_effects(), 0, hags_mode());
}

/// Each restore writes only to the values of its own tweak.
pub proof fn lemma_restores_keep_apart(c: TweakCaptures, pids: Seq<u32>, level: Seq<char>, at: Location)
    ensures
        spares(c.core_parking_restore_effects(), at),
        spares(promote_effects(pids), at),
        spares(seq![set_autotuning(level)], at),
        at == large_system_cache() || at == large_page_minimum() || at == hags_mode() ==> spares(
            c.mmcss_restore_effects(),
            at,
        ),
        at.name != "LargeSystemCache"@ && at.name != "LargePageMinimum"@ ==> spares(
            c.large_pages_restore_effects(),
            at,
        ),
        at != hags_mode() ==> spares(c.hags_restore_effects(), at),
{
    lemma_tweaked_locations_differ();
    if at == large_system_cache() || at == large_page_minimum() || at == hags_mode() {
        assert(spares(c.games_task_restore_effects(), at));
        lemma_spares_concat(
            seq![
                set_dword(
                    Hive::LocalMachine,
                    system_profile_path(),
                    "SystemResponsiveness"@,
                    or_default(c.original_system_responsiveness, DEFAULT_SYSTEM_RESPONSIVENESS),
                ),
                set_dword(
                    Hive::LocalMachine,
                    system_profile_path(),
                    "NoLazyMode"@,
                    or_default(c.original_no_lazy_mode, DEFAULT_NO_LAZY_MODE),
                ),
            ],
            c.games_task_restore_effects(),
            at,
        );
    }
}

/// Round trip of the hardware tweaks. At every configuration value that a
/// switched-on tweak writes, if it held an integer or nothing, applying the
/// tweaks and restoring them leaves what `restored` says: the value it
/// held before, an absent value absent again; only the responsiveness, the
/// lazy-mode switch and the cache flag hold their documented default when
/// they were absent.
pub proof fn lemma_hardware_round_trip(
    before: AdvancedModulesService,
    settings: AdvancedModuleSettings,
    host: HostSnapshot,
    applied: AdvancedModulesService,
    at: Location,
)
    requires
        applied.captures == before.captures.after_enable(settings, host.store),
        is_tweaked(settings, at),
        integer_or_absent(host.store.value(at)),
    ensures
        replay(
            host.store.value(at),
            AdvancedModulesService::enable_effects(settings, host) + applied.disable_effects(
                settings,
            ),
            at,
        ) == restored(at, host.store.value(at)),
{
    let v0 = host.store.value(at);
    let c = applied.captures;
    let none = Seq::<EffectView>::empty();
    let parking = if settings.disable_core_parking {
        c.core_parking_restore_effects()
    } else {
        none
    };
    let scheduler = if settings.mmcss_priority_boost {
        c.mmcss_restore_effects()
    } else {
        none
    };
    let pages = if settings.enable_large_pages {
        c.large_pages_restore_effects()
    } else {
        none
    };
    let gpu = if settings.enable_hags {
        c.hags_restore_effects()
    } else {
        none
    };
    let priority = if settings.process_idle_demotion {
        promote_effects(applied.demoted_processes@)
    } else {
        none
    };
    let level = level_or_normal(applied.original_autotuning_level.deep_view());
    let buffers = if settings.lower_bufferbloat {
        seq![set_autotuning(level)]
    } else {
        none
    };
    let start = AdvancedModulesService::enable_effects(settings, host);
    lemma_restores_keep_apart(c, applied.demoted_processes@, level, at);
    lemma_tweaked_locations_differ();
    lemma_replay_concat(v0, start, applied.disable_effects(settings), at);
    let mid = replay(v0, start, at);
    lemma_replay_concat(mid, parking + scheduler + pages + gpu + priority, buffers, at);
    lemma_replay_untouched(replay(mid, parking + scheduler + pages + gpu + priority, at), buffers, at);
    lemma_replay_concat(mid, parking + scheduler + pages + gpu, priority, at);
    lemma_replay_untouched(replay(mid, parking + scheduler + pages + gpu, at), priority, at);
    lemma_replay_concat(mid, parking + scheduler + pages, gpu, at);
    let upto_pages = replay(mid, parking + scheduler + pages, at);
    if at == hags_mode() {
        lemma_gpu_puts_back(c, host.store, upto_pages);
    } else {
        lemma_replay_untouched(upto_pages, gpu, at);
        lemma_replay_concat(mid, parking + scheduler, pages, at);
        let upto_scheduler = replay(mid, parking + scheduler, at);
        if at == large_system_cache() || at == large_page_minimum() {
            lemma_pages_puts_back(c, host.store, upto_scheduler, at);
        } else {
            lemma_replay_untouched(upto_scheduler, pages, at);
            lemma_replay_concat(mid, parking, scheduler, at);
            lemma_scheduler_puts_back(c, host.store, replay(mid, parking, at), at);
        }
    }
}

} // verus!
