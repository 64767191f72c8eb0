use gamemode::advanced_modules::AdvancedModulesService;
use gamemode::effect::{Effect, Hive, PriorityClass};
use gamemode::host::HostSnapshot;
use gamemode::process::ProcessEntry;
use gamemode::settings::AdvancedModuleSettings;
use gamemode::store::ConfigStore;

const PROFILE: &str = "SOFTWARE\\Microsoft\\Windows NT\\CurrentVersion\\Multimedia\\SystemProfile";
const TASK_GAMES: &str =
    "SOFTWARE\\Microsoft\\Windows NT\\CurrentVersion\\Multimedia\\SystemProfile\\Tasks\\Games";
const MEMORY: &str = "SYSTEM\\CurrentControlSet\\Control\\Session Manager\\Memory Management";
const GRAPHICS: &str = "SYSTEM\\CurrentControlSet\\Control\\GraphicsDrivers";
const PARKING: &str = "SYSTEM\\CurrentControlSet\\Control\\Power\\PowerSettings\\54533251-82be-4824-96c1-47b60b740d00\\0cc5b647-c1df-4637-891a-dec35c318583";

const TCP_GLOBAL: &str = "Querying active state...\r\n\r\nTCP Global Parameters\r\n----------------------------------------------\r\nReceive-Side Scaling State          : enabled\r\nReceive Window Auto-Tuning Level    : Normal \r\nAdd-On Congestion Control Provider  : default\r\n";

fn powercfg(args: &[&str]) -> Effect {
    Effect::Run {
        program: "powercfg".to_string(),
        args: args.iter().map(|a| a.to_string()).collect(),
        wait: true,
    }
}

fn netsh_level(level: &str) -> Effect {
    Effect::Run {
        program: "netsh".to_string(),
        args: vec![
            "int".to_string(),
            "tcp".to_string(),
            "set".to_string(),
            "global".to_string(),
            format!("autotuninglevel={}", level),
        ],
        wait: true,
    }
}

fn lm(path: &str, name: &str, value: u32) -> Effect {
    Effect::set_dword(Hive::LocalMachine, path, name, value)
}

fn bg(pid: u32, exe: &str) -> ProcessEntry {
    ProcessEntry { pid, exe_file: exe.as_bytes().to_vec() }
}

fn nothing_on() -> AdvancedModuleSettings {
    AdvancedModuleSettings {
        disable_core_parking: false,
        enable_large_pages: false,
        mmcss_priority_boost: false,
        enable_hags: false,
        process_idle_demotion: false,
        lower_bufferbloat: false,
    }
}

fn everything_on() -> AdvancedModuleSettings {
    AdvancedModuleSettings {
        disable_core_parking: true,
        enable_large_pages: true,
        mmcss_priority_boost: true,
        enable_hags: true,
        process_idle_demotion: true,
        lower_bufferbloat: true,
    }
}

fn core_parking(min: &str, max: &str) -> Vec<Effect> {
    vec![
        powercfg(&["/setacvalueindex", "scheme_current", "sub_processor", "CPMINCORES", min]),
        powercfg(&["/setacvalueindex", "scheme_current", "sub_processor", "CPMAXCORES", max]),
        powercfg(&["/setactive", "scheme_current"]),
    ]
}

#[test]
fn core_parking_is_disabled_by_full_percentages() {
    let mut store = ConfigStore::new();
    store.set_dword(Hive::LocalMachine, PARKING, "ValueMin", 0);
    store.set_dword(Hive::LocalMachine, PARKING, "ValueMax", 100);
    let mut tweaks = AdvancedModulesService::new();
    assert_eq!(tweaks.disable_core_parking(&store), core_parking("100", "100"));
    assert_eq!(tweaks.captures.original_core_parking_min, Some(0));
    assert_eq!(tweaks.captures.original_core_parking_max, Some(100));
}

#[test]
fn core_parking_restore_uses_the_capture() {
    let mut store = ConfigStore::new();
    store.set_dword(Hive::LocalMachine, PARKING, "ValueMin", 25);
    store.set_dword(Hive::LocalMachine, PARKING, "ValueMax", 90);
    let mut tweaks = AdvancedModulesService::new();
    tweaks.disable_core_parking(&store);
    assert_eq!(tweaks.restore_core_parking(), core_parking("25", "90"));
    assert_eq!(tweaks.captures.original_core_parking_min, None);
    assert_eq!(tweaks.captures.original_core_parking_max, None);
}

#[test]
fn core_parking_restore_without_capture_uses_the_defaults() {
    let mut tweaks = AdvancedModulesService::new();
    assert_eq!(tweaks.restore_core_parking(), core_parking("50", "100"));
    tweaks.disable_core_parking(&ConfigStore::new());
    assert_eq!(tweaks.restore_core_parking(), core_parking("50", "100"));
}

#[test]
fn core_parking_percentages_are_written_in_decimal() {
    let mut store = ConfigStore::new();
    store.set_dword(Hive::LocalMachine, PARKING, "ValueMin", 4294967295);
    store.set_dword(Hive::LocalMachine, PARKING, "ValueMax", 1000);
    let mut tweaks = AdvancedModulesService::new();
    tweaks.disable_core_parking(&store);
    assert_eq!(tweaks.restore_core_parking(), core_parking("4294967295", "1000"));
}

#[test]
fn mmcss_boost_captures_and_writes() {
    let mut store = ConfigStore::new();
    store.set_dword(Hive::LocalMachine, PROFILE, "SystemResponsiveness", 10);
    store.set_dword(Hive::LocalMachine, TASK_GAMES, "Clock Rate", 5000);
    let mut tweaks = AdvancedModulesService::new();
    let effects = tweaks.enable_mmcss_boost(&store);
    assert_eq!(
        effects,
        vec![
            lm(PROFILE, "SystemResponsiveness", 0),
            lm(PROFILE, "NoLazyMode", 1),
            lm(TASK_GAMES, "Scheduling Category", 2),
            lm(TASK_GAMES, "SFIO Priority", 2),
            lm(TASK_GAMES, "Background Only", 0),
            lm(TASK_GAMES, "Clock Rate", 10000),
        ]
    );
    assert!(tweaks.captures.mmcss_captured);
    assert_eq!(tweaks.captures.original_system_responsiveness, Some(10));
    assert_eq!(tweaks.captures.original_no_lazy_mode, None);
    assert_eq!(tweaks.captures.original_scheduling_category, None);
    assert_eq!(tweaks.captures.original_clock_rate, Some(5000));
}

fn gone(path: &str, name: &str) -> Effect {
    Effect::delete_value(Hive::LocalMachine, path, name)
}

#[test]
fn mmcss_restore_uses_capture_or_default() {
    let mut store = ConfigStore::new();
    store.set_dword(Hive::LocalMachine, PROFILE, "SystemResponsiveness", 10);
    store.set_dword(Hive::LocalMachine, TASK_GAMES, "SFIO Priority", 1);
    let mut tweaks = AdvancedModulesService::new();
    tweaks.enable_mmcss_boost(&store);
    assert_eq!(
        tweaks.restore_mmcss(),
        vec![
            lm(PROFILE, "SystemResponsiveness", 10),
            lm(PROFILE, "NoLazyMode", 0),
            gone(TASK_GAMES, "Scheduling Category"),
            lm(TASK_GAMES, "SFIO Priority", 1),
            gone(TASK_GAMES, "Background Only"),
            gone(TASK_GAMES, "Clock Rate"),
        ]
    );
    assert!(!tweaks.captures.mmcss_captured);
    assert_eq!(
        tweaks.restore_mmcss(),
        vec![lm(PROFILE, "SystemResponsiveness", 20), lm(PROFILE, "NoLazyMode", 0)]
    );
}

#[test]
fn mmcss_round_trip_on_a_store() {
    let mut store = ConfigStore::new();
    store.set_dword(Hive::LocalMachine, PROFILE, "NoLazyMode", 1);
    store.set_dword(Hive::LocalMachine, TASK_GAMES, "Background Only", 1);
    let mut tweaks = AdvancedModulesService::new();
    let apply = tweaks.enable_mmcss_boost(&store);
    store.apply(apply);
    assert_eq!(store.read_dword(Hive::LocalMachine, TASK_GAMES, "Clock Rate"), Some(10000));
    store.apply(tweaks.restore_mmcss());
    assert_eq!(store.read_dword(Hive::LocalMachine, PROFILE, "NoLazyMode"), Some(1));
    assert_eq!(store.read_dword(Hive::LocalMachine, PROFILE, "SystemResponsiveness"), Some(20));
    assert_eq!(store.read_dword(Hive::LocalMachine, TASK_GAMES, "Background Only"), Some(1));
    assert_eq!(store.read_dword(Hive::LocalMachine, TASK_GAMES, "Clock Rate"), None);
    assert_eq!(store.read_dword(Hive::LocalMachine, TASK_GAMES, "Scheduling Category"), None);
    assert_eq!(store.read_dword(Hive::LocalMachine, TASK_GAMES, "SFIO Priority"), None);
}

#[test]
fn large_pages_are_restored_only_if_switched_on() {
    let mut tweaks = AdvancedModulesService::new();
    assert_eq!(tweaks.restore_large_pages(), vec![]);
    assert_eq!(
        tweaks.enable_large_pages(&ConfigStore::new()),
        vec![lm(MEMORY, "LargeSystemCache", 1), lm(MEMORY, "LargePageMinimum", 1)]
    );
    assert!(tweaks.captures.large_pages_enabled);
    assert_eq!(
        tweaks.restore_large_pages(),
        vec![lm(MEMORY, "LargeSystemCache", 0), gone(MEMORY, "LargePageMinimum")]
    );
    assert!(!tweaks.captures.large_pages_enabled);
    assert_eq!(tweaks.restore_large_pages(), vec![]);
}

#[test]
fn large_pages_are_put_back_as_captured() {
    let mut store = ConfigStore::new();
    store.set_dword(Hive::LocalMachine, MEMORY, "LargeSystemCache", 1);
    store.set_dword(Hive::LocalMachine, MEMORY, "LargePageMinimum", 7);
    let mut tweaks = AdvancedModulesService::new();
    let apply = tweaks.enable_large_pages(&store);
    assert_eq!(tweaks.captures.original_large_system_cache, Some(1));
    assert_eq!(tweaks.captures.original_large_page_minimum, Some(7));
    store.apply(apply);
    let undo = tweaks.restore_large_pages();
    assert_eq!(undo, vec![lm(MEMORY, "LargeSystemCache", 1), lm(MEMORY, "LargePageMinimum", 7)]);
    store.apply(undo);
    assert_eq!(store.read_dword(Hive::LocalMachine, MEMORY, "LargeSystemCache"), Some(1));
    assert_eq!(store.read_dword(Hive::LocalMachine, MEMORY, "LargePageMinimum"), Some(7));
    assert_eq!(tweaks.captures.original_large_page_minimum, None);
}

#[test]
fn gpu_scheduling_restore_is_a_no_op_without_capture() {
    let mut tweaks = AdvancedModulesService::new();
    assert!(!tweaks.captures.hags_captured);
    assert_eq!(tweaks.restore_hags(), vec![]);
}

#[test]
fn gpu_scheduling_mode_that_was_absent_is_absent_again() {
    let mut store = ConfigStore::new();
    let mut tweaks = AdvancedModulesService::new();
    let effects = tweaks.enable_hags(&store);
    assert_eq!(effects, vec![lm(GRAPHICS, "HwSchMode", 2)]);
    assert!(tweaks.captures.hags_captured);
    assert_eq!(tweaks.captures.original_hags_value, None);
    store.apply(effects);
    assert_eq!(store.read_dword(Hive::LocalMachine, GRAPHICS, "HwSchMode"), Some(2));
    let undo = tweaks.restore_hags();
    assert_eq!(undo, vec![gone(GRAPHICS, "HwSchMode")]);
    store.apply(undo);
    assert_eq!(store.read_dword(Hive::LocalMachine, GRAPHICS, "HwSchMode"), None);
    assert!(!tweaks.captures.hags_captured);
    assert_eq!(tweaks.restore_hags(), vec![]);
}

#[test]
fn gpu_scheduling_is_put_back_to_the_captured_mode() {
    let mut store = ConfigStore::new();
    store.set_dword(Hive::LocalMachine, GRAPHICS, "HwSchMode", 1);
    let mut tweaks = AdvancedModulesService::new();
    store.apply(tweaks.enable_hags(&store));
    assert_eq!(tweaks.captures.original_hags_value, Some(1));
    let undo = tweaks.restore_hags();
    assert_eq!(undo, vec![lm(GRAPHICS, "HwSchMode", 1)]);
    store.apply(undo);
    assert_eq!(store.read_dword(Hive::LocalMachine, GRAPHICS, "HwSchMode"), Some(1));
    assert_eq!(tweaks.restore_hags(), vec![]);
}

#[test]
fn demotion_covers_listed_background_processes_only() {
    let snapshot = vec![
        bg(0, "dllhost.exe"),
        bg(4, "dllhost.exe"),
        bg(50, "dllhost.exe"),
        bg(60, "DLLHOST.EXE"),
        bg(70, "cs2.exe"),
        bg(80, "OneDrive.exe"),
        bg(90, "spoolsv.exe"),
    ];
    let effects = AdvancedModulesService::enable_process_demotion(&snapshot, 60);
    assert_eq!(
        effects,
        vec![
            Effect::SetPriority { pid: 50, class: PriorityClass::Idle },
            Effect::SetPriority { pid: 80, class: PriorityClass::Idle },
            Effect::SetPriority { pid: 90, class: PriorityClass::Idle },
        ]
    );
    assert_eq!(AdvancedModulesService::demote_list().len(), 17);
}

#[test]
fn only_demoted_processes_are_promoted_again() {
    let effects = vec![
        Effect::SetPriority { pid: 50, class: PriorityClass::Idle },
        Effect::SetPriority { pid: 80, class: PriorityClass::Idle },
        Effect::SetPriority { pid: 81, class: PriorityClass::Normal },
        Effect::SetPriority { pid: 90, class: PriorityClass::Idle },
    ];
    let mut tweaks = AdvancedModulesService::new();
    tweaks.record_demoted(&effects, &vec![true, false, true, true]);
    assert_eq!(tweaks.demoted_processes, vec![50, 90]);
    assert_eq!(
        tweaks.restore_process_priority(),
        vec![
            Effect::SetPriority { pid: 50, class: PriorityClass::Normal },
            Effect::SetPriority { pid: 90, class: PriorityClass::Normal },
        ]
    );
    assert!(tweaks.demoted_processes.is_empty());
    assert_eq!(tweaks.restore_process_priority(), vec![]);
}

#[test]
fn a_demotion_without_outcome_is_not_recorded() {
    let effects = vec![
        Effect::SetPriority { pid: 50, class: PriorityClass::Idle },
        Effect::SetPriority { pid: 80, class: PriorityClass::Idle },
    ];
    let mut tweaks = AdvancedModulesService::new();
    tweaks.record_demoted(&effects, &vec![true]);
    assert_eq!(tweaks.demoted_processes, vec![50]);
}

#[test]
fn autotuning_level_is_parsed_from_the_query_output() {
    assert_eq!(
        AdvancedModulesService::parse_autotuning_level(Some(TCP_GLOBAL)),
        Some("normal".to_string())
    );
    assert_eq!(
        AdvancedModulesService::parse_autotuning_level(Some("AutoTuning level : HighlyRestricted : x")),
        Some("highlyrestricted".to_string())
    );
}

#[test]
fn the_first_line_with_a_level_wins() {
    let text = "autotuning\nAuto-Tuning: Disabled\nautotuning: normal\n";
    assert_eq!(AdvancedModulesService::parse_autotuning_level(Some(text)), Some("disabled".to_string()));
}

#[test]
fn autotuning_level_of_an_empty_field_is_empty() {
    assert_eq!(AdvancedModulesService::parse_autotuning_level(Some("autotuning:")), Some("".to_string()));
    assert_eq!(AdvancedModulesService::parse_autotuning_level(Some("autotuning::normal")), Some("".to_string()));
}

#[test]
fn no_level_is_parsed_from_other_output() {
    assert_eq!(AdvancedModulesService::parse_autotuning_level(Some("")), None);
    assert_eq!(AdvancedModulesService::parse_autotuning_level(Some("Level : normal")), None);
    assert_eq!(AdvancedModulesService::parse_autotuning_level(Some("auto tuning : normal")), None);
    assert_eq!(AdvancedModulesService::parse_autotuning_level(None), None);
}

#[test]
fn level_of_a_line_depends_on_the_given_lower_case_form() {
    assert_eq!(AdvancedModulesService::level_of_line("a: b :c", "autotuning"), Some(" b ".to_string()));
    assert_eq!(AdvancedModulesService::level_of_line("a: b", "AUTOTUNING"), None);
    assert_eq!(AdvancedModulesService::level_of_line("no colon", "auto-tuning"), None);
}

#[test]
fn bufferbloat_tweak_captures_the_level_and_disables_autotuning() {
    let mut tweaks = AdvancedModulesService::new();
    assert_eq!(tweaks.enable_lower_bufferbloat(Some(TCP_GLOBAL)), vec![netsh_level("disabled")]);
    assert_eq!(tweaks.original_autotuning_level, Some("normal".to_string()));
    tweaks.enable_lower_bufferbloat(Some("AutoTuning: Restricted"));
    assert_eq!(tweaks.restore_bufferbloat(), vec![netsh_level("restricted")]);
    assert_eq!(tweaks.original_autotuning_level, None);
}

#[test]
fn bufferbloat_restore_falls_back_to_normal() {
    let mut tweaks = AdvancedModulesService::new();
    tweaks.enable_lower_bufferbloat(Some("AutoTuning: Restricted"));
    tweaks.enable_lower_bufferbloat(None);
    assert_eq!(tweaks.original_autotuning_level, None);
    assert_eq!(tweaks.restore_bufferbloat(), vec![netsh_level("normal")]);
}

#[test]
fn bufferbloat_status_is_read_from_the_query_output() {
    assert!(!AdvancedModulesService::get_bufferbloat_status(Some(TCP_GLOBAL)));
    assert!(AdvancedModulesService::get_bufferbloat_status(Some("Auto-Tuning Level : DISABLED")));
    assert!(!AdvancedModulesService::get_bufferbloat_status(None));
    assert!(AdvancedModulesService::shows_disabled("xdisabledx"));
    assert!(!AdvancedModulesService::shows_disabled("Disabled"));
}

#[test]
fn permanent_bufferbloat_switches() {
    assert_eq!(AdvancedModulesService::set_bufferbloat_enabled(), vec![netsh_level("disabled")]);
    assert_eq!(AdvancedModulesService::set_bufferbloat_disabled(), vec![netsh_level("normal")]);
    assert_eq!(AdvancedModulesService::toggle_bufferbloat(true), vec![netsh_level("normal")]);
    assert_eq!(AdvancedModulesService::toggle_bufferbloat(false), vec![netsh_level("disabled")]);
}

#[test]
fn enable_applies_what_is_switched_on_in_order() {
    let mut host = HostSnapshot::empty(1);
    host.processes = vec![bg(50, "dllhost.exe")];
    host.tcp_global = Some(TCP_GLOBAL.to_string());
    host.store.set_dword(Hive::LocalMachine, GRAPHICS, "HwSchMode", 1);
    let mut tweaks = AdvancedModulesService::new();
    let effects = tweaks.enable(&everything_on(), &host);
    assert_eq!(effects.len(), 3 + 6 + 2 + 1 + 1 + 1);
    assert_eq!(effects[0..3], core_parking("100", "100")[..]);
    assert_eq!(effects[3], lm(PROFILE, "SystemResponsiveness", 0));
    assert_eq!(effects[9], lm(MEMORY, "LargeSystemCache", 1));
    assert_eq!(effects[11], lm(GRAPHICS, "HwSchMode", 2));
    assert_eq!(effects[12], Effect::SetPriority { pid: 50, class: PriorityClass::Idle });
    assert_eq!(effects[13], netsh_level("disabled"));
    assert_eq!(tweaks.captures.original_hags_value, Some(1));
    assert!(tweaks.captures.large_pages_enabled);
    assert_eq!(tweaks.original_autotuning_level, Some("normal".to_string()));
    assert!(tweaks.demoted_processes.is_empty());
}

#[test]
fn enable_with_everything_off_does_nothing() {
    let mut tweaks = AdvancedModulesService::new();
    let mut host = HostSnapshot::empty(1);
    host.tcp_global = Some(TCP_GLOBAL.to_string());
    assert_eq!(tweaks.enable(&nothing_on(), &host), vec![]);
    assert_eq!(tweaks.original_autotuning_level, None);
    assert_eq!(tweaks.disable(&nothing_on()), vec![]);
}

#[test]
fn disable_restores_what_is_switched_on_and_clears_it() {
    let mut host = HostSnapshot::empty(1);
    host.processes = vec![bg(50, "dllhost.exe")];
    host.tcp_global = Some(TCP_GLOBAL.to_string());
    host.store.set_dword(Hive::LocalMachine, GRAPHICS, "HwSchMode", 1);
    let mut tweaks = AdvancedModulesService::new();
    let effects = tweaks.enable(&everything_on(), &host);
    tweaks.record_demoted(&effects, &vec![true; 14]);
    assert_eq!(tweaks.demoted_processes, vec![50]);
    let undo = tweaks.disable(&everything_on());
    let mut expected = core_parking("50", "100");
    expected.push(lm(PROFILE, "SystemResponsiveness", 20));
    expected.push(lm(PROFILE, "NoLazyMode", 0));
    expected.push(gone(TASK_GAMES, "Scheduling Category"));
    expected.push(gone(TASK_GAMES, "SFIO Priority"));
    expected.push(gone(TASK_GAMES, "Background Only"));
    expected.push(gone(TASK_GAMES, "Clock Rate"));
    expected.push(lm(MEMORY, "LargeSystemCache", 0));
    expected.push(gone(MEMORY, "LargePageMinimum"));
    expected.push(lm(GRAPHICS, "HwSchMode", 1));
    expected.push(Effect::SetPriority { pid: 50, class: PriorityClass::Normal });
    expected.push(netsh_level("normal"));
    assert_eq!(undo, expected);
    assert_eq!(tweaks.captures.original_hags_value, None);
    assert!(!tweaks.captures.large_pages_enabled);
    assert!(tweaks.demoted_processes.is_empty());
    assert_eq!(tweaks.original_autotuning_level, None);
}

#[test]
fn disable_leaves_tweaks_alone_that_are_switched_off() {
    let mut host = HostSnapshot::empty(1);
    host.store.set_dword(Hive::LocalMachine, GRAPHICS, "HwSchMode", 1);
    let mut tweaks = AdvancedModulesService::new();
    tweaks.enable(&everything_on(), &host);
    let only_hags = AdvancedModuleSettings { enable_hags: true, ..nothing_on() };
    assert_eq!(tweaks.disable(&only_hags), vec![lm(GRAPHICS, "HwSchMode", 1)]);
    assert!(tweaks.captures.large_pages_enabled);
    assert_eq!(tweaks.captures.original_hags_value, None);
}

#[test]
fn level_is_taken_from_the_first_matching_line() {
    let all = vec![
        "Receive-Side Scaling State : enabled".to_string(),
        "Receive Window Auto-Tuning Level    :   Experimental  ".to_string(),
        "autotuning : normal".to_string(),
    ];
    assert_eq!(AdvancedModulesService::level_in_lines(&all), Some("experimental".to_string()));
    assert_eq!(AdvancedModulesService::level_in_lines(&vec![]), None);
}

#[test]
fn lines_may_end_in_carriage_return_line_feed() {
    let text = "x\r\nAuto-Tuning Level : Disabled\r\ny";
    assert_eq!(AdvancedModulesService::parse_autotuning_level(Some(text)), Some("disabled".to_string()));
}

#[test]
fn hardware_tweaks_round_trip_on_a_store() {
    let mut host = HostSnapshot::empty(1);
    host.store.set_dword(Hive::LocalMachine, PROFILE, "SystemResponsiveness", 14);
    host.store.set_dword(Hive::LocalMachine, TASK_GAMES, "SFIO Priority", 1);
    host.store.set_dword(Hive::LocalMachine, MEMORY, "LargeSystemCache", 1);
    let watched = [
        (PROFILE, "SystemResponsiveness", Some(14)),
        (PROFILE, "NoLazyMode", Some(0)),
        (TASK_GAMES, "Scheduling Category", None),
        (TASK_GAMES, "SFIO Priority", Some(1)),
        (TASK_GAMES, "Background Only", None),
        (TASK_GAMES, "Clock Rate", None),
        (MEMORY, "LargeSystemCache", Some(1)),
        (MEMORY, "LargePageMinimum", None),
        (GRAPHICS, "HwSchMode", None),
    ];
    let mut store = ConfigStore::new();
    store.apply(host.store.history.clone());
    let mut tweaks = AdvancedModulesService::new();
    store.apply(tweaks.enable(&everything_on(), &host));
    assert_eq!(store.read_dword(Hive::LocalMachine, GRAPHICS, "HwSchMode"), Some(2));
    store.apply(tweaks.disable(&everything_on()));
    for (path, name, expected) in watched {
        assert_eq!(store.read_dword(Hive::LocalMachine, path, name), expected, "for {}", name);
    }
    assert_eq!(tweaks.captures, AdvancedModulesService::new().captures);
}
