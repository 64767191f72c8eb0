use gamemode::detector::{WindowInfo, WindowRect};
use gamemode::effect::{Effect, Hive};
use gamemode::gamemode::{GameModeService, SessionPhase};
use gamemode::host::HostSnapshot;
use gamemode::options::GameModeOptions;
use gamemode::power::{GUID_HIGH_PERFORMANCE, GUID_ULTIMATE_PERFORMANCE};
use gamemode::process::{ProcessEntry, ProcessService};
use gamemode::registry::RegistryService;
use gamemode::service_control::ServiceStatus;

const BALANCED: u128 = 0x381b4222_f694_41f0_9685_ff5bb260df2e;
const DNS_CLIENT: &str = "SOFTWARE\\Policies\\Microsoft\\Windows NT\\DNSClient";
const GAMES: &str =
    "SOFTWARE\\Microsoft\\Windows NT\\CurrentVersion\\Multimedia\\SystemProfile\\Tasks\\Games";

fn proc_row(pid: u32, exe: &str) -> ProcessEntry {
    ProcessEntry { pid, exe_file: exe.as_bytes().to_vec() }
}

fn service(name: &str, state: u32) -> ServiceStatus {
    ServiceStatus { name: name.to_string(), state }
}

fn all_options() -> GameModeOptions {
    GameModeOptions {
        suspend_explorer: true,
        suspend_browsers: true,
        suspend_launchers: true,
        isolate_network: true,
    }
}

fn no_options() -> GameModeOptions {
    GameModeOptions {
        suspend_explorer: false,
        suspend_browsers: false,
        suspend_launchers: false,
        isolate_network: false,
    }
}

fn desktop_host() -> HostSnapshot {
    let mut host = HostSnapshot::empty(100);
    host.processes_known = true;
    host.processes = vec![
        proc_row(4, "System"),
        proc_row(100, "gamemode.exe"),
        proc_row(200, "explorer.exe"),
        proc_row(300, "SearchHost.exe"),
        proc_row(301, "LockApp.exe"),
        proc_row(400, "cs2.exe"),
    ];
    host.windows = vec![WindowInfo {
        handle: 0xC5,
        owner_pid: 400,
        visible: true,
        rect: Some(WindowRect { left: 0, top: 0, right: 800, bottom: 600 }),
    }];
    host.screen_width = 1920;
    host.screen_height = 1080;
    host.store.set_dword(Hive::LocalMachine, GAMES, "Priority", 2);
    host.store.set_dword(
        Hive::LocalMachine,
        "SOFTWARE\\Microsoft\\Windows NT\\CurrentVersion\\Winlogon",
        "AutoRestartShell",
        1,
    );
    host.services = vec![service("SysMain", 4), service("WSearch", 4), service("bits", 1)];
    host.interfaces = vec!["Tcpip_{A}".to_string()];
    host.chassis_report = Some("ChassisTypes\r\n3\r\n".to_string());
    host.active_scheme = Some(BALANCED);
    host.scheme_listing = Some("GUID: e9a42b02-d5df-448d-aa00-03f14749eb61 (Ultimate)".to_string());
    host.boost_mode = Some(2);
    host.min_processor = Some(5);
    host
}

fn laptop_host() -> HostSnapshot {
    let mut host = desktop_host();
    host.chassis_report = Some("ChassisTypes\r\n10\r\n".to_string());
    host
}

#[test]
fn a_new_orchestrator_has_recorded_nothing() {
    let session = GameModeService::new(Some(BALANCED));
    assert!(session.suspended_shell_ux_pids.is_empty());
    assert!(session.stopped_services.is_empty());
    assert!(!session.network_isolated);
    assert_eq!(session.desktop, None);
    assert_eq!(session.phase, SessionPhase::Inactive);
    assert_eq!(session.registry, RegistryService::new());
    assert_eq!(session.power.original_scheme, Some(BALANCED));
    assert!(session.needs_chassis_report());
}

#[test]
fn kill_list_follows_the_options() {
    assert_eq!(GameModeService::kill_list(&no_options()).len(), 4 + 23 + 8);
    assert_eq!(GameModeService::kill_list(&all_options()).len(), 4 + 7 + 23 + 8 + 4);
    let browsers_only = GameModeOptions { suspend_browsers: true, ..no_options() };
    let list = GameModeService::kill_list(&browsers_only);
    assert_eq!(list.len(), 4 + 7 + 23 + 8);
    assert_eq!(list[0], "StartAllBackX64");
    assert_eq!(list[4], "chrome");
    assert_eq!(list[11], "smartscreen");
    assert_eq!(list[34], "iCue");
    let launchers_only = GameModeOptions { suspend_launchers: true, ..no_options() };
    let list = GameModeService::kill_list(&launchers_only);
    assert_eq!(list[4], "smartscreen");
    assert_eq!(list[35], "epicgameslauncher");
    assert_eq!(list[38], "gog galaxy");
}

#[test]
fn catalogs_of_the_orchestrator() {
    assert_eq!(GameModeService::browsers().len(), 7);
    assert_eq!(GameModeService::launchers(), vec!["epicgameslauncher", "battle.net", "origin", "gog galaxy"]);
    assert_eq!(GameModeService::shell_ux().len(), 7);
    assert_eq!(GameModeService::start_menu_replacements().len(), 4);
    assert_eq!(GameModeService::bloatware().len(), 23);
    assert_eq!(GameModeService::peripherals().len(), 8);
}

#[test]
fn enable_plans_every_part_of_a_full_session() {
    let host = desktop_host();
    let mut session = GameModeService::new(None);
    let plan = session.enable_game_mode(&all_options(), &host);

    assert_eq!(plan.detected, Some((400, 0xC5)));

    let mut sequence = RegistryService::new().unlock_power_settings(&host.store);
    sequence.extend(RegistryService::new().apply_tweaks(&host.store));
    assert_eq!(sequence.len(), 6);
    sequence.push(Effect::ActivateScheme { scheme: GUID_ULTIMATE_PERFORMANCE });
    let shell_starts_at = sequence.len();

    let mut shell = ProcessService::kill_processes(&GameModeService::start_menu_replacements());
    shell.push(Effect::set_dword(
        Hive::LocalMachine,
        "SOFTWARE\\Microsoft\\Windows NT\\CurrentVersion\\Winlogon",
        "AutoRestartShell",
        0,
    ));
    shell.extend(ProcessService::kill_process("explorer"));
    shell.push(Effect::FocusWindow { window: 0xC5 });
    sequence.extend(shell);
    assert_eq!(plan.sequence, sequence);
    for (position, effect) in plan.sequence.iter().enumerate() {
        let terminates = matches!(effect, Effect::Run { program, .. } if program == "taskkill");
        assert!(!terminates || position >= shell_starts_at);
    }

    assert_eq!(
        plan.services,
        vec![
            Effect::StopService { name: "SysMain".to_string() },
            Effect::StopService { name: "WSearch".to_string() },
        ]
    );
    assert_eq!(
        plan.memory,
        vec![
            Effect::TrimWorkingSet { pid: 4 },
            Effect::TrimWorkingSet { pid: 200 },
            Effect::TrimWorkingSet { pid: 300 },
            Effect::TrimWorkingSet { pid: 301 },
            Effect::TrimWorkingSet { pid: 400 },
        ]
    );
    assert_eq!(plan.network.len(), 2);
    assert_eq!(
        plan.network[0],
        Effect::set_dword(Hive::LocalMachine, DNS_CLIENT, "EnableMulticast", 0)
    );

    let mut foreground = vec![Effect::SuspendProcess { pid: 300 }, Effect::SuspendProcess { pid: 301 }];
    foreground.extend(ProcessService::kill_processes(&GameModeService::kill_list(&all_options())));
    assert_eq!(plan.foreground, foreground);

    assert_eq!(session.phase, SessionPhase::Activating);
    assert!(session.network_isolated);
    assert_eq!(session.desktop, Some(true));
    assert!(session.registry.applied);
    assert_eq!(session.registry.original_priority, Some(2));
    assert!(session.registry.shell_flag_captured);
    assert_eq!(session.registry.original_auto_restart_shell, Some(1));
    assert_eq!(session.power.original_scheme, Some(BALANCED));
    assert!(session.suspended_shell_ux_pids.is_empty());
    assert!(session.stopped_services.is_empty());
}

#[test]
fn enable_without_options_leaves_shell_and_network_alone() {
    let host = desktop_host();
    let mut session = GameModeService::new(None);
    let plan = session.enable_game_mode(&no_options(), &host);
    assert_eq!(plan.detected, None);
    assert_eq!(plan.sequence.len(), 6 + 1);
    assert_eq!(plan.sequence[6], Effect::ActivateScheme { scheme: GUID_ULTIMATE_PERFORMANCE });
    assert_eq!(plan.network, vec![]);
    assert_eq!(plan.services.len(), 2);
    assert!(!session.network_isolated);
    assert!(!session.registry.shell_flag_captured);
    assert_eq!(plan.foreground.len(), 2 + 2);
}

#[test]
fn enable_on_a_laptop_patches_the_scheme() {
    let host = laptop_host();
    let mut session = GameModeService::new(Some(1));
    let plan = session.enable_game_mode(&no_options(), &host);
    assert_eq!(plan.sequence.len(), 6 + 3);
    assert_eq!(plan.sequence[8], Effect::ActivateScheme { scheme: BALANCED });
    assert_eq!(session.desktop, Some(false));
    assert_eq!(session.power.laptop_active_scheme, Some(BALANCED));
    assert_eq!(session.power.original_boost_mode, Some(2));
    assert_eq!(session.power.original_min_processor, Some(5));
    assert_eq!(session.power.original_scheme, Some(1));
}

#[test]
fn chassis_is_classified_once() {
    let mut session = GameModeService::new(None);
    assert!(session.is_desktop(Some("3")));
    assert!(!session.needs_chassis_report());
    assert!(session.is_desktop(Some("10")));
    assert!(session.is_desktop(None));
    let mut other = GameModeService::new(None);
    assert!(!other.is_desktop(None));
    assert!(!other.is_desktop(Some("3")));
}

#[test]
fn record_keeps_what_succeeded() {
    let host = desktop_host();
    let mut session = GameModeService::new(None);
    let plan = session.enable_game_mode(&all_options(), &host);
    session.record_enable(&plan, &vec![false, true], &vec![true, false, true, true]);
    assert_eq!(session.stopped_services, vec!["WSearch".to_string()]);
    assert_eq!(session.suspended_shell_ux_pids, vec![300]);
    assert_eq!(session.phase, SessionPhase::Active);
}

#[test]
fn disable_undoes_exactly_what_was_recorded() {
    let host = desktop_host();
    let mut session = GameModeService::new(None);
    let plan = session.enable_game_mode(&all_options(), &host);
    session.record_enable(&plan, &vec![false, true], &vec![true, true]);

    let mut later = HostSnapshot::empty(100);
    later.processes_known = true;
    later.processes = vec![proc_row(300, "SearchHost.exe"), proc_row(999, "TextInputHost.exe")];
    later.services = vec![
        service("SysMain", 1),
        service("WSearch", 1),
        service("bits", 1),
        service("Spooler", 1),
    ];
    later.interfaces = vec!["Tcpip_{Z}".to_string()];
    let undo = session.disable_game_mode(&all_options(), &later);

    assert_eq!(
        undo.shell,
        vec![Effect::Run { program: "explorer.exe".to_string(), args: vec![], wait: false }]
    );
    assert_eq!(undo.services, vec![Effect::StartService { name: "WSearch".to_string() }]);
    assert_eq!(
        undo.resume,
        vec![
            Effect::ResumeProcess { pid: 300 },
            Effect::ResumeProcess { pid: 301 },
            Effect::ResumeProcess { pid: 300 },
            Effect::ResumeProcess { pid: 999 },
        ]
    );
    assert_eq!(undo.network.len(), 2);
    assert_eq!(
        undo.network[0],
        Effect::delete_value(Hive::LocalMachine, DNS_CLIENT, "EnableMulticast")
    );
    assert_eq!(undo.sequence.len(), 5 + 1 + 1 + 1);
    assert_eq!(
        undo.sequence[2],
        Effect::delete_value(Hive::CurrentUser, "Software\\Microsoft\\GameBar", "AllowAutoGameMode")
    );
    assert_eq!(undo.sequence[3], Effect::set_dword(Hive::LocalMachine, GAMES, "Priority", 2));
    assert_eq!(undo.sequence[4], Effect::delete_value(Hive::LocalMachine, GAMES, "GPU Priority"));
    assert_eq!(undo.sequence[5].clone(), Effect::delete_value(
        Hive::LocalMachine,
        "SYSTEM\\CurrentControlSet\\Control\\Power\\PowerSettings\\54533251-82be-4824-96c1-47b60b740d00\\be337238-0d82-4146-a960-4f3749d470c7",
        "Attributes",
    ));
    assert_eq!(
        undo.sequence[6],
        Effect::set_dword(
            Hive::LocalMachine,
            "SOFTWARE\\Microsoft\\Windows NT\\CurrentVersion\\Winlogon",
            "AutoRestartShell",
            1
        )
    );
    assert_eq!(undo.sequence[7], Effect::ActivateScheme { scheme: BALANCED });

    assert!(session.suspended_shell_ux_pids.is_empty());
    assert!(session.stopped_services.is_empty());
    assert!(!session.network_isolated);
    assert_eq!(session.registry, RegistryService::new());
    assert_eq!(session.phase, SessionPhase::Inactive);
}

#[test]
fn disable_on_a_fresh_orchestrator_is_quiet() {
    let mut session = GameModeService::new(None);
    let mut host = HostSnapshot::empty(1);
    host.processes_known = true;
    host.processes = vec![proc_row(5, "chrome.exe")];
    host.services = vec![service("SysMain", 1), service("WSearch", 1)];
    host.interfaces = vec!["Tcpip_{A}".to_string()];
    let undo = session.disable_game_mode(&no_options(), &host);
    assert_eq!(undo.shell, vec![]);
    assert_eq!(undo.services, vec![]);
    assert_eq!(undo.resume, vec![]);
    assert_eq!(undo.network, vec![]);
    assert_eq!(
        undo.sequence,
        vec![Effect::set_dword(
            Hive::LocalMachine,
            "SOFTWARE\\Microsoft\\Windows NT\\CurrentVersion\\Winlogon",
            "AutoRestartShell",
            1
        )]
    );
}

#[test]
fn a_fresh_disable_resumes_shell_surfaces_by_name_only() {
    let mut session = GameModeService::new(None);
    let mut host = HostSnapshot::empty(1);
    host.processes = vec![proc_row(5, "lockapp.exe"), proc_row(6, "chrome.exe")];
    let undo = session.disable_game_mode(&no_options(), &host);
    assert_eq!(undo.resume, vec![Effect::ResumeProcess { pid: 5 }]);
}

#[test]
fn disable_restarts_services_only_from_the_record() {
    let mut session = GameModeService::new(None);
    let plan = session.enable_game_mode(&no_options(), &desktop_host());
    session.record_enable(&plan, &vec![true, false], &vec![]);
    let mut later = HostSnapshot::empty(100);
    later.services = vec![
        service("SysMain", 1),
        service("WSearch", 1),
        service("DiagTrack", 1),
        service("dosvc", 1),
    ];
    let undo = session.disable_game_mode(&no_options(), &later);
    assert_eq!(undo.services, vec![Effect::StartService { name: "SysMain".to_string() }]);
}

#[test]
fn network_is_left_alone_when_the_session_did_not_isolate_it() {
    let mut session = GameModeService::new(None);
    let start = GameModeOptions { isolate_network: false, ..all_options() };
    let plan = session.enable_game_mode(&start, &desktop_host());
    session.record_enable(&plan, &vec![], &vec![]);
    let undo = session.disable_game_mode(&all_options(), &desktop_host());
    assert_eq!(undo.network, vec![]);
}

#[test]
fn network_isolation_is_lifted_whatever_the_options_say_later() {
    let mut session = GameModeService::new(None);
    let plan = session.enable_game_mode(&all_options(), &desktop_host());
    session.record_enable(&plan, &vec![], &vec![]);
    let undo = session.disable_game_mode(&no_options(), &desktop_host());
    assert_eq!(undo.network.len(), 2);
    assert_eq!(undo.shell, vec![]);
}

#[test]
fn shell_is_not_restarted_while_it_runs_or_without_a_snapshot() {
    let mut session = GameModeService::new(None);
    let undo = session.disable_game_mode(&all_options(), &desktop_host());
    assert_eq!(undo.shell, vec![]);
    let unknown = HostSnapshot::empty(1);
    let undo = session.disable_game_mode(&all_options(), &unknown);
    assert_eq!(undo.shell, vec![]);
}

#[test]
fn laptop_disable_reverts_the_patched_values() {
    let mut session = GameModeService::new(None);
    let plan = session.enable_game_mode(&no_options(), &laptop_host());
    session.record_enable(&plan, &vec![], &vec![]);
    let undo = session.disable_game_mode(&no_options(), &HostSnapshot::empty(1));
    assert_eq!(undo.sequence.len(), 6 + 1 + 3);
    assert_eq!(undo.sequence[9], Effect::ActivateScheme { scheme: BALANCED });
}

#[test]
fn a_session_round_trip_restores_the_configuration() {
    let host = desktop_host();
    let mut store = desktop_host().store;
    let mut session = GameModeService::new(None);
    let plan = session.enable_game_mode(&all_options(), &host);
    store.apply(plan.sequence.clone());
    store.apply(plan.network.clone());
    session.record_enable(&plan, &vec![true, true], &vec![true, true]);
    let winlogon = "SOFTWARE\\Microsoft\\Windows NT\\CurrentVersion\\Winlogon";
    assert_eq!(store.read_dword(Hive::LocalMachine, GAMES, "Priority"), Some(6));
    assert_eq!(store.read_dword(Hive::LocalMachine, winlogon, "AutoRestartShell"), Some(0));
    assert_eq!(
        store.read_dword(Hive::CurrentUser, "Software\\Microsoft\\GameBar", "AllowAutoGameMode"),
        Some(1)
    );
    let undo = session.disable_game_mode(&all_options(), &host);
    store.apply(undo.network);
    store.apply(undo.sequence);
    assert_eq!(
        store.read_dword(Hive::CurrentUser, "Software\\Microsoft\\GameBar", "AllowAutoGameMode"),
        None
    );
    assert_eq!(store.read_dword(Hive::LocalMachine, GAMES, "Priority"), Some(2));
    assert_eq!(store.read_dword(Hive::LocalMachine, GAMES, "GPU Priority"), None);
    assert_eq!(store.read_dword(Hive::CurrentUser, "Software\\Microsoft\\GameBar", "AutoGameModeEnabled"), None);
    assert_eq!(
        store.read_dword(Hive::LocalMachine, "SYSTEM\\CurrentControlSet\\Control\\PriorityControl", "Win32PrioritySeparation"),
        None
    );
    assert_eq!(store.read_dword(Hive::LocalMachine, winlogon, "AutoRestartShell"), Some(1));
    assert_eq!(store.read_dword(Hive::LocalMachine, DNS_CLIENT, "EnableMulticast"), None);
}

#[test]
fn detect_game_uses_the_snapshot() {
    let session = GameModeService::new(None);
    assert_eq!(session.detect_game(&desktop_host()), Some((400, 0xC5)));
    assert_eq!(session.detect_game(&HostSnapshot::empty(1)), None);
}

#[test]
fn overlay_switches() {
    let dwm = "SOFTWARE\\Microsoft\\Windows\\Dwm";
    let on = vec![
        Effect::delete_value(Hive::LocalMachine, dwm, "OverlayTestMode"),
        Effect::set_dword(Hive::LocalMachine, dwm, "OverlayMinFPS", 0),
    ];
    let off = vec![Effect::set_dword(Hive::LocalMachine, dwm, "OverlayTestMode", 5)];
    assert_eq!(GameModeService::set_mpo_enabled(), on);
    assert_eq!(GameModeService::set_mpo_disabled(), off);
    assert_eq!(GameModeService::mpo_changed(false, true), off);
    assert_eq!(GameModeService::mpo_changed(true, false), on);
    assert_eq!(GameModeService::mpo_changed(true, true), vec![]);
    assert_eq!(GameModeService::mpo_changed(false, false), vec![]);
}

#[test]
fn desktop_power_constants() {
    assert_eq!(GUID_HIGH_PERFORMANCE, 0x8c5e7fda_e8bf_4a96_9a85_a6e23a8c635c);
    assert_eq!(GUID_ULTIMATE_PERFORMANCE, 0xe9a42b02_d5df_448d_aa00_03f14749eb61);
}
