use gamemode::effect::{Effect, Hive};
use gamemode::host::HostSnapshot;
use gamemode::revi_tweaks::{ReviTweaksService, STARTUP_DISABLED};
use gamemode::service_control::ServiceStatus;
use gamemode::store::{ConfigStore, RegistryData};

const SERVICES: &str = "SYSTEM\\CurrentControlSet\\Services\\";
const GRAPHICS_DRIVERS: &str = "SYSTEM\\CurrentControlSet\\Control\\GraphicsDrivers";
const FOLDERS: &str = "SOFTWARE\\Classes\\Local Settings\\Software\\Microsoft\\Windows\\Shell\\Bags\\AllFolders\\Shell";
const MMCSS_GAMES: &str =
    "SOFTWARE\\Microsoft\\Windows NT\\CurrentVersion\\Multimedia\\SystemProfile\\Tasks\\Games";

fn reported(name: &str, state: u32) -> ServiceStatus {
    ServiceStatus { name: name.to_string(), state }
}

fn revi_host() -> HostSnapshot {
    let mut host = HostSnapshot::empty(1);
    host.services = vec![reported("DiagTrack", 4), reported("WerSvc", 1), reported("iphlpsvc", 4)];
    host.store.set_dword(Hive::LocalMachine, &format!("{}DiagTrack", SERVICES), "Start", 2);
    host.store.set_dword(Hive::LocalMachine, GRAPHICS_DRIVERS, "HwSchMode", 1);
    host.store.set_text(Hive::LocalMachine, FOLDERS, "FolderType", "Documents");
    host
}

#[test]
fn tables_of_the_tweak_set() {
    assert_eq!(ReviTweaksService::services_to_disable().len(), 18);
    assert_eq!(ReviTweaksService::registry_tweaks().len(), 21);
    assert_eq!(ReviTweaksService::string_tweaks().len(), 3);
    assert_eq!(
        ReviTweaksService::registry_tweaks()[16],
        (
            "SOFTWARE\\Microsoft\\Windows NT\\CurrentVersion\\Multimedia\\SystemProfile",
            "NetworkThrottlingIndex",
            0xFFFF_FFFF
        )
    );
    assert_eq!(ReviTweaksService::string_tweaks()[0], (FOLDERS, "FolderType", "NotSpecified"));
    assert_eq!(STARTUP_DISABLED, 4);
}

#[test]
fn a_new_tweak_set_is_not_applied() {
    let tweaks = ReviTweaksService::new();
    assert!(!tweaks.is_applied());
    assert!(tweaks.service_states.is_empty());
    assert!(tweaks.registry_values.is_empty());
    assert!(tweaks.string_values.is_empty());
}

#[test]
fn service_startup_type_is_read_and_written_under_the_service_key() {
    let host = revi_host();
    assert_eq!(ReviTweaksService::get_service_startup_registry(&host.store, "DiagTrack"), Some(2));
    assert_eq!(ReviTweaksService::get_service_startup_registry(&host.store, "WerSvc"), None);
    assert_eq!(
        ReviTweaksService::set_service_startup_registry("WerSvc", 4),
        Effect::set_dword(Hive::LocalMachine, "SYSTEM\\CurrentControlSet\\Services\\WerSvc", "Start", 4)
    );
}

#[test]
fn enable_remembers_and_changes_services_and_values() {
    let host = revi_host();
    let mut tweaks = ReviTweaksService::new();
    let effects = tweaks.enable(&host);
    assert!(tweaks.is_applied());
    assert_eq!(effects.len(), 18 + 2 + 21 + 3);
    assert_eq!(
        effects[0],
        Effect::set_dword(Hive::LocalMachine, "SYSTEM\\CurrentControlSet\\Services\\DiagTrack", "Start", 4)
    );
    assert_eq!(effects[1], Effect::StopService { name: "DiagTrack".to_string() });
    assert_eq!(
        effects[2],
        Effect::set_dword(Hive::LocalMachine, "SYSTEM\\CurrentControlSet\\Services\\WerSvc", "Start", 4)
    );
    assert_eq!(effects[19], Effect::StopService { name: "iphlpsvc".to_string() });
    assert_eq!(
        effects[20],
        Effect::set_dword(
            Hive::LocalMachine,
            "SYSTEM\\CurrentControlSet\\Control\\DeviceGuard",
            "EnableVirtualizationBasedSecurity",
            0
        )
    );
    assert_eq!(effects[34], Effect::set_dword(Hive::LocalMachine, GRAPHICS_DRIVERS, "HwSchMode", 2));
    assert_eq!(effects[41], Effect::set_text(Hive::LocalMachine, FOLDERS, "FolderType", "NotSpecified"));
    assert_eq!(effects[43], Effect::set_text(Hive::LocalMachine, MMCSS_GAMES, "SFIO Priority", "High"));

    assert_eq!(tweaks.service_states.len(), 18);
    assert_eq!(tweaks.service_states[0], ("DiagTrack".to_string(), Some(2), true));
    assert_eq!(tweaks.service_states[1], ("WerSvc".to_string(), None, false));
    assert_eq!(tweaks.service_states[17], ("iphlpsvc".to_string(), None, true));
    assert_eq!(tweaks.registry_values.len(), 21);
    assert_eq!(
        tweaks.registry_values[14],
        (GRAPHICS_DRIVERS.to_string(), "HwSchMode".to_string(), Some(1))
    );
    assert_eq!(tweaks.registry_values[10], (FOLDERS.to_string(), "FolderType".to_string(), None));
    assert_eq!(tweaks.string_values.len(), 3);
    assert_eq!(
        tweaks.string_values[0],
        (
            FOLDERS.to_string(),
            "FolderType".to_string(),
            Some(RegistryData::Text("Documents".to_string()))
        )
    );
    assert_eq!(
        tweaks.string_values[1],
        (MMCSS_GAMES.to_string(), "Scheduling Category".to_string(), None)
    );
}

#[test]
fn enable_on_an_applied_set_does_nothing() {
    let mut tweaks = ReviTweaksService::new();
    tweaks.enable(&revi_host());
    let remembered = tweaks.registry_values.clone();
    assert_eq!(tweaks.enable(&HostSnapshot::empty(1)), vec![]);
    assert!(tweaks.is_applied());
    assert_eq!(tweaks.registry_values, remembered);
}

#[test]
fn disable_on_a_set_that_is_not_applied_does_nothing() {
    let mut tweaks = ReviTweaksService::new();
    assert_eq!(tweaks.disable(&revi_host()), vec![]);
    assert!(!tweaks.is_applied());
}

#[test]
fn disable_restores_services_then_values() {
    let mut tweaks = ReviTweaksService::new();
    tweaks.enable(&revi_host());
    let mut later = HostSnapshot::empty(1);
    later.services = vec![reported("DiagTrack", 1), reported("WerSvc", 1), reported("iphlpsvc", 4)];
    let undo = tweaks.disable(&later);
    assert_eq!(undo.len(), 18 + 1 + 21 + 3);
    assert_eq!(
        undo[0],
        Effect::set_dword(Hive::LocalMachine, "SYSTEM\\CurrentControlSet\\Services\\DiagTrack", "Start", 2)
    );
    assert_eq!(undo[1], Effect::StartService { name: "DiagTrack".to_string() });
    assert_eq!(
        undo[2],
        Effect::delete_value(Hive::LocalMachine, "SYSTEM\\CurrentControlSet\\Services\\WerSvc", "Start")
    );
    assert_eq!(
        undo[18],
        Effect::delete_value(Hive::LocalMachine, "SYSTEM\\CurrentControlSet\\Services\\iphlpsvc", "Start")
    );
    assert_eq!(
        undo[19],
        Effect::delete_value(
            Hive::LocalMachine,
            "SYSTEM\\CurrentControlSet\\Control\\DeviceGuard",
            "EnableVirtualizationBasedSecurity"
        )
    );
    assert_eq!(undo[33], Effect::set_dword(Hive::LocalMachine, GRAPHICS_DRIVERS, "HwSchMode", 1));
    assert_eq!(undo[40], Effect::set_text(Hive::LocalMachine, FOLDERS, "FolderType", "Documents"));
    assert_eq!(undo[41], Effect::delete_value(Hive::LocalMachine, MMCSS_GAMES, "Scheduling Category"));
    assert!(!tweaks.is_applied());
    assert!(tweaks.service_states.is_empty());
    assert!(tweaks.registry_values.is_empty());
    assert!(tweaks.string_values.is_empty());
    assert_eq!(tweaks.disable(&later), vec![]);
}

#[test]
fn tweak_set_round_trip_on_a_store() {
    let host = revi_host();
    let mut store: ConfigStore = revi_host().store;
    let mut tweaks = ReviTweaksService::new();
    store.apply(tweaks.enable(&host));
    assert_eq!(store.read_dword(Hive::LocalMachine, GRAPHICS_DRIVERS, "HwSchMode"), Some(2));
    assert_eq!(store.read_text(Hive::LocalMachine, FOLDERS, "FolderType"), Some("NotSpecified".to_string()));
    assert_eq!(
        store.read_dword(Hive::LocalMachine, "SYSTEM\\CurrentControlSet\\Control\\Power\\PowerThrottling", "PowerThrottlingOff"),
        Some(1)
    );
    store.apply(tweaks.disable(&host));
    assert_eq!(store.read_dword(Hive::LocalMachine, GRAPHICS_DRIVERS, "HwSchMode"), Some(1));
    assert_eq!(store.read_text(Hive::LocalMachine, FOLDERS, "FolderType"), Some("Documents".to_string()));
    assert_eq!(
        store.read_dword(Hive::LocalMachine, "SYSTEM\\CurrentControlSet\\Control\\Power\\PowerThrottling", "PowerThrottlingOff"),
        None
    );
    assert_eq!(store.read_text(Hive::LocalMachine, MMCSS_GAMES, "SFIO Priority"), None);
    assert_eq!(store.read_dword(Hive::LocalMachine, MMCSS_GAMES, "SFIO Priority"), None);
    assert_eq!(
        store.read_dword(Hive::LocalMachine, "SYSTEM\\CurrentControlSet\\Services\\DiagTrack", "Start"),
        Some(2)
    );
    assert_eq!(
        store.read_dword(Hive::LocalMachine, "SYSTEM\\CurrentControlSet\\Services\\WerSvc", "Start"),
        None
    );
}

#[test]
fn string_tweaks_alone() {
    let host = revi_host();
    let mut tweaks = ReviTweaksService::new();
    let effects = tweaks.apply_string_tweaks(&host.store);
    assert_eq!(effects.len(), 3);
    assert_eq!(effects[1], Effect::set_text(Hive::LocalMachine, MMCSS_GAMES, "Scheduling Category", "High"));
    let undo = tweaks.restore_string_tweaks();
    assert_eq!(
        undo,
        vec![
            Effect::set_text(Hive::LocalMachine, FOLDERS, "FolderType", "Documents"),
            Effect::delete_value(Hive::LocalMachine, MMCSS_GAMES, "Scheduling Category"),
            Effect::delete_value(Hive::LocalMachine, MMCSS_GAMES, "SFIO Priority"),
        ]
    );
}

#[test]
fn nothing_is_remembered_twice() {
    let mut tweaks = ReviTweaksService::new();
    tweaks.enable(&revi_host());
    let mut names: Vec<&String> = tweaks.service_states.iter().map(|s| &s.0).collect();
    names.sort();
    names.dedup();
    assert_eq!(names.len(), 18);
    let mut integers: Vec<(&String, &String)> =
        tweaks.registry_values.iter().map(|v| (&v.0, &v.1)).collect();
    integers.sort();
    integers.dedup();
    assert_eq!(integers.len(), 21);
    let mut texts: Vec<(&String, &String)> =
        tweaks.string_values.iter().map(|v| (&v.0, &v.1)).collect();
    texts.sort();
    texts.dedup();
    assert_eq!(texts.len(), 3);
}

#[test]
fn a_text_tweak_location_that_held_an_integer_gets_it_back() {
    let mut host = HostSnapshot::empty(1);
    host.store.set_dword(Hive::LocalMachine, MMCSS_GAMES, "Scheduling Category", 1);
    let mut store = ConfigStore::new();
    store.apply(host.store.history.clone());
    let mut tweaks = ReviTweaksService::new();
    store.apply(tweaks.enable(&host));
    assert_eq!(
        tweaks.string_values[1],
        (MMCSS_GAMES.to_string(), "Scheduling Category".to_string(), Some(RegistryData::Dword(1)))
    );
    assert_eq!(
        store.read(Hive::LocalMachine, MMCSS_GAMES, "Scheduling Category"),
        Some(RegistryData::Text("High".to_string()))
    );
    store.apply(tweaks.disable(&host));
    assert_eq!(
        store.read(Hive::LocalMachine, MMCSS_GAMES, "Scheduling Category"),
        Some(RegistryData::Dword(1))
    );
    assert_eq!(store.read(Hive::LocalMachine, MMCSS_GAMES, "SFIO Priority"), None);
}

#[test]
fn values_are_put_back_with_their_type() {
    assert_eq!(
        ConfigStore::restore(Hive::LocalMachine, "p", "n", &Some(RegistryData::Dword(3))),
        Effect::set_dword(Hive::LocalMachine, "p", "n", 3)
    );
    assert_eq!(
        ConfigStore::restore(Hive::LocalMachine, "p", "n", &Some(RegistryData::Text("t".to_string()))),
        Effect::set_text(Hive::LocalMachine, "p", "n", "t")
    );
    assert_eq!(
        ConfigStore::restore(Hive::LocalMachine, "p", "n", &None),
        Effect::delete_value(Hive::LocalMachine, "p", "n")
    );
}
