//! The system-wide tweak set: a batch of services that are disabled and of
//! configuration values that are replaced, each with its prior state
//! remembered for an exact restore.
use vstd::prelude::*;
use vstd::string::StringExecFns;
use crate::effect::{
    append_deep, push_deep, restore_dword, set_dword, set_text, Effect, EffectView,
    Hive,
};
use crate::host::HostSnapshot;
use crate::registry::integer_or_absent;
use crate::service_control::{
    state_of, ServiceStatus, WindowsServiceManager, SERVICE_RUNNING, SERVICE_STOPPED,
};
use crate::store::{
    as_dword, lemma_replay_concat, lemma_single_writer, location, replay, restore_value,
    ConfigStore, RegistryData,
    Location, StoredValue,
};

verus! {

/// Start-up type of a service that may not be started.
pub const STARTUP_DISABLED: u32 = 4;

/// A service as it was before the tweak: name, start-up type (`None` when
/// the value was absent), and whether it was running.
pub type SavedService = (String, Option<u32>, bool);

/// An integer value as it was before the tweak: path, name, and the value,
/// `None` when it was absent.
pub type SavedDword = (String, String, Option<u32>);

/// The value at the location of a text tweak as it was before the tweak,
/// with its type; `None` when it was absent.
pub type SavedText = (String, String, Option<RegistryData>);

/// The services that the tweak set disables.
pub open spec fn services_to_disable() -> Seq<Seq<char>> {
    seq![
        "DiagTrack"@,
        "WerSvc"@,
        "DPS"@,
        "WdiServiceHost"@,
        "WdiSystemHost"@,
        "PcaSvc"@,
        "wisvc"@,
        "WSearch"@,
        "SysMain"@,
        "FontCache"@,
        "Themes"@,
        "TabletInputService"@,
        "CDPSvc"@,
        "CDPUserSvc"@,
        "MapsBroker"@,
        "lfsvc"@,
        "WbioSrvc"@,
        "iphlpsvc"@,
    ]
}

/// The integer values that the tweak set writes: path, name, value.
pub open spec fn registry_tweaks() -> Seq<(Seq<char>, Seq<char>, u32)> {
    seq![
        (
            "SYSTEM\\CurrentControlSet\\Control\\DeviceGuard"@,
            "EnableVirtualizationBasedSecurity"@,
            0u32,
        ),
        (
            "SYSTEM\\CurrentControlSet\\Control\\DeviceGuard\\Scenarios\\HypervisorEnforcedCodeIntegrity"@,
            "Enabled"@,
            0u32,
        ),
        (
            "SYSTEM\\CurrentControlSet\\Control\\Session Manager\\Memory Management"@,
            "FeatureSettingsOverride"@,
            3u32,
        ),
        (
            "SYSTEM\\CurrentControlSet\\Control\\Session Manager\\Memory Management"@,
            "FeatureSettingsOverrideMask"@,
            3u32,
        ),
        ("SYSTEM\\CurrentControlSet\\Control"@, "WaitToKillServiceTimeout"@, 1500u32),
        (
            "SOFTWARE\\Microsoft\\Windows NT\\CurrentVersion\\Schedule\\Maintenance"@,
            "MaintenanceDisabled"@,
            1u32,
        ),
        ("SOFTWARE\\Policies\\Microsoft\\Windows\\DataCollection"@, "AllowTelemetry"@, 0u32),
        (
            "SOFTWARE\\Microsoft\\Windows\\CurrentVersion\\Policies\\DataCollection"@,
            "AllowTelemetry"@,
            0u32,
        ),
        (
            "SOFTWARE\\Microsoft\\PolicyManager\\current\\device\\System"@,
            "AllowExperimentation"@,
            0u32,
        ),
        ("SOFTWARE\\Policies\\Microsoft\\Windows\\PreviewBuilds"@, "EnableConfigFlighting"@, 0u32),
        (
            "SOFTWARE\\Classes\\Local Settings\\Software\\Microsoft\\Windows\\Shell\\Bags\\AllFolders\\Shell"@,
            "FolderType"@,
            0u32,
        ),
        ("SOFTWARE\\Policies\\Microsoft\\Windows\\Windows Search"@, "AllowCortana"@, 0u32),
        ("SOFTWARE\\Microsoft\\MSMQ\\Parameters"@, "TCPNoDelay"@, 1u32),
        (
            "SYSTEM\\CurrentControlSet\\Control\\Power\\PowerSettings\\54533251-82be-4824-96c1-47b60b740d00\\be337238-0d82-4146-a960-4f3749d470c7"@,
            "Attributes"@,
            2u32,
        ),
        ("SYSTEM\\CurrentControlSet\\Control\\GraphicsDrivers"@, "HwSchMode"@, 2u32),
        (
            "SOFTWARE\\Microsoft\\Windows NT\\CurrentVersion\\Multimedia\\SystemProfile"@,
            "SystemResponsiveness"@,
            0u32,
        ),
        (
            "SOFTWARE\\Microsoft\\Windows NT\\CurrentVersion\\Multimedia\\SystemProfile"@,
            "NetworkThrottlingIndex"@,
            0xFFFF_FFFFu32,
        ),
        (
            "SOFTWARE\\Microsoft\\Windows NT\\CurrentVersion\\Multimedia\\SystemProfile\\Tasks\\Games"@,
            "Priority"@,
            6u32,
        ),
        (
            "SOFTWARE\\Microsoft\\Windows NT\\CurrentVersion\\Multimedia\\SystemProfile\\Tasks\\Games"@,
            "Scheduling Category"@,
            2u32,
        ),
        (
            "SOFTWARE\\Microsoft\\Windows NT\\CurrentVersion\\Multimedia\\SystemProfile\\Tasks\\Games"@,
            "SFIO Priority"@,
            3u32,
        ),
        ("SYSTEM\\CurrentControlSet\\Control\\Power\\PowerThrottling"@, "PowerThrottlingOff"@, 1u32),
    ]
}

/// The text values that the tweak set writes: path, name, text.
pub open spec fn string_tweaks() -> Seq<(Seq<char>, Seq<char>, Seq<char>)> {
    seq![
        (
            "SOFTWARE\\Classes\\Local Settings\\Software\\Microsoft\\Windows\\Shell\\Bags\\AllFolders\\Shell"@,
            "FolderType"@,
            "NotSpecified"@,
        ),
        (
            "SOFTWARE\\Microsoft\\Windows NT\\CurrentVersion\\Multimedia\\SystemProfile\\Tasks\\Games"@,
            "Scheduling Category"@,
            "High"@,
        ),
        (
            "SOFTWARE\\Microsoft\\Windows NT\\CurrentVersion\\Multimedia\\SystemProfile\\Tasks\\Games"@,
            "SFIO Priority"@,
            "High"@,
        ),
    ]
}

/// Path of the settings of the service `name`.
pub open spec fn service_path(name: Seq<char>) -> Seq<char> {
    "SYSTEM\\CurrentControlSet\\Services\\"@ + name
}

/// The start-up type of the service `name`.
pub open spec fn startup_location(name: Seq<char>) -> Location {
    location(Hive::LocalMachine, service_path(name), "Start"@)
}

/// The location of a tweaked value.
pub open spec fn tweak_location(path: Seq<char>, name: Seq<char>) -> Location {
    location(Hive::LocalMachine, path, name)
}

/// Whether the service `name` is reported running.
pub open spec fn is_running(statuses: Seq<ServiceStatus>, name: Seq<char>) -> bool {
    state_of(statuses, name) == Some(SERVICE_RUNNING)
}

/// What is remembered of the services.
pub open spec fn captured_services(
    names: Seq<Seq<char>>,
    store: ConfigStore,
    statuses: Seq<ServiceStatus>,
) -> Seq<(Seq<char>, Option<u32>, bool)> {
    Seq::new(
        names.len(),
        |i: int|
            (
                names[i],
                as_dword(store.value(startup_location(names[i]))),
                is_running(statuses, names[i]),
            ),
    )
}

/// What is remembered of the integer values.
pub open spec fn captured_dwords(tweaks: Seq<(Seq<char>, Seq<char>, u32)>, store: ConfigStore) -> Seq<
    (Seq<char>, Seq<char>, Option<u32>),
> {
    Seq::new(
        tweaks.len(),
        |i: int|
            (
                tweaks[i].0,
                tweaks[i].1,
                as_dword(store.value(tweak_location(tweaks[i].0, tweaks[i].1))),
            ),
    )
}

/// What is remembered of the text values.
pub open spec fn captured_texts(
    tweaks: Seq<(Seq<char>, Seq<char>, Seq<char>)>,
    store: ConfigStore,
) -> Seq<(Seq<char>, Seq<char>, Option<StoredValue>)> {
    Seq::new(
        tweaks.len(),
        |i: int|
            (
                tweaks[i].0,
                tweaks[i].1,
                store.value(tweak_location(tweaks[i].0, tweaks[i].1)),
            ),
    )
}

/// Disabling the services: for each, the start-up type set to disabled,
/// and a stop request if it is running.
pub open spec fn service_disable_effects(names: Seq<Seq<char>>, statuses: Seq<ServiceStatus>) -> Seq<
    EffectView,
>
    decreases names.len(),
{
    if names.len() == 0 {
        Seq::empty()
    } else {
        let name = names.last();
        let rest = service_disable_effects(names.drop_last(), statuses).push(
            set_dword(Hive::LocalMachine, service_path(name), "Start"@, STARTUP_DISABLED),
        );
        if is_running(statuses, name) {
            rest.push(EffectView::StopService { name })
        } else {
            rest
        }
    }
}

/// Restoring the services: for each, the start-up type put back as it was
/// remembered (removed where it was absent), and a start request if it was
/// running and is stopped now.
pub open spec fn service_restore_effects(
    saved: Seq<(Seq<char>, Option<u32>, bool)>,
    statuses: Seq<ServiceStatus>,
) -> Seq<EffectView>
    decreases saved.len(),
{
    if saved.len() == 0 {
        Seq::empty()
    } else {
        let (name, startup, was_running) = saved.last();
        let rest = service_restore_effects(saved.drop_last(), statuses).push(
            restore_dword(Hive::LocalMachine, service_path(name), "Start"@, startup),
        );
        if was_running && state_of(statuses, name) == Some(SERVICE_STOPPED) {
            rest.push(EffectView::StartService { name })
        } else {
            rest
        }
    }
}

/// The integer tweaks written, in table order.
pub open spec fn dword_effects(tweaks: Seq<(Seq<char>, Seq<char>, u32)>) -> Seq<EffectView> {
    Seq::new(
        tweaks.len(),
        |i: int| set_dword(Hive::LocalMachine, tweaks[i].0, tweaks[i].1, tweaks[i].2),
    )
}

/// The text tweaks written, in table order.
pub open spec fn text_effects(tweaks: Seq<(Seq<char>, Seq<char>, Seq<char>)>) -> Seq<EffectView> {
    Seq::new(
        tweaks.len(),
        |i: int| set_text(Hive::LocalMachine, tweaks[i].0, tweaks[i].1, tweaks[i].2),
    )
}

/// The remembered integer values put back: written back where they were
/// present, removed where they were absent.
pub open spec fn dword_restore_effects(saved: Seq<(Seq<char>, Seq<char>, Option<u32>)>) -> Seq<
    EffectView,
> {
    Seq::new(
        saved.len(),
        |i: int| restore_dword(Hive::LocalMachine, saved[i].0, saved[i].1, saved[i].2),
    )
}

/// The values at the locations of the text tweaks put back exactly as they
/// were remembered, whatever their type; removed where they were absent.
pub open spec fn text_restore_effects(saved: Seq<(Seq<char>, Seq<char>, Option<StoredValue>)>) -> Seq<
    EffectView,
> {
    Seq::new(
        saved.len(),
        |i: int| restore_value(Hive::LocalMachine, saved[i].0, saved[i].1, saved[i].2),
    )
}

/// No service is remembered twice.
pub open spec fn service_names_differ(saved: Seq<(Seq<char>, Option<u32>, bool)>) -> bool {
    forall|i: int, j: int|
        0 <= i < j < saved.len() ==> (#[trigger] saved[i]).0 != (#[trigger] saved[j]).0
}

/// No integer value is remembered twice.
pub open spec fn dword_locations_differ(saved: Seq<(Seq<char>, Seq<char>, Option<u32>)>) -> bool {
    forall|i: int, j: int|
        0 <= i < j < saved.len() ==> tweak_location((#[trigger] saved[i]).0, saved[i].1)
            != tweak_location((#[trigger] saved[j]).0, saved[j].1)
}

/// No text value is remembered twice.
pub open spec fn text_locations_differ(
    saved: Seq<(Seq<char>, Seq<char>, Option<StoredValue>)>,
) -> bool {
    forall|i: int, j: int|
        0 <= i < j < saved.len() ==> tweak_location((#[trigger] saved[i]).0, saved[i].1)
            != tweak_location((#[trigger] saved[j]).0, saved[j].1)
}

/// The tweak set and what it remembers. The three lists stand for maps:
/// each is keyed by the service name or by the location of the value, and
/// `nothing_twice` says that no key occurs twice.
pub struct ReviTweaksService {
    pub applied: bool,
    pub service_states: Vec<SavedService>,
    pub registry_values: Vec<SavedDword>,
    pub string_values: Vec<SavedText>,
}

impl ReviTweaksService {
    /// Nothing is applied and nothing remembered.
    pub open spec fn is_fresh(&self) -> bool {
        &&& !self.applied
        &&& self.service_states@.len() == 0
        &&& self.registry_values@.len() == 0
        &&& self.string_values@.len() == 0
    }

    /// No service and no value is remembered twice.
    pub open spec fn nothing_twice(&self) -> bool {
        &&& service_names_differ(self.service_states.deep_view())
        &&& dword_locations_differ(self.registry_values.deep_view())
        &&& text_locations_differ(self.string_values.deep_view())
    }

    /// What `enable` asks for on a set that is not applied yet.
    pub open spec fn enable_effects(host: HostSnapshot) -> Seq<EffectView> {
        service_disable_effects(services_to_disable(), host.services@) + dword_effects(
            registry_tweaks(),
        ) + text_effects(string_tweaks())
    }

    /// What `disable` asks for on an applied set.
    pub open spec fn disable_effects(&self, host: HostSnapshot) -> Seq<EffectView> {
        service_restore_effects(self.service_states.deep_view(), host.services@)
            + dword_restore_effects(self.registry_values.deep_view()) + text_restore_effects(
            self.string_values.deep_view(),
        )
    }

    pub fn new() -> (s: Self)
        ensures
            s.is_fresh(),
    {
        ReviTweaksService {
            applied: false,
            service_states: Vec::new(),
            registry_values: Vec::new(),
            string_values: Vec::new(),
        }
    }

    pub fn services_to_disable() -> (list: Vec<&'static str>)
        ensures
            list.deep_view() == services_to_disable(),
    {
        let list = vec![
            "DiagTrack",
            "WerSvc",
            "DPS",
            "WdiServiceHost",
            "WdiSystemHost",
            "PcaSvc",
            "wisvc",
            "WSearch",
            "SysMain",
            "FontCache",
            "Themes",
            "TabletInputService",
            "CDPSvc",
            "CDPUserSvc",
            "MapsBroker",
            "lfsvc",
            "WbioSrvc",
            "iphlpsvc",
        ];
        assert(list.deep_view() =~= services_to_disable());
        list
    }

    pub fn registry_tweaks() -> (list: Vec<(&'static str, &'static str, u32)>)
        ensures
            list.deep_view() == registry_tweaks(),
    {
        let list = vec![
            (
                "SYSTEM\\CurrentControlSet\\Control\\DeviceGuard",
                "EnableVirtualizationBasedSecurity",
                0u32,
            ),
            (
                "SYSTEM\\CurrentControlSet\\Control\\DeviceGuard\\Scenarios\\HypervisorEnforcedCodeIntegrity",
                "Enabled",
                0u32,
            ),
            (
                "SYSTEM\\CurrentControlSet\\Control\\Session Manager\\Memory Management",
                "FeatureSettingsOverride",
                3u32,
            ),
            (
                "SYSTEM\\CurrentControlSet\\Control\\Session Manager\\Memory Management",
                "FeatureSettingsOverrideMask",
                3u32,
            ),
            ("SYSTEM\\CurrentControlSet\\Control", "WaitToKillServiceTimeout", 1500u32),
            (
                "SOFTWARE\\Microsoft\\Windows NT\\CurrentVersion\\Schedule\\Maintenance",
                "MaintenanceDisabled",
                1u32,
            ),
            ("SOFTWARE\\Policies\\Microsoft\\Windows\\DataCollection", "AllowTelemetry", 0u32),
            (
                "SOFTWARE\\Microsoft\\Windows\\CurrentVersion\\Policies\\DataCollection",
                "AllowTelemetry",
                0u32,
            ),
            (
                "SOFTWARE\\Microsoft\\PolicyManager\\current\\device\\System",
                "AllowExperimentation",
                0u32,
            ),
            ("SOFTWARE\\Policies\\Microsoft\\Windows\\PreviewBuilds", "EnableConfigFlighting", 0u32),
            (
                "SOFTWARE\\Classes\\Local Settings\\Software\\Microsoft\\Windows\\Shell\\Bags\\AllFolders\\Shell",
                "FolderType",
                0u32,
            ),
            ("SOFTWARE\\Policies\\Microsoft\\Windows\\Windows Search", "AllowCortana", 0u32),
            ("SOFTWARE\\Microsoft\\MSMQ\\Parameters", "TCPNoDelay", 1u32),
            (
                "SYSTEM\\CurrentControlSet\\Control\\Power\\PowerSettings\\54533251-82be-4824-96c1-47b60b740d00\\be337238-0d82-4146-a960-4f3749d470c7",
                "Attributes",
                2u32,
            ),
            ("SYSTEM\\CurrentControlSet\\Control\\GraphicsDrivers", "HwSchMode", 2u32),
            (
                "SOFTWARE\\Microsoft\\Windows NT\\CurrentVersion\\Multimedia\\SystemProfile",
                "SystemResponsiveness",
                0u32,
            ),
            (
                "SOFTWARE\\Microsoft\\Windows NT\\CurrentVersion\\Multimedia\\SystemProfile",
                "NetworkThrottlingIndex",
                0xFFFF_FFFFu32,
            ),
            (
                "SOFTWARE\\Microsoft\\Windows NT\\CurrentVersion\\Multimedia\\SystemProfile\\Tasks\\Games",
                "Priority",
                6u32,
            ),
            (
                "SOFTWARE\\Microsoft\\Windows NT\\CurrentVersion\\Multimedia\\SystemProfile\\Tasks\\Games",
                "Scheduling Category",
                2u32,
            ),
            (
                "SOFTWARE\\Microsoft\\Windows NT\\CurrentVersion\\Multimedia\\SystemProfile\\Tasks\\Games",
                "SFIO Priority",
                3u32,
            ),
            ("SYSTEM\\CurrentControlSet\\Control\\Power\\PowerThrottling", "PowerThrottlingOff", 1u32),
        ];
        assert(list.deep_view() =~= registry_tweaks());
        list
    }

    pub fn string_tweaks() -> (list: Vec<(&'static str, &'static str, &'static str)>)
        ensures
            list.deep_view() == string_tweaks(),
    {
        let list = vec![
            (
                "SOFTWARE\\Classes\\Local Settings\\Software\\Microsoft\\Windows\\Shell\\Bags\\AllFolders\\Shell",
                "FolderType",
                "NotSpecified",
            ),
            (
                "SOFTWARE\\Microsoft\\Windows NT\\CurrentVersion\\Multimedia\\SystemProfile\\Tasks\\Games",
                "Scheduling Category",
                "High",
            ),
            (
                "SOFTWARE\\Microsoft\\Windows NT\\CurrentVersion\\Multimedia\\SystemProfile\\Tasks\\Games",
                "SFIO Priority",
                "High",
            ),
        ];
        assert(list.deep_view() =~= string_tweaks());
        list
    }

    /// Whether the tweak set is applied.
    pub fn is_applied(&self) -> (r: bool)
        ensures
            r == self.applied,
    {
        self.applied
    }

    fn service_key(service_name: &str) -> (path: String)
        ensures
            path@ == service_path(service_name@),
    {
        let mut path = "SYSTEM\\CurrentControlSet\\Services\\".to_owned();
        path.append(service_name);
        path
    }

    /// The start-up type of a service, as the store holds it.
    pub fn get_service_startup_registry(store: &ConfigStore, service_name: &str) -> (startup:
        Option<u32>)
        ensures
            startup == as_dword(store.value(startup_location(service_name@))),
    {
        let path = Self::service_key(service_name);
        store.read_dword(Hive::LocalMachine, path.as_str(), "Start")
    }

    /// The write of a service's start-up type.
    pub fn set_service_startup_registry(service_name: &str, startup: u32) -> (e: Effect)
        ensures
            e@ == set_dword(Hive::LocalMachine, service_path(service_name@), "Start"@, startup),
    {
        let path = Self::service_key(service_name);
        Effect::set_dword(Hive::LocalMachine, path.as_str(), "Start", startup)
    }

    /// Remembers and disables the services.
    fn disable_services(&mut self, host: &HostSnapshot) -> (effects: Vec<Effect>)
        requires
            old(self).service_states@.len() == 0,
        ensures
            effects.deep_view() == service_disable_effects(services_to_disable(), host.services@),
            final(self).service_states.deep_view() == captured_services(
                services_to_disable(),
                host.store,
                host.services@,
            ),
            final(self).applied == old(self).applied,
            final(self).registry_values == old(self).registry_values,
            final(self).string_values == old(self).string_values,
    {
        let names = Self::services_to_disable();
        let mut effects: Vec<Effect> = Vec::new();
        let mut i: usize = 0;
        assert(effects.deep_view() =~= Seq::<EffectView>::empty());
        assert(names.deep_view().subrange(0, 0) =~= Seq::<Seq<char>>::empty());
        assert(self.service_states.deep_view() =~= captured_services(
            names.deep_view().subrange(0, 0),
            host.store,
            host.services@,
        ));
        while i < names.len()
            invariant
                i <= names@.len(),
                names.deep_view() == services_to_disable(),
                effects.deep_view() == service_disable_effects(
                    names.deep_view().subrange(0, i as int),
                    host.services@,
                ),
                self.service_states.deep_view() == captured_services(
                    names.deep_view().subrange(0, i as int),
                    host.store,
                    host.services@,
                ),
                self.applied == old(self).applied,
                self.registry_values == old(self).registry_values,
                self.string_values == old(self).string_values,
            decreases names@.len() - i,
        {
            let name = names[i];
            proof {
                let upto = names.deep_view().subrange(0, i as int + 1);
                assert(upto.drop_last() =~= names.deep_view().subrange(0, i as int));
                assert(upto.last() == name@);
            }
            let startup = Self::get_service_startup_registry(&host.store, name);
            let was_running = WindowsServiceManager::stop_single_service(name, &host.services);
            push_deep(&mut self.service_states, (name.to_owned(), startup, was_running));
            assert(self.service_states.deep_view() =~= captured_services(
                names.deep_view().subrange(0, i as int + 1),
                host.store,
                host.services@,
            ));
            push_deep(&mut effects, Self::set_service_startup_registry(name, STARTUP_DISABLED));
            if was_running {
                push_deep(&mut effects, Effect::StopService { name: name.to_owned() });
            }
            i += 1;
        }
        assert(names.deep_view().subrange(0, names@.len() as int) =~= names.deep_view());
        effects
    }

    /// Remembers and writes the integer tweaks.
    fn apply_dword_tweaks(&mut self, store: &ConfigStore) -> (effects: Vec<Effect>)
        requires
            old(self).registry_values@.len() == 0,
        ensures
            effects.deep_view() == dword_effects(registry_tweaks()),
            final(self).registry_values.deep_view() == captured_dwords(registry_tweaks(), *store),
            final(self).applied == old(self).applied,
            final(self).service_states == old(self).service_states,
            final(self).string_values == old(self).string_values,
    {
        let tweaks = Self::registry_tweaks();
        let mut effects: Vec<Effect> = Vec::new();
        let mut i: usize = 0;
        assert(effects.deep_view() =~= dword_effects(tweaks.deep_view().subrange(0, 0)));
        assert(self.registry_values.deep_view() =~= captured_dwords(
            tweaks.deep_view().subrange(0, 0),
            *store,
        ));
        while i < tweaks.len()
            invariant
                i <= tweaks@.len(),
                tweaks.deep_view() == registry_tweaks(),
                effects.deep_view() == dword_effects(tweaks.deep_view().subrange(0, i as int)),
                self.registry_values.deep_view() == captured_dwords(
                    tweaks.deep_view().subrange(0, i as int),
                    *store,
                ),
                self.applied == old(self).applied,
                self.service_states == old(self).service_states,
                self.string_values == old(self).string_values,
            decreases tweaks@.len() - i,
        {
            let (path, name, data) = tweaks[i];
            assert(tweaks.deep_view()[i as int] == (path@, name@, data));
            let original = store.read_dword(Hive::LocalMachine, path, name);
            push_deep(&mut self.registry_values, (path.to_owned(), name.to_owned(), original));
            assert(self.registry_values.deep_view() =~= captured_dwords(
                tweaks.deep_view().subrange(0, i as int + 1),
                *store,
            ));
            push_deep(&mut effects, Effect::set_dword(Hive::LocalMachine, path, name, data));
            assert(effects.deep_view() =~= dword_effects(
                tweaks.deep_view().subrange(0, i as int + 1),
            ));
            i += 1;
        }
        assert(tweaks.deep_view().subrange(0, tweaks@.len() as int) =~= tweaks.deep_view());
        effects
    }

    /// Remembers and writes the text tweaks.
    pub fn apply_string_tweaks(&mut self, store: &ConfigStore) -> (effects: Vec<Effect>)
        ensures
            effects.deep_view() == text_effects(string_tweaks()),
            final(self).string_values.deep_view() == captured_texts(string_tweaks(), *store),
            final(self).applied == old(self).applied,
            final(self).service_states == old(self).service_states,
            final(self).registry_values == old(self).registry_values,
    {
        let tweaks = Self::string_tweaks();
        let mut effects: Vec<Effect> = Vec::new();
        let mut i: usize = 0;
        self.string_values = Vec::new();
        assert(effects.deep_view() =~= text_effects(tweaks.deep_view().subrange(0, 0)));
        assert(self.string_values.deep_view() =~= captured_texts(
            tweaks.deep_view().subrange(0, 0),
            *store,
        ));
        while i < tweaks.len()
            invariant
                i <= tweaks@.len(),
                tweaks.deep_view() == string_tweaks(),
                effects.deep_view() == text_effects(tweaks.deep_view().subrange(0, i as int)),
                self.string_values.deep_view() == captured_texts(
                    tweaks.deep_view().subrange(0, i as int),
                    *store,
                ),
                self.applied == old(self).applied,
                self.service_states == old(self).service_states,
                self.registry_values == old(self).registry_values,
            decreases tweaks@.len() - i,
        {
            let (path, name, text) = tweaks[i];
            assert(tweaks.deep_view()[i as int] == (path@, name@, text@));
            let original = store.read(Hive::LocalMachine, path, name);
            push_deep(&mut self.string_values, (path.to_owned(), name.to_owned(), original));
            assert(self.string_values.deep_view() =~= captured_texts(
                tweaks.deep_view().subrange(0, i as int + 1),
                *store,
            ));
            push_deep(&mut effects, Effect::set_text(Hive::LocalMachine, path, name, text));
            assert(effects.deep_view() =~= text_effects(
                tweaks.deep_view().subrange(0, i as int + 1),
            ));
            i += 1;
        }
        assert(tweaks.deep_view().subrange(0, tweaks@.len() as int) =~= tweaks.deep_view());
        effects
    }

    /// Puts the remembered text values back.
    pub fn restore_string_tweaks(&self) -> (effects: Vec<Effect>)
        ensures
            effects.deep_view() == text_restore_effects(self.string_values.deep_view()),
    {
        let mut effects: Vec<Effect> = Vec::new();
        let mut i: usize = 0;
        let ghost saved = self.string_values.deep_view();
        assert(effects.deep_view() =~= text_restore_effects(saved.subrange(0, 0)));
        while i < self.string_values.len()
            invariant
                i <= self.string_values@.len(),
                saved == self.string_values.deep_view(),
                effects.deep_view() == text_restore_effects(saved.subrange(0, i as int)),
            decreases self.string_values@.len() - i,
        {
            let entry = &self.string_values[i];
            assert(saved[i as int] == (entry.0@, entry.1@, entry.2.deep_view()));
            push_deep(
                &mut effects,
                ConfigStore::restore(
                    Hive::LocalMachine,
                    entry.0.as_str(),
                    entry.1.as_str(),
                    &entry.2,
                ),
            );
            assert(effects.deep_view() =~= text_restore_effects(saved.subrange(0, i as int + 1)));
            i += 1;
        }
        assert(saved.subrange(0, saved.len() as int) =~= saved);
        effects
    }

    /// Puts the remembered integer values back.
    fn restore_dword_tweaks(&self) -> (effects: Vec<Effect>)
        ensures
            effects.deep_view() == dword_restore_effects(self.registry_values.deep_view()),
    {
        let mut effects: Vec<Effect> = Vec::new();
        let mut i: usize = 0;
        let ghost saved = self.registry_values.deep_view();
        assert(effects.deep_view() =~= dword_restore_effects(saved.subrange(0, 0)));
        while i < self.registry_values.len()
            invariant
                i <= self.registry_values@.len(),
                saved == self.registry_values.deep_view(),
                effects.deep_view() == dword_restore_effects(saved.subrange(0, i as int)),
            decreases self.registry_values@.len() - i,
        {
            let entry = &self.registry_values[i];
            assert(saved[i as int] == (entry.0@, entry.1@, entry.2));
            push_deep(
                &mut effects,
                Effect::restore_dword(
                    Hive::LocalMachine,
                    entry.0.as_str(),
                    entry.1.as_str(),
                    entry.2,
                ),
            );
            assert(effects.deep_view() =~= dword_restore_effects(saved.subrange(0, i as int + 1)));
            i += 1;
        }
        assert(saved.subrange(0, saved.len() as int) =~= saved);
        effects
    }

    /// Puts the remembered services back.
    fn restore_services(&self, statuses: &Vec<ServiceStatus>) -> (effects: Vec<Effect>)
        ensures
            effects.deep_view() == service_restore_effects(
                self.service_states.deep_view(),
                statuses@,
            ),
    {
        let mut effects: Vec<Effect> = Vec::new();
        let mut i: usize = 0;
        let ghost saved = self.service_states.deep_view();
        assert(effects.deep_view() =~= Seq::<EffectView>::empty());
        assert(saved.subrange(0, 0) =~= Seq::<(Seq<char>, Option<u32>, bool)>::empty());
        while i < self.service_states.len()
            invariant
                i <= self.service_states@.len(),
                saved == self.service_states.deep_view(),
                effects.deep_view() == service_restore_effects(
                    saved.subrange(0, i as int),
                    statuses@,
                ),
            decreases self.service_states@.len() - i,
        {
            let entry = &self.service_states[i];
            proof {
                let upto = saved.subrange(0, i as int + 1);
                assert(upto.drop_last() =~= saved.subrange(0, i as int));
                assert(upto.last() == (entry.0@, entry.1, entry.2));
            }
            push_deep(
                &mut effects,
                Effect::restore_dword(
                    Hive::LocalMachine,
                    Self::service_key(entry.0.as_str()).as_str(),
                    "Start",
                    entry.1,
                ),
            );
            if entry.2 && WindowsServiceManager::start_single_service(entry.0.as_str(), statuses) {
                push_deep(&mut effects, Effect::StartService { name: entry.0.clone() });
            }
            i += 1;
        }
        assert(saved.subrange(0, saved.len() as int) =~= saved);
        effects
    }

    /// Applies the tweak set: remembers the state of every service and
    /// value it is about to change, then asks for the changes. A set that
    /// is applied already is left alone.
    pub fn enable(&mut self, host: &HostSnapshot) -> (effects: Vec<Effect>)
        ensures
            old(self).applied ==> effects@.len() == 0 && *final(self) == *old(self),
            !old(self).applied ==> {
                &&& effects.deep_view() == Self::enable_effects(*host)
                &&& final(self).applied
                &&& final(self).service_states.deep_view() == captured_services(
                    services_to_disable(),
                    host.store,
                    host.services@,
                )
                &&& final(self).registry_values.deep_view() == captured_dwords(
                    registry_tweaks(),
                    host.store,
                )
                &&& final(self).string_values.deep_view() == captured_texts(
                    string_tweaks(),
                    host.store,
                )
                &&& final(self).nothing_twice()
            },
    {
        if self.applied {
            return Vec::new();
        }
        self.service_states = Vec::new();
        self.registry_values = Vec::new();
        let mut effects = self.disable_services(host);
        append_deep(&mut effects, self.apply_dword_tweaks(&host.store));
        append_deep(&mut effects, self.apply_string_tweaks(&host.store));
        self.applied = true;
        proof {
            lemma_tables_hold_nothing_twice(host.store, host.services@);
        }
        effects
    }

    /// Restores what `enable` remembered: the services first, then the
    /// integer values, then the text values; and forgets it. A set that is
    /// not applied is left alone.
    pub fn disable(&mut self, host: &HostSnapshot) -> (effects: Vec<Effect>)
        ensures
            !old(self).applied ==> effects@.len() == 0 && *final(self) == *old(self),
            old(self).applied ==> effects.deep_view() == old(self).disable_effects(*host)
                && final(self).is_fresh(),
    {
        if !self.applied {
            return Vec::new();
        }
        let mut effects = self.restore_services(&host.services);
        append_deep(&mut effects, self.restore_dword_tweaks());
        append_deep(&mut effects, self.restore_string_tweaks());
        self.service_states = Vec::new();
        self.registry_values = Vec::new();
        self.string_values = Vec::new();
        self.applied = false;
        effects
    }
}

/// Round trip of a batch of integer tweaks. At a location that the batch
/// tweaks once and that held an integer or nothing, writing the tweaks and
/// then putting back what was remembered leaves the value it held before;
/// a value that was absent is absent again.
pub proof fn lemma_dword_batch_round_trip(
    tweaks: Seq<(Seq<char>, Seq<char>, u32)>,
    store: ConfigStore,
    k: int,
)
    requires
        0 <= k < tweaks.len(),
        forall|j: int|
            0 <= j < tweaks.len() && j != k ==> tweak_location(
                #[trigger] tweaks[j].0,
                tweaks[j].1,
            ) != tweak_location(tweaks[k].0, tweaks[k].1),
        integer_or_absent(store.value(tweak_location(tweaks[k].0, tweaks[k].1))),
    ensures
        replay(
            store.value(tweak_location(tweaks[k].0, tweaks[k].1)),
            dword_effects(tweaks) + dword_restore_effects(captured_dwords(tweaks, store)),
            tweak_location(tweaks[k].0, tweaks[k].1),
        ) == store.value(tweak_location(tweaks[k].0, tweaks[k].1)),
{
    let at = tweak_location(tweaks[k].0, tweaks[k].1);
    let undo = dword_restore_effects(captured_dwords(tweaks, store));
    lemma_replay_concat(store.value(at), dword_effects(tweaks), undo, at);
    assert forall|j: int| 0 <= j < undo.len() && j != k implies !crate::store::writes_to(
        #[trigger] undo[j],
        at,
    ) by {
        assert(tweak_location(tweaks[j].0, tweaks[j].1) != at);
    }
    lemma_single_writer(replay(store.value(at), dword_effects(tweaks), at), undo, k, at);
}

/// Round trip of a batch of text tweaks, at a location that the batch
/// tweaks once: whatever it held, writing the tweaks and putting back what
/// was remembered leaves it as it was.
pub proof fn lemma_text_batch_round_trip(
    tweaks: Seq<(Seq<char>, Seq<char>, Seq<char>)>,
    store: ConfigStore,
    k: int,
)
    requires
        0 <= k < tweaks.len(),
        forall|j: int|
            0 <= j < tweaks.len() && j != k ==> tweak_location(
                #[trigger] tweaks[j].0,
                tweaks[j].1,
            ) != tweak_location(tweaks[k].0, tweaks[k].1),
    ensures
        replay(
            store.value(tweak_location(tweaks[k].0, tweaks[k].1)),
            text_effects(tweaks) + text_restore_effects(captured_texts(tweaks, store)),
            tweak_location(tweaks[k].0, tweaks[k].1),
        ) == store.value(tweak_location(tweaks[k].0, tweaks[k].1)),
{
    let at = tweak_location(tweaks[k].0, tweaks[k].1);
    let undo = text_restore_effects(captured_texts(tweaks, store));
    lemma_replay_concat(store.value(at), text_effects(tweaks), undo, at);
    assert forall|j: int| 0 <= j < undo.len() && j != k implies !crate::store::writes_to(
        #[trigger] undo[j],
        at,
    ) by {
        assert(tweak_location(tweaks[j].0, tweaks[j].1) != at);
    }
    lemma_single_writer(replay(store.value(at), text_effects(tweaks), at), undo, k, at);
}

/// The location of the `i`-th integer tweak.
pub open spec fn dword_location(i: int) -> Location {
    tweak_location(registry_tweaks()[i].0, registry_tweaks()[i].1)
}

/// No two integer tweaks write to the same location.
pub proof fn lemma_registry_tweaks_differ()
    ensures
        forall|i: int, j: int|
            0 <= i < j < registry_tweaks().len() ==> #[trigger] dword_location(i)
                != #[trigger] dword_location(j),
{
    reveal_strlit("EnableVirtualizationBasedSecurity");
    reveal_strlit("Enabled");
    reveal_strlit("FeatureSettingsOverride");
    reveal_strlit("FeatureSettingsOverrideMask");
    reveal_strlit("WaitToKillServiceTimeout");
    reveal_strlit("MaintenanceDisabled");
    reveal_strlit("AllowTelemetry");
    reveal_strlit("AllowExperimentation");
    reveal_strlit("EnableConfigFlighting");
    reveal_strlit("FolderType");
    reveal_strlit("AllowCortana");
    reveal_strlit("TCPNoDelay");
    reveal_strlit("Attributes");
    reveal_strlit("HwSchMode");
    reveal_strlit("SystemResponsiveness");
    reveal_strlit("NetworkThrottlingIndex");
    reveal_strlit("Priority");
    reveal_strlit("Scheduling Category");
    reveal_strlit("SFIO Priority");
    reveal_strlit("PowerThrottlingOff");
    assert("EnableVirtualizationBasedSecurity"@.len() == 33);
    assert("Enabled"@.len() == 7);
    assert("FeatureSettingsOverride"@.len() == 23);
    assert("FeatureSettingsOverrideMask"@.len() == 27);
    assert("WaitToKillServiceTimeout"@.len() == 24);
    assert("MaintenanceDisabled"@.len() == 19);
    assert("AllowTelemetry"@.len() == 14);
    assert("AllowExperimentation"@.len() == 20);
    assert("EnableConfigFlighting"@.len() == 21);
    assert("FolderType"@.len() == 10);
    assert("AllowCortana"@.len() == 12);
    assert("TCPNoDelay"@.len() == 10);
    assert("Attributes"@.len() == 10);
    assert("HwSchMode"@.len() == 9);
    assert("SystemResponsiveness"@.len() == 20);
    assert("NetworkThrottlingIndex"@.len() == 22);
    assert("Priority"@.len() == 8);
    assert("Scheduling Category"@.len() == 19);
    assert("SFIO Priority"@.len() == 13);
    assert("PowerThrottlingOff"@.len() == 18);
    assert("MaintenanceDisabled"@[0] == 'M');
    assert("Scheduling Category"@[0] == 'S');
    assert("AllowExperimentation"@[0] == 'A');
    assert("SystemResponsiveness"@[0] == 'S');
    assert("FolderType"@[0] == 'F');
    assert("TCPNoDelay"@[0] == 'T');
    assert("Attributes"@[0] == 'A');
    reveal_strlit("SOFTWARE\\Policies\\Microsoft\\Windows\\DataCollection");
    reveal_strlit("SOFTWARE\\Microsoft\\Windows\\CurrentVersion\\Policies\\DataCollection");
    assert("SOFTWARE\\Policies\\Microsoft\\Windows\\DataCollection"@.len() == 50);
    assert("SOFTWARE\\Microsoft\\Windows\\CurrentVersion\\Policies\\DataCollection"@.len() == 65);
}

/// Round trip of the integer tweaks of the set: at the location of every
/// one of them that held an integer or nothing, writing the tweaks and
/// putting back what was remembered leaves the value it held before.
pub proof fn lemma_registry_tweaks_round_trip(store: ConfigStore, k: int)
    requires
        0 <= k < registry_tweaks().len(),
        integer_or_absent(store.value(dword_location(k))),
    ensures
        replay(
            store.value(dword_location(k)),
            dword_effects(registry_tweaks()) + dword_restore_effects(
                captured_dwords(registry_tweaks(), store),
            ),
            dword_location(k),
        ) == store.value(dword_location(k)),
{
    lemma_registry_tweaks_differ();
    assert forall|j: int| 0 <= j < registry_tweaks().len() && j != k implies tweak_location(
        #[trigger] registry_tweaks()[j].0,
        registry_tweaks()[j].1,
    ) != tweak_location(registry_tweaks()[k].0, registry_tweaks()[k].1) by {
        if j < k {
            assert(dword_location(j) != dword_location(k));
        } else {
            assert(dword_location(k) != dword_location(j));
        }
    }
    lemma_dword_batch_round_trip(registry_tweaks(), store, k);
}

/// Whether the `k`-th integer tweak shares its location with a text tweak.
pub open spec fn is_also_text_tweak(k: int) -> bool {
    k == 10 || k == 18 || k == 19
}

/// Round trip of the whole tweak set: at the location of every integer
/// tweak that no text tweak shares, if it held an integer or nothing,
/// applying the set and restoring it leaves the value it held before,
/// whatever the services are doing at either time. The three locations
/// that a text tweak shares are covered by
/// `lemma_tweak_set_text_round_trip`.
pub proof fn lemma_tweak_set_round_trip(
    applied: ReviTweaksService,
    host: HostSnapshot,
    later: HostSnapshot,
    k: int,
)
    requires
        applied.registry_values.deep_view() == captured_dwords(registry_tweaks(), host.store),
        applied.string_values.deep_view() == captured_texts(string_tweaks(), host.store),
        0 <= k < registry_tweaks().len(),
        !is_also_text_tweak(k),
        integer_or_absent(host.store.value(dword_location(k))),
    ensures
        replay(
            host.store.value(dword_location(k)),
            ReviTweaksService::enable_effects(host) + applied.disable_effects(later),
            dword_location(k),
        ) == host.store.value(dword_location(k)),
{
    let at = dword_location(k);
    let v0 = host.store.value(at);
    let services = service_restore_effects(applied.service_states.deep_view(), later.services@);
    let integers = dword_restore_effects(applied.registry_values.deep_view());
    let texts = text_restore_effects(applied.string_values.deep_view());
    lemma_replay_concat(v0, ReviTweaksService::enable_effects(host), applied.disable_effects(later), at);
    let mid = replay(v0, ReviTweaksService::enable_effects(host), at);
    lemma_replay_concat(mid, services + integers, texts, at);
    lemma_replay_concat(mid, services, integers, at);
    lemma_registry_tweaks_differ();
    assert forall|j: int| 0 <= j < integers.len() && j != k implies !crate::store::writes_to(
        #[trigger] integers[j],
        at,
    ) by {
        if j < k {
            assert(dword_location(j) != dword_location(k));
        } else {
            assert(dword_location(k) != dword_location(j));
        }
    }
    lemma_single_writer(replay(mid, services, at), integers, k, at);
    assert(crate::store::spares(texts, at)) by {
        reveal_strlit("FolderType");
        reveal_strlit("Scheduling Category");
        reveal_strlit("SFIO Priority");
        reveal_strlit("EnableVirtualizationBasedSecurity");
        reveal_strlit("Enabled");
        reveal_strlit("FeatureSettingsOverride");
        reveal_strlit("FeatureSettingsOverrideMask");
        reveal_strlit("WaitToKillServiceTimeout");
        reveal_strlit("MaintenanceDisabled");
        reveal_strlit("AllowTelemetry");
        reveal_strlit("AllowExperimentation");
        reveal_strlit("EnableConfigFlighting");
        reveal_strlit("AllowCortana");
        reveal_strlit("TCPNoDelay");
        reveal_strlit("Attributes");
        reveal_strlit("HwSchMode");
        reveal_strlit("SystemResponsiveness");
        reveal_strlit("NetworkThrottlingIndex");
        reveal_strlit("Priority");
        reveal_strlit("PowerThrottlingOff");
        assert("FolderType"@.len() == 10 && "FolderType"@[0] == 'F');
        assert("Scheduling Category"@.len() == 19 && "Scheduling Category"@[0] == 'S');
        assert("SFIO Priority"@.len() == 13);
        assert("EnableVirtualizationBasedSecurity"@.len() == 33);
        assert("Enabled"@.len() == 7);
        assert("FeatureSettingsOverride"@.len() == 23);
        assert("FeatureSettingsOverrideMask"@.len() == 27);
        assert("WaitToKillServiceTimeout"@.len() == 24);
        assert("MaintenanceDisabled"@.len() == 19 && "MaintenanceDisabled"@[0] == 'M');
        assert("AllowTelemetry"@.len() == 14);
        assert("AllowExperimentation"@.len() == 20);
        assert("EnableConfigFlighting"@.len() == 21);
        assert("AllowCortana"@.len() == 12);
        assert("TCPNoDelay"@.len() == 10 && "TCPNoDelay"@[0] == 'T');
        assert("Attributes"@.len() == 10 && "Attributes"@[0] == 'A');
        assert("HwSchMode"@.len() == 9);
        assert("SystemResponsiveness"@.len() == 20);
        assert("NetworkThrottlingIndex"@.len() == 22);
        assert("Priority"@.len() == 8);
        assert("PowerThrottlingOff"@.len() == 18);
    }
    crate::store::lemma_replay_untouched(replay(mid, services + integers, at), texts, at);
}

/// The tables of the tweak set name no service and no value twice, so what
/// `enable` remembers holds nothing twice.
pub proof fn lemma_tables_hold_nothing_twice(store: ConfigStore, statuses: Seq<ServiceStatus>)
    ensures
        service_names_differ(captured_services(services_to_disable(), store, statuses)),
        dword_locations_differ(captured_dwords(registry_tweaks(), store)),
        text_locations_differ(captured_texts(string_tweaks(), store)),
{
    assert(service_names_differ(captured_services(services_to_disable(), store, statuses))) by {
        reveal_strlit("DiagTrack");
        assert("DiagTrack"@.len() == 9 && "DiagTrack"@[0] == 'D');
        reveal_strlit("WerSvc");
        assert("WerSvc"@.len() == 6 && "WerSvc"@[0] == 'W');
        reveal_strlit("DPS");
        assert("DPS"@.len() == 3 && "DPS"@[0] == 'D');
        reveal_strlit("WdiServiceHost");
        assert("WdiServiceHost"@.len() == 14 && "WdiServiceHost"@[0] == 'W');
        reveal_strlit("WdiSystemHost");
        assert("WdiSystemHost"@.len() == 13 && "WdiSystemHost"@[0] == 'W');
        reveal_strlit("PcaSvc");
        assert("PcaSvc"@.len() == 6 && "PcaSvc"@[0] == 'P');
        reveal_strlit("wisvc");
        assert("wisvc"@.len() == 5 && "wisvc"@[0] == 'w');
        reveal_strlit("WSearch");
        assert("WSearch"@.len() == 7 && "WSearch"@[0] == 'W');
        reveal_strlit("SysMain");
        assert("SysMain"@.len() == 7 && "SysMain"@[0] == 'S');
        reveal_strlit("FontCache");
        assert("FontCache"@.len() == 9 && "FontCache"@[0] == 'F');
        reveal_strlit("Themes");
        assert("Themes"@.len() == 6 && "Themes"@[0] == 'T');
        reveal_strlit("TabletInputService");
        assert("TabletInputService"@.len() == 18 && "TabletInputService"@[0] == 'T');
        reveal_strlit("CDPSvc");
        assert("CDPSvc"@.len() == 6 && "CDPSvc"@[0] == 'C');
        reveal_strlit("CDPUserSvc");
        assert("CDPUserSvc"@.len() == 10 && "CDPUserSvc"@[0] == 'C');
        reveal_strlit("MapsBroker");
        assert("MapsBroker"@.len() == 10 && "MapsBroker"@[0] == 'M');
        reveal_strlit("lfsvc");
        assert("lfsvc"@.len() == 5 && "lfsvc"@[0] == 'l');
        reveal_strlit("WbioSrvc");
        assert("WbioSrvc"@.len() == 8 && "WbioSrvc"@[0] == 'W');
        reveal_strlit("iphlpsvc");
        assert("iphlpsvc"@.len() == 8 && "iphlpsvc"@[0] == 'i');
    }
    assert(dword_locations_differ(captured_dwords(registry_tweaks(), store))) by {
        lemma_registry_tweaks_differ();
        let saved = captured_dwords(registry_tweaks(), store);
        assert forall|i: int, j: int| 0 <= i < j < saved.len() implies tweak_location(
            (#[trigger] saved[i]).0,
            saved[i].1,
        ) != tweak_location((#[trigger] saved[j]).0, saved[j].1) by {
            assert(dword_location(i) != dword_location(j));
        }
    }
    assert(text_locations_differ(captured_texts(string_tweaks(), store))) by {
        reveal_strlit("FolderType");
        reveal_strlit("Scheduling Category");
        reveal_strlit("SFIO Priority");
        assert("FolderType"@.len() == 10);
        assert("Scheduling Category"@.len() == 19);
        assert("SFIO Priority"@.len() == 13);
    }
}

/// Different services have different settings paths.
pub proof fn lemma_service_paths_differ(a: Seq<char>, b: Seq<char>)
    requires
        a != b,
    ensures
        startup_location(a) != startup_location(b),
{
    let prefix = "SYSTEM\\CurrentControlSet\\Services\\"@;
    if service_path(a) == service_path(b) {
        assert(a =~= (prefix + a).subrange(prefix.len() as int, (prefix + a).len() as int));
        assert(b =~= (prefix + b).subrange(prefix.len() as int, (prefix + b).len() as int));
    }
}

/// The restore of the services leaves the start-up type of the `k`-th
/// service as it was remembered, whatever was written in between, provided
/// no other service has the same name and the value held an integer or
/// nothing.
pub proof fn lemma_service_restore_puts_back(
    names: Seq<Seq<char>>,
    store: ConfigStore,
    statuses: Seq<ServiceStatus>,
    later: Seq<ServiceStatus>,
    between: Option<StoredValue>,
    k: int,
)
    requires
        0 <= k < names.len(),
        forall|j: int| 0 <= j < names.len() && j != k ==> #[trigger] names[j] != names[k],
        integer_or_absent(store.value(startup_location(names[k]))),
    ensures
        replay(
            between,
            service_restore_effects(captured_services(names, store, statuses), later),
            startup_location(names[k]),
        ) == store.value(startup_location(names[k])),
    decreases names.len(),
{
    let at = startup_location(names[k]);
    let saved = captured_services(names, store, statuses);
    let (name, startup, was_running) = saved.last();
    assert(saved.drop_last() =~= captured_services(names.drop_last(), store, statuses));
    let earlier = service_restore_effects(saved.drop_last(), later);
    let put = restore_dword(Hive::LocalMachine, service_path(name), "Start"@, startup);
    let with_put = earlier.push(put);
    assert(with_put.drop_last() =~= earlier);
    let all = service_restore_effects(saved, later);
    assert(saved.last() == saved[names.len() - 1]);
    assert(name == names[names.len() - 1]);
    assert(startup == as_dword(store.value(startup_location(name))));
    assert(with_put.last() == put);
    assert(replay(between, with_put, at) == crate::store::step(
        replay(between, earlier, at),
        put,
        at,
    ));
    if was_running && state_of(later, name) == Some(SERVICE_STOPPED) {
        assert(all == with_put.push(EffectView::StartService { name }));
        assert(all.drop_last() =~= with_put);
        assert(all.last() == (EffectView::StartService { name }));
        assert(replay(between, all, at) == replay(between, with_put, at));
    } else {
        assert(all == with_put);
    }
    if k == names.len() - 1 {
        assert(crate::store::writes_to(put, at));
    } else {
        assert(names[names.len() - 1] != names[k]);
        lemma_service_paths_differ(name, names[k]);
        assert(!crate::store::writes_to(put, at));
        assert(names.drop_last()[k] == names[k]);
        assert forall|j: int| 0 <= j < names.drop_last().len() && j != k implies #[trigger] names.drop_last()[j]
            != names.drop_last()[k] by {
            assert(names.drop_last()[j] == names[j]);
        }
        lemma_service_restore_puts_back(names.drop_last(), store, statuses, later, between, k);
    }
}

/// Round trip of the start-up types: at the start-up type of every
/// service of the set, if it held an integer or nothing, applying the set
/// and restoring it leaves the value it held before; a start-up type that
/// was absent is absent again.
pub proof fn lemma_startup_round_trip(
    applied: ReviTweaksService,
    host: HostSnapshot,
    later: HostSnapshot,
    k: int,
)
    requires
        applied.service_states.deep_view() == captured_services(
            services_to_disable(),
            host.store,
            host.services@,
        ),
        applied.registry_values.deep_view() == captured_dwords(registry_tweaks(), host.store),
        applied.string_values.deep_view() == captured_texts(string_tweaks(), host.store),
        0 <= k < services_to_disable().len(),
        integer_or_absent(host.store.value(startup_location(services_to_disable()[k]))),
    ensures
        replay(
            host.store.value(startup_location(services_to_disable()[k])),
            ReviTweaksService::enable_effects(host) + applied.disable_effects(later),
            startup_location(services_to_disable()[k]),
        ) == host.store.value(startup_location(services_to_disable()[k])),
{
    let names = services_to_disable();
    let at = startup_location(names[k]);
    let v0 = host.store.value(at);
    let services = service_restore_effects(applied.service_states.deep_view(), later.services@);
    let integers = dword_restore_effects(applied.registry_values.deep_view());
    let texts = text_restore_effects(applied.string_values.deep_view());
    lemma_replay_concat(v0, ReviTweaksService::enable_effects(host), applied.disable_effects(later), at);
    let mid = replay(v0, ReviTweaksService::enable_effects(host), at);
    lemma_replay_concat(mid, services + integers, texts, at);
    lemma_replay_concat(mid, services, integers, at);
    lemma_tables_hold_nothing_twice(host.store, host.services@);
    assert forall|j: int| 0 <= j < names.len() && j != k implies #[trigger] names[j]
        != names[k] by {
        let saved = captured_services(names, host.store, host.services@);
        if j < k {
            assert(saved[j].0 != saved[k].0);
        } else {
            assert(saved[k].0 != saved[j].0);
        }
    }
    lemma_service_restore_puts_back(names, host.store, host.services@, later.services@, mid, k);
    lemma_tables_spare_startup(host.store, at);
    crate::store::lemma_replay_untouched(replay(mid, services, at), integers, at);
    crate::store::lemma_replay_untouched(replay(mid, services + integers, at), texts, at);
}

/// No value restore of the tweak set writes to a start-up type.
pub proof fn lemma_tables_spare_startup(store: ConfigStore, at: Location)
    requires
        at.name == "Start"@,
    ensures
        crate::store::spares(dword_restore_effects(captured_dwords(registry_tweaks(), store)), at),
        crate::store::spares(text_restore_effects(captured_texts(string_tweaks(), store)), at),
{
    reveal_strlit("EnableVirtualizationBasedSecurity");
    assert("EnableVirtualizationBasedSecurity"@.len() == 33);
    reveal_strlit("Enabled");
    assert("Enabled"@.len() == 7);
    reveal_strlit("FeatureSettingsOverride");
    assert("FeatureSettingsOverride"@.len() == 23);
    reveal_strlit("FeatureSettingsOverrideMask");
    assert("FeatureSettingsOverrideMask"@.len() == 27);
    reveal_strlit("WaitToKillServiceTimeout");
    assert("WaitToKillServiceTimeout"@.len() == 24);
    reveal_strlit("MaintenanceDisabled");
    assert("MaintenanceDisabled"@.len() == 19);
    reveal_strlit("AllowTelemetry");
    assert("AllowTelemetry"@.len() == 14);
    reveal_strlit("AllowExperimentation");
    assert("AllowExperimentation"@.len() == 20);
    reveal_strlit("EnableConfigFlighting");
    assert("EnableConfigFlighting"@.len() == 21);
    reveal_strlit("FolderType");
    assert("FolderType"@.len() == 10);
    reveal_strlit("AllowCortana");
    assert("AllowCortana"@.len() == 12);
    reveal_strlit("TCPNoDelay");
    assert("TCPNoDelay"@.len() == 10);
    reveal_strlit("Attributes");
    assert("Attributes"@.len() == 10);
    reveal_strlit("HwSchMode");
    assert("HwSchMode"@.len() == 9);
    reveal_strlit("SystemResponsiveness");
    assert("SystemResponsiveness"@.len() == 20);
    reveal_strlit("NetworkThrottlingIndex");
    assert("NetworkThrottlingIndex"@.len() == 22);
    reveal_strlit("Priority");
    assert("Priority"@.len() == 8);
    reveal_strlit("Scheduling Category");
    assert("Scheduling Category"@.len() == 19);
    reveal_strlit("SFIO Priority");
    assert("SFIO Priority"@.len() == 13);
    reveal_strlit("PowerThrottlingOff");
    assert("PowerThrottlingOff"@.len() == 18);
    reveal_strlit("Start");
    assert("Start"@.len() == 5);
}

/// The location of the `m`-th text tweak.
pub open spec fn text_location(m: int) -> Location {
    tweak_location(string_tweaks()[m].0, string_tweaks()[m].1)
}

/// Round trip of the whole tweak set at the locations of the text tweaks:
/// whatever such a location held, an integer, a text or nothing, applying
/// the set and restoring it leaves it as it was.
pub proof fn lemma_tweak_set_text_round_trip(
    applied: ReviTweaksService,
    host: HostSnapshot,
    later: HostSnapshot,
    m: int,
)
    requires
        applied.string_values.deep_view() == captured_texts(string_tweaks(), host.store),
        0 <= m < string_tweaks().len(),
    ensures
        replay(
            host.store.value(text_location(m)),
            ReviTweaksService::enable_effects(host) + applied.disable_effects(later),
            text_location(m),
        ) == host.store.value(text_location(m)),
{
    let at = text_location(m);
    let v0 = host.store.value(at);
    let services = service_restore_effects(applied.service_states.deep_view(), later.services@);
    let integers = dword_restore_effects(applied.registry_values.deep_view());
    let texts = text_restore_effects(applied.string_values.deep_view());
    lemma_replay_concat(v0, ReviTweaksService::enable_effects(host), applied.disable_effects(later), at);
    let mid = replay(v0, ReviTweaksService::enable_effects(host), at);
    lemma_replay_concat(mid, services + integers, texts, at);
    lemma_tables_hold_nothing_twice(host.store, host.services@);
    let saved = captured_texts(string_tweaks(), host.store);
    assert forall|j: int| 0 <= j < texts.len() && j != m implies !crate::store::writes_to(
        #[trigger] texts[j],
        at,
    ) by {
        if j < m {
            assert(tweak_location(saved[j].0, saved[j].1) != tweak_location(saved[m].0, saved[m].1));
        } else {
            assert(tweak_location(saved[m].0, saved[m].1) != tweak_location(saved[j].0, saved[j].1));
        }
    }
    lemma_single_writer(replay(mid, services + integers, at), texts, m, at);
}

} // verus!
