//! The session orchestrator: composes the providers according to the
//! session options and keeps the record of what has to be undone.
use vstd::prelude::*;
use crate::detector::{detection, reports_desktop, GameDetector};
use crate::effect::{append_deep, delete_value, push_deep, set_dword, Effect, EffectView, Hive};
use crate::host::HostSnapshot;
use crate::memory::{flush_effects, MemoryService};
use crate::network::{
    isolation_effects, lemma_netbios_spares, multicast_policy, netbios_effects, NetworkService,
    NETBIOS_DEFAULT,
};
use crate::options::GameModeOptions;
use crate::power::{
    activate, active_after, high_performance_effects, laptop_effects, PowerService,
};
use crate::process::{
    kill_effects, matching_pids, restart_effects, resume_effects, suspend_effects, suspended,
    ProcessService,
};
use crate::registry::{
    assign, auto_restart_shell, integer_or_absent, is_captured, lemma_revert_puts_back,
    lemma_tweak_locations_differ, tweak_effects, unlock_effects, RegistryService,
};
use crate::store::{
    lemma_replay_concat, lemma_replay_untouched, lemma_single_writer, lemma_spares_concat, replay,
    spares, Location,
};
use crate::service_control::{
    lemma_start_effects_cover, lemma_start_effects_within, optimization_services, start_effects,
    state_of, stop_effects, stopped, WindowsServiceManager, SERVICE_STOPPED,
};
use crate::text::whitespace_tokens;

verus! {

pub open spec fn browsers() -> Seq<Seq<char>> {
    seq!["chrome"@, "firefox"@, "msedge"@, "brave"@, "opera"@, "vivaldi"@, "thorium"@]
}

pub open spec fn launchers() -> Seq<Seq<char>> {
    seq!["epicgameslauncher"@, "battle.net"@, "origin"@, "gog galaxy"@]
}

/// Shell surfaces that are suspended, not terminated.
pub open spec fn shell_ux() -> Seq<Seq<char>> {
    seq![
        "SearchHost"@,
        "SearchApp"@,
        "TextInputHost"@,
        "LockApp"@,
        "MoNotificationUx"@,
        "ShellExperienceHost"@,
        "StartMenuExperienceHost"@,
    ]
}

pub open spec fn start_menu_replacements() -> Seq<Seq<char>> {
    seq!["StartAllBackX64"@, "StartAllBack"@, "OpenShellMenu"@, "ClassicStartMenu"@]
}

pub open spec fn bloatware() -> Seq<Seq<char>> {
    seq![
        "smartscreen"@,
        "Microsoft.Windows.SmartScreen"@,
        "Cortana"@,
        "PhoneExperienceHost"@,
        "CrossDeviceResume"@,
        "CrossDeviceService"@,
        "Widgets"@,
        "WidgetService"@,
        "Mousocoreworker"@,
        "Microsoft.Media.Player"@,
        "OneDrive"@,
        "Dropbox"@,
        "GoogleDriveFS"@,
        "Teams"@,
        "Skype"@,
        "GameBar"@,
        "GameBarPresenceWriter"@,
        "YourPhone"@,
        "nvcontainer"@,
        "NVDisplay.Container"@,
        "NVIDIA Share"@,
        "NVIDIA Web Helper"@,
        "NVIDIA Overlay"@,
    ]
}

pub open spec fn peripherals() -> Seq<Seq<char>> {
    seq![
        "iCue"@,
        "lghub_agent"@,
        "Razer Synapse Service"@,
        "ArmouryCrate.Service"@,
        "Razer Central"@,
        "Razer Synapse 3"@,
        "LGHUB"@,
        "Lghub_updater"@,
    ]
}

/// The processes a session terminates: start-menu replacements, browsers if
/// asked for, bloatware, peripheral tools, launchers if asked for.
pub open spec fn kill_list(options: GameModeOptions) -> Seq<Seq<char>> {
    start_menu_replacements() + (if options.suspend_browsers {
        browsers()
    } else {
        Seq::empty()
    }) + bloatware() + peripherals() + (if options.suspend_launchers {
        launchers()
    } else {
        Seq::empty()
    })
}

/// The chassis classification: the remembered one if there is one,
/// otherwise the one the report gives; without a report, a laptop.
pub open spec fn classified(memo: Option<bool>, report: Option<Seq<char>>) -> bool {
    match memo {
        Some(desktop) => desktop,
        None => match report {
            Some(text) => reports_desktop(whitespace_tokens(text)),
            None => false,
        },
    }
}

/// The request that focuses the detected workload, if one was detected.
pub open spec fn focus_effects(detected: Option<(u32, usize)>) -> Seq<EffectView> {
    match detected {
        Some((_, window)) => seq![EffectView::FocusWindow { window }],
        None => Seq::empty(),
    }
}

/// Tearing the shell down: terminate the start-menu replacements, clear the
/// shell's auto-restart flag, terminate the shell, focus the workload.
pub open spec fn shell_teardown_effects(detected: Option<(u32, usize)>) -> Seq<EffectView> {
    kill_effects(start_menu_replacements()) + seq![assign(auto_restart_shell(), 0)] + kill_effects(
        seq!["explorer"@],
    ) + focus_effects(detected)
}

pub open spec fn dwm_path() -> Seq<char> {
    "SOFTWARE\\Microsoft\\Windows\\Dwm"@
}

/// Where a session stands.
#[derive(Clone, Copy, Debug, PartialEq, Eq, Structural)]
pub enum SessionPhase {
    Inactive,
    /// `enable_game_mode` has handed out its plan; the outcomes are awaited.
    Activating,
    Active,
}

/// What `enable_game_mode` asks for. The calling thread carries out
/// `sequence` first, in order; after each request of it the caller asks
/// `PowerService::follow_up` what comes next and carries that out before
/// it goes on. Then `services`, `memory` and `network` run as three
/// concurrent tasks while the calling thread carries out `foreground`; all
/// are joined before the outcomes are reported with `record_enable`.
pub struct EnablePlan {
    /// The workload found before anything is terminated.
    pub detected: Option<(u32, usize)>,
    /// The configuration and power work, then the shell teardown.
    pub sequence: Vec<Effect>,
    pub services: Vec<Effect>,
    pub memory: Vec<Effect>,
    pub network: Vec<Effect>,
    pub foreground: Vec<Effect>,
}

/// What `disable_game_mode` asks for. `shell`, `services`, `resume` and
/// `network` run as concurrent tasks while the calling thread carries out
/// `sequence` in order; all are joined before the call is over.
pub struct DisablePlan {
    pub shell: Vec<Effect>,
    pub services: Vec<Effect>,
    pub resume: Vec<Effect>,
    pub network: Vec<Effect>,
    /// The configuration reverted, then the power plan.
    pub sequence: Vec<Effect>,
}

/// The first step of the power strategy of the chassis.
pub open spec fn power_effects(desktop: bool, host: HostSnapshot) -> Seq<EffectView> {
    if desktop {
        high_performance_effects(host.scheme_listing.deep_view())
    } else {
        laptop_effects(host.active_scheme)
    }
}

/// The shell teardown, if the options ask for it.
pub open spec fn shell_effects(options: GameModeOptions, detected: Option<(u32, usize)>) -> Seq<
    EffectView,
> {
    if options.suspend_explorer {
        shell_teardown_effects(detected)
    } else {
        Seq::empty()
    }
}

/// What the calling thread does first when a session starts, in order: the
/// power setting unlocked, the always-on tweaks, the power strategy, and
/// only then the shell teardown.
pub open spec fn opening_effects(
    desktop: bool,
    options: GameModeOptions,
    detected: Option<(u32, usize)>,
    host: HostSnapshot,
) -> Seq<EffectView> {
    unlock_effects() + tweak_effects() + power_effects(desktop, host) + shell_effects(
        options,
        detected,
    )
}

/// A request that terminates processes.
pub open spec fn is_termination(e: EffectView) -> bool {
    e matches EffectView::Run { program, .. } && program == "taskkill"@
}

/// The orchestrator and the state of its session.
pub struct GameModeService {
    pub power: PowerService,
    pub registry: RegistryService,
    /// Processes suspended in this session, in the order they were suspended.
    pub suspended_shell_ux_pids: Vec<u32>,
    /// Services this session stopped.
    pub stopped_services: Vec<String>,
    /// Whether this session isolated the network.
    pub network_isolated: bool,
    /// The chassis classification, once made.
    pub desktop: Option<bool>,
    pub phase: SessionPhase,
}

impl GameModeService {
    /// Nothing is recorded: no suspended process, no stopped service, no
    /// isolation, no captured value.
    pub open spec fn is_fresh(&self) -> bool {
        &&& self.suspended_shell_ux_pids@.len() == 0
        &&& self.stopped_services@.len() == 0
        &&& !self.network_isolated
        &&& self.registry.is_fresh()
        &&& self.phase == SessionPhase::Inactive
    }

    /// The power provider after `enable_game_mode`.
    pub open spec fn power_after_enable(&self, host: HostSnapshot) -> PowerService {
        if classified(self.desktop, host.chassis_report.deep_view()) {
            PowerService { original_scheme: host.active_scheme, ..self.power }
        } else {
            self.power.after_laptop_boost(host.active_scheme, host.boost_mode, host.min_processor)
        }
    }

    /// The configuration provider after `enable_game_mode`.
    pub open spec fn registry_after_enable(
        &self,
        options: GameModeOptions,
        host: HostSnapshot,
    ) -> RegistryService {
        let captured = self.registry.after_unlock(host.store).after_apply(host.store);
        if options.suspend_explorer {
            captured.after_shell_capture(host.store)
        } else {
            captured
        }
    }

    /// What `disable_game_mode` asks of the service-control manager.
    pub open spec fn restore_effects(&self, host: HostSnapshot) -> Seq<EffectView> {
        start_effects(self.stopped_services.deep_view(), host.services@)
    }

    /// What `disable_game_mode` asks for to wake the suspended processes:
    /// the recorded ones, then every shell surface of the snapshot.
    pub open spec fn wake_effects(&self, host: HostSnapshot) -> Seq<EffectView> {
        resume_effects(self.suspended_shell_ux_pids@) + resume_effects(
            matching_pids(shell_ux(), host.processes@),
        )
    }

    /// What `disable_game_mode` asks for to lift the network isolation.
    pub open spec fn network_revert_effects(&self, host: HostSnapshot) -> Seq<EffectView> {
        if self.network_isolated {
            isolation_effects(false, host.interfaces.deep_view())
        } else {
            Seq::empty()
        }
    }

    /// What `disable_game_mode` asks of the configuration store.
    pub open spec fn registry_revert_effects(&self) -> Seq<EffectView> {
        self.registry.revert_effects() + self.registry.shell_restore_effects()
    }

    /// What the calling thread does when a session ends, in order: the
    /// configuration reverted, then the power plan.
    pub open spec fn closing_effects(&self, host: HostSnapshot) -> Seq<EffectView> {
        self.registry_revert_effects() + self.power_revert_effects(host)
    }

    /// What `disable_game_mode` asks of the power manager.
    pub open spec fn power_revert_effects(&self, host: HostSnapshot) -> Seq<EffectView> {
        if classified(self.desktop, host.chassis_report.deep_view()) {
            self.power.revert_plan_effects()
        } else {
            self.power.revert_laptop_effects()
        }
    }

    pub fn browsers() -> (list: Vec<&'static str>)
        ensures
            list.deep_view() == browsers(),
    {
        let list = vec!["chrome", "firefox", "msedge", "brave", "opera", "vivaldi", "thorium"];
        assert(list.deep_view() =~= browsers());
        list
    }

    pub fn launchers() -> (list: Vec<&'static str>)
        ensures
            list.deep_view() == launchers(),
    {
        let list = vec!["epicgameslauncher", "battle.net", "origin", "gog galaxy"];
        assert(list.deep_view() =~= launchers());
        list
    }

    pub fn shell_ux() -> (list: Vec<&'static str>)
        ensures
            list.deep_view() == shell_ux(),
    {
        let list = vec![
            "SearchHost",
            "SearchApp",
            "TextInputHost",
            "LockApp",
            "MoNotificationUx",
            "ShellExperienceHost",
            "StartMenuExperienceHost",
        ];
        assert(list.deep_view() =~= shell_ux());
        list
    }

    pub fn start_menu_replacements() -> (list: Vec<&'static str>)
        ensures
            list.deep_view() == start_menu_replacements(),
    {
        let list = vec!["StartAllBackX64", "StartAllBack", "OpenShellMenu", "ClassicStartMenu"];
        assert(list.deep_view() =~= start_menu_replacements());
        list
    }

    pub fn bloatware() -> (list: Vec<&'static str>)
        ensures
            list.deep_view() == bloatware(),
    {
        let list = vec![
            "smartscreen",
            "Microsoft.Windows.SmartScreen",
            "Cortana",
            "PhoneExperienceHost",
            "CrossDeviceResume",
            "CrossDeviceService",
            "Widgets",
            "WidgetService",
            "Mousocoreworker",
            "Microsoft.Media.Player",
            "OneDrive",
            "Dropbox",
            "GoogleDriveFS",
            "Teams",
            "Skype",
            "GameBar",
            "GameBarPresenceWriter",
            "YourPhone",
            "nvcontainer",
            "NVDisplay.Container",
            "NVIDIA Share",
            "NVIDIA Web Helper",
            "NVIDIA Overlay",
        ];
        assert(list.deep_view() =~= bloatware());
        list
    }

    pub fn peripherals() -> (list: Vec<&'static str>)
        ensures
            list.deep_view() == peripherals(),
    {
        let list = vec![
            "iCue",
            "lghub_agent",
            "Razer Synapse Service",
            "ArmouryCrate.Service",
            "Razer Central",
            "Razer Synapse 3",
            "LGHUB",
            "Lghub_updater",
        ];
        assert(list.deep_view() =~= peripherals());
        list
    }

    /// The processes to terminate under `options`.
    pub fn kill_list(options: &GameModeOptions) -> (list: Vec<&'static str>)
        ensures
            list.deep_view() == kill_list(*options),
    {
        let mut list = Self::start_menu_replacements();
        if options.suspend_browsers {
            append_deep(&mut list, Self::browsers());
        }
        append_deep(&mut list, Self::bloatware());
        append_deep(&mut list, Self::peripherals());
        if options.suspend_launchers {
            append_deep(&mut list, Self::launchers());
        }
        assert(list.deep_view() =~= kill_list(*options));
        list
    }

    /// A fresh orchestrator. `active_scheme` is the power scheme active at
    /// start-up.
    pub fn new(active_scheme: Option<u128>) -> (s: Self)
        ensures
            s.is_fresh(),
            s.desktop.is_none(),
            s.power == (PowerService {
                original_scheme: active_scheme,
                original_boost_mode: None,
                original_min_processor: None,
                laptop_active_scheme: None,
            }),
    {
        GameModeService {
            power: PowerService::new(active_scheme),
            registry: RegistryService::new(),
            suspended_shell_ux_pids: Vec::new(),
            stopped_services: Vec::new(),
            network_isolated: false,
            desktop: None,
            phase: SessionPhase::Inactive,
        }
    }

    /// Whether the chassis still has to be classified, so that the caller
    /// obtains the chassis report only once.
    pub fn needs_chassis_report(&self) -> (r: bool)
        ensures
            r == self.desktop.is_none(),
    {
        self.desktop.is_none()
    }

    /// Classifies the chassis once and remembers the answer.
    pub fn is_desktop(&mut self, report: Option<&str>) -> (desktop: bool)
        ensures
            desktop == classified(old(self).desktop, report.deep_view()),
            final(self).desktop == Some(desktop),
            final(self).power == old(self).power,
            final(self).registry == old(self).registry,
            final(self).suspended_shell_ux_pids == old(self).suspended_shell_ux_pids,
            final(self).stopped_services == old(self).stopped_services,
            final(self).network_isolated == old(self).network_isolated,
            final(self).phase == old(self).phase,
    {
        let desktop = match self.desktop {
            Some(known) => known,
            None => GameDetector::is_desktop(report),
        };
        self.desktop = Some(desktop);
        desktop
    }

    /// Finds the foreground workload in the snapshot.
    pub fn detect_game(&self, host: &HostSnapshot) -> (result: Option<(u32, usize)>)
        ensures
            detection(
                host.processes@,
                host.windows@,
                host.own_pid,
                host.screen_width,
                host.screen_height,
                result,
            ),
    {
        GameDetector::detect_fullscreen_game(
            &host.processes,
            &host.windows,
            host.own_pid,
            host.screen_width,
            host.screen_height,
        )
    }

    /// The shell teardown of `enable_game_mode`.
    fn shell_teardown(&mut self, host: &HostSnapshot, detected: Option<(u32, usize)>) -> (effects:
        Vec<Effect>)
        ensures
            effects.deep_view() == shell_teardown_effects(detected),
            final(self).registry == old(self).registry.after_shell_capture(host.store),
            final(self).power == old(self).power,
            final(self).suspended_shell_ux_pids == old(self).suspended_shell_ux_pids,
            final(self).stopped_services == old(self).stopped_services,
            final(self).network_isolated == old(self).network_isolated,
            final(self).desktop == old(self).desktop,
            final(self).phase == old(self).phase,
    {
        let mut effects = ProcessService::kill_processes(&Self::start_menu_replacements());
        append_deep(&mut effects, self.registry.disable_auto_restart_shell(&host.store));
        append_deep(&mut effects, ProcessService::kill_process("explorer"));
        match detected {
            Some((_, window)) => {
                push_deep(&mut effects, GameDetector::focus_window(window));
            },
            None => {},
        }
        assert(effects.deep_view() =~= shell_teardown_effects(detected));
        effects
    }

    /// Starts a session. Detects the workload if the shell is to be torn
    /// down, captures the values that are about to change, and returns what
    /// is to be done. Which services were stopped and which processes were
    /// suspended is recorded later, by `record_enable`.
    pub fn enable_game_mode(&mut self, options: &GameModeOptions, host: &HostSnapshot) -> (plan:
        EnablePlan)
        ensures
            if options.suspend_explorer {
                detection(
                    host.processes@,
                    host.windows@,
                    host.own_pid,
                    host.screen_width,
                    host.screen_height,
                    plan.detected,
                )
            } else {
                plan.detected.is_none()
            },
            plan.sequence.deep_view() == opening_effects(
                classified(old(self).desktop, host.chassis_report.deep_view()),
                *options,
                plan.detected,
                *host,
            ),
            plan.services.deep_view() == stop_effects(optimization_services(), host.services@),
            plan.memory.deep_view() == flush_effects(host.processes@, host.own_pid),
            plan.network.deep_view() == if options.isolate_network {
                isolation_effects(true, host.interfaces.deep_view())
            } else {
                Seq::empty()
            },
            plan.foreground.deep_view() == suspend_effects(
                matching_pids(shell_ux(), host.processes@),
            ) + kill_effects(kill_list(*options)),
            final(self).registry == old(self).registry_after_enable(*options, *host),
            final(self).power == old(self).power_after_enable(*host),
            final(self).network_isolated == (old(self).network_isolated
                || options.isolate_network),
            final(self).desktop == Some(
                classified(old(self).desktop, host.chassis_report.deep_view()),
            ),
            final(self).suspended_shell_ux_pids == old(self).suspended_shell_ux_pids,
            final(self).stopped_services == old(self).stopped_services,
            final(self).phase == SessionPhase::Activating,
    {
        let detected = if options.suspend_explorer {
            self.detect_game(host)
        } else {
            None
        };

        let mut sequence = self.registry.unlock_power_settings(&host.store);
        append_deep(&mut sequence, self.registry.apply_tweaks(&host.store));

        let report = match &host.chassis_report {
            Some(text) => Some(text.as_str()),
            None => None,
        };
        let desktop = self.is_desktop(report);
        let power = if desktop {
            let listing = match &host.scheme_listing {
                Some(text) => Some(text.as_str()),
                None => None,
            };
            self.power.set_high_performance(host.active_scheme, listing)
        } else {
            self.power.optimize_laptop_boost(
                host.active_scheme,
                host.boost_mode,
                host.min_processor,
            )
        };
        append_deep(&mut sequence, power);

        let shell = if options.suspend_explorer {
            self.shell_teardown(host, detected)
        } else {
            let none: Vec<Effect> = Vec::new();
            assert(none.deep_view() =~= Seq::<EffectView>::empty());
            none
        };
        append_deep(&mut sequence, shell);

        let services = WindowsServiceManager::stop_optimization_services(&host.services);
        let memory = MemoryService::flush_memory(&host.processes, host.own_pid);
        let network = if options.isolate_network {
            self.network_isolated = true;
            NetworkService::toggle_isolation(true, &host.interfaces)
        } else {
            let none: Vec<Effect> = Vec::new();
            assert(none.deep_view() =~= Seq::<EffectView>::empty());
            none
        };

        let mut foreground = ProcessService::suspend_processes(&Self::shell_ux(), &host.processes);
        append_deep(&mut foreground, ProcessService::kill_processes(&Self::kill_list(options)));

        self.phase = SessionPhase::Activating;
        EnablePlan { detected, sequence, services, memory, network, foreground }
    }

    /// Completes `enable_game_mode` once its plan was carried out.
    /// `service_outcomes` and `foreground_outcomes` tell, position by
    /// position, which requests of `plan.services` and `plan.foreground`
    /// succeeded. The processes that were suspended replace the recorded
    /// ones; the services that were stopped are added to the recorded ones.
    pub fn record_enable(
        &mut self,
        plan: &EnablePlan,
        service_outcomes: &Vec<bool>,
        foreground_outcomes: &Vec<bool>,
    )
        ensures
            final(self).suspended_shell_ux_pids@ == suspended(
                plan.foreground.deep_view(),
                foreground_outcomes@,
            ),
            final(self).stopped_services.deep_view() == old(self).stopped_services.deep_view()
                + stopped(plan.services.deep_view(), service_outcomes@),
            final(self).phase == SessionPhase::Active,
            final(self).power == old(self).power,
            final(self).registry == old(self).registry,
            final(self).network_isolated == old(self).network_isolated,
            final(self).desktop == old(self).desktop,
    {
        self.suspended_shell_ux_pids = ProcessService::suspended_pids(
            &plan.foreground,
            foreground_outcomes,
        );
        append_deep(
            &mut self.stopped_services,
            WindowsServiceManager::stopped_services(&plan.services, service_outcomes),
        );
        self.phase = SessionPhase::Active;
    }

    /// Ends a session: returns what undoes exactly what is recorded, and
    /// clears the record. The shell is restarted if `options` say it was
    /// torn down; the network isolation is lifted if and only if this
    /// session set it up.
    pub fn disable_game_mode(&mut self, options: &GameModeOptions, host: &HostSnapshot) -> (plan:
        DisablePlan)
        ensures
            plan.shell.deep_view() == if options.suspend_explorer {
                restart_effects(host.rows())
            } else {
                Seq::empty()
            },
            plan.services.deep_view() == old(self).restore_effects(*host),
            plan.resume.deep_view() == old(self).wake_effects(*host),
            plan.network.deep_view() == old(self).network_revert_effects(*host),
            plan.sequence.deep_view() == old(self).closing_effects(*host),
            final(self).suspended_shell_ux_pids@.len() == 0,
            final(self).stopped_services@.len() == 0,
            !final(self).network_isolated,
            final(self).registry == old(self).registry.after_revert().after_shell_restore(),
            final(self).power == old(self).power,
            final(self).desktop == Some(
                classified(old(self).desktop, host.chassis_report.deep_view()),
            ),
            final(self).phase == SessionPhase::Inactive,
            final(self).is_fresh(),
    {
        let shell = if options.suspend_explorer {
            let rows = if host.processes_known {
                Some(&host.processes)
            } else {
                None
            };
            ProcessService::restart_explorer(rows)
        } else {
            let none: Vec<Effect> = Vec::new();
            assert(none.deep_view() =~= Seq::<EffectView>::empty());
            none
        };

        let services = WindowsServiceManager::restore_services(
            &self.stopped_services,
            &host.services,
        );

        let mut resume = ProcessService::resume_processes_by_pid(&self.suspended_shell_ux_pids);
        append_deep(
            &mut resume,
            ProcessService::resume_processes(&Self::shell_ux(), &host.processes),
        );

        let network = if self.network_isolated {
            NetworkService::toggle_isolation(false, &host.interfaces)
        } else {
            let none: Vec<Effect> = Vec::new();
            assert(none.deep_view() =~= Seq::<EffectView>::empty());
            none
        };

        let mut sequence = self.registry.revert_tweaks();
        append_deep(&mut sequence, self.registry.enable_auto_restart_shell());

        let report = match &host.chassis_report {
            Some(text) => Some(text.as_str()),
            None => None,
        };
        let power = if self.is_desktop(report) {
            self.power.revert_power_plan()
        } else {
            self.power.revert_laptop_boost()
        };
        append_deep(&mut sequence, power);

        self.suspended_shell_ux_pids = Vec::new();
        self.stopped_services = Vec::new();
        self.network_isolated = false;
        self.phase = SessionPhase::Inactive;
        DisablePlan { shell, services, resume, network, sequence }
    }

    /// Switches multi-plane overlay on: removes the overlay test mode and
    /// sets the minimum overlay frame rate to 0.
    pub fn set_mpo_enabled() -> (effects: Vec<Effect>)
        ensures
            effects.deep_view() == seq![
                delete_value(Hive::LocalMachine, dwm_path(), "OverlayTestMode"@),
                set_dword(Hive::LocalMachine, dwm_path(), "OverlayMinFPS"@, 0),
            ],
    {
        let path = "SOFTWARE\\Microsoft\\Windows\\Dwm";
        let mut effects: Vec<Effect> = Vec::new();
        push_deep(&mut effects, Effect::delete_value(Hive::LocalMachine, path, "OverlayTestMode"));
        push_deep(&mut effects, Effect::set_dword(Hive::LocalMachine, path, "OverlayMinFPS", 0));
        assert(effects.deep_view() =~= seq![
            delete_value(Hive::LocalMachine, dwm_path(), "OverlayTestMode"@),
            set_dword(Hive::LocalMachine, dwm_path(), "OverlayMinFPS"@, 0),
        ]);
        effects
    }

    /// What a change of the overlay setting asks for: nothing when the
    /// setting stays as it was, otherwise the switch to the requested state.
    pub fn mpo_changed(previous: bool, disable_mpo: bool) -> (effects: Vec<Effect>)
        ensures
            effects.deep_view() == if previous == disable_mpo {
                Seq::empty()
            } else if disable_mpo {
                seq![set_dword(Hive::LocalMachine, dwm_path(), "OverlayTestMode"@, 5)]
            } else {
                seq![
                    delete_value(Hive::LocalMachine, dwm_path(), "OverlayTestMode"@),
                    set_dword(Hive::LocalMachine, dwm_path(), "OverlayMinFPS"@, 0),
                ]
            },
    {
        if previous == disable_mpo {
            let none: Vec<Effect> = Vec::new();
            assert(none.deep_view() =~= Seq::<EffectView>::empty());
            none
        } else if disable_mpo {
            Self::set_mpo_disabled()
        } else {
            Self::set_mpo_enabled()
        }
    }

    /// Switches multi-plane overlay off: sets the overlay test mode to 5.
    pub fn set_mpo_disabled() -> (effects: Vec<Effect>)
        ensures
            effects.deep_view() == seq![
                set_dword(Hive::LocalMachine, dwm_path(), "OverlayTestMode"@, 5),
            ],
    {
        let path = "SOFTWARE\\Microsoft\\Windows\\Dwm";
        let mut effects: Vec<Effect> = Vec::new();
        push_deep(&mut effects, Effect::set_dword(Hive::LocalMachine, path, "OverlayTestMode", 5));
        assert(effects.deep_view() =~= seq![
            set_dword(Hive::LocalMachine, dwm_path(), "OverlayTestMode"@, 5),
        ]);
        effects
    }
}

/// What `enable_game_mode` asks the calling thread to do while the
/// concurrent tasks run.
pub open spec fn foreground_effects(options: GameModeOptions, host: HostSnapshot) -> Seq<EffectView> {
    suspend_effects(matching_pids(shell_ux(), host.processes@)) + kill_effects(kill_list(options))
}

/// `active` is the state of a session that was started from `before` with
/// `options` on `host`: the state `enable_game_mode` leaves, completed by
/// `record_enable` with the plan that `enable_game_mode` returned and the
/// outcomes the caller observed.
pub open spec fn session_started(
    before: GameModeService,
    options: GameModeOptions,
    host: HostSnapshot,
    service_outcomes: Seq<bool>,
    foreground_outcomes: Seq<bool>,
    active: GameModeService,
) -> bool {
    &&& active.registry == before.registry_after_enable(options, host)
    &&& active.power == before.power_after_enable(host)
    &&& active.network_isolated == (before.network_isolated || options.isolate_network)
    &&& active.desktop == Some(classified(before.desktop, host.chassis_report.deep_view()))
    &&& active.phase == SessionPhase::Active
    &&& active.suspended_shell_ux_pids@ == suspended(
        foreground_effects(options, host),
        foreground_outcomes,
    )
    &&& active.stopped_services.deep_view() == before.stopped_services.deep_view() + stopped(
        stop_effects(optimization_services(), host.services@),
        service_outcomes,
    )
}

/// Every configuration write a session start asks for, in the order of the
/// plan.
pub open spec fn enable_writes(
    options: GameModeOptions,
    detected: Option<(u32, usize)>,
    host: HostSnapshot,
) -> Seq<EffectView> {
    unlock_effects() + tweak_effects() + (if options.suspend_explorer {
        shell_teardown_effects(detected)
    } else {
        Seq::empty()
    }) + (if options.isolate_network {
        isolation_effects(true, host.interfaces.deep_view())
    } else {
        Seq::empty()
    })
}

/// Every configuration write a session end asks for.
pub open spec fn disable_writes(active: GameModeService, host: HostSnapshot) -> Seq<EffectView> {
    active.registry_revert_effects() + active.network_revert_effects(host)
}

/// Lifting the network isolation writes neither to a captured location nor
/// to the shell's auto-restart flag.
proof fn lemma_network_revert_spares(active: GameModeService, host: HostSnapshot, at: Location)
    requires
        is_captured(at) || at == auto_restart_shell(),
    ensures
        spares(active.network_revert_effects(host), at),
{
    reveal_strlit("AllowAutoGameMode");
    reveal_strlit("Attributes");
    assert("AllowAutoGameMode"@.len() == 17);
    assert("Attributes"@.len() == 10);
    reveal_strlit("NetbiosOptions");
    reveal_strlit("EnableMulticast");
    reveal_strlit("AutoGameModeEnabled");
    reveal_strlit("Priority");
    reveal_strlit("GPU Priority");
    reveal_strlit("Win32PrioritySeparation");
    reveal_strlit("AutoRestartShell");
    assert("NetbiosOptions"@.len() == 14);
    assert("EnableMulticast"@.len() == 15);
    assert("AutoGameModeEnabled"@.len() == 19);
    assert("Priority"@.len() == 8);
    assert("GPU Priority"@.len() == 12);
    assert("Win32PrioritySeparation"@.len() == 23);
    assert("AutoRestartShell"@.len() == 16);
    if active.network_isolated {
        let interfaces = host.interfaces.deep_view();
        lemma_netbios_spares(interfaces, NETBIOS_DEFAULT, at);
        lemma_spares_concat(
            seq![crate::network::enable_multicast_effect()],
            netbios_effects(interfaces, NETBIOS_DEFAULT),
            at,
        );
    }
}

/// Round trip of a session: at every configuration value that the
/// always-on work of a session writes (the unlocked power setting and the
/// five tweaks), and at the shell's auto-restart flag when the shell is
/// torn down, if it held an integer or nothing, starting the session and
/// ending it leaves the value it held before the start. An absent value is
/// absent again.
pub proof fn lemma_session_round_trip(
    before: GameModeService,
    options: GameModeOptions,
    host: HostSnapshot,
    detected: Option<(u32, usize)>,
    service_outcomes: Seq<bool>,
    foreground_outcomes: Seq<bool>,
    active: GameModeService,
    later: HostSnapshot,
    at: Location,
)
    requires
        session_started(before, options, host, service_outcomes, foreground_outcomes, active),
        is_captured(at) || (options.suspend_explorer && at == auto_restart_shell()),
        integer_or_absent(host.store.value(at)),
    ensures
        replay(
            host.store.value(at),
            enable_writes(options, detected, host) + disable_writes(active, later),
            at,
        ) == host.store.value(at),
{
    let v0 = host.store.value(at);
    let start = enable_writes(options, detected, host);
    let undo = active.registry.revert_effects();
    let flag = active.registry.shell_restore_effects();
    let net = active.network_revert_effects(later);
    lemma_tweak_locations_differ();
    reveal_strlit("AutoGameModeEnabled");
    reveal_strlit("AllowAutoGameMode");
    reveal_strlit("Priority");
    reveal_strlit("GPU Priority");
    reveal_strlit("Win32PrioritySeparation");
    reveal_strlit("Attributes");
    reveal_strlit("AutoRestartShell");
    assert("AutoGameModeEnabled"@.len() == 19);
    assert("AllowAutoGameMode"@.len() == 17);
    assert("Priority"@.len() == 8);
    assert("GPU Priority"@.len() == 12);
    assert("Win32PrioritySeparation"@.len() == 23);
    assert("Attributes"@.len() == 10);
    assert("AutoRestartShell"@.len() == 16);
    lemma_replay_concat(v0, start, disable_writes(active, later), at);
    let mid = replay(v0, start, at);
    lemma_replay_concat(mid, undo + flag, net, at);
    lemma_network_revert_spares(active, later, at);
    lemma_replay_untouched(replay(mid, undo + flag, at), net, at);
    lemma_replay_concat(mid, undo, flag, at);
    if is_captured(at) {
        lemma_revert_puts_back(before.registry, host.store, mid, at);
        assert(spares(flag, at));
        lemma_replay_untouched(replay(mid, undo, at), flag, at);
    } else {
        assert(spares(active.registry.tweak_revert_effects(), at));
        assert(spares(active.registry.unlock_revert_effects(), at));
        lemma_spares_concat(
            active.registry.tweak_revert_effects(),
            active.registry.unlock_revert_effects(),
            at,
        );
        lemma_replay_untouched(mid, undo, at);
        lemma_single_writer(mid, flag, 0, at);
    }
}

/// Round trip of the power plan: when the active scheme could be read at
/// the start of a session, the session end leaves that scheme active,
/// whatever the power strategy activated in between and whatever the
/// chassis report says by then.
pub proof fn lemma_session_restores_scheme(
    before: GameModeService,
    options: GameModeOptions,
    host: HostSnapshot,
    service_outcomes: Seq<bool>,
    foreground_outcomes: Seq<bool>,
    active: GameModeService,
    later: HostSnapshot,
    strategy: Seq<EffectView>,
    scheme: u128,
)
    requires
        session_started(before, options, host, service_outcomes, foreground_outcomes, active),
        host.active_scheme == Some(scheme),
    ensures
        active_after(Some(scheme), strategy + active.power_revert_effects(later)) == Some(scheme),
{
    let undo = active.power_revert_effects(later);
    assert((strategy + undo).last() == activate(scheme));
}

/// The configuration and power work of a session start comes before the
/// shell is torn down: in the sequence of the calling thread no request
/// that terminates processes stands before the end of the power strategy,
/// and everything after it belongs to the shell teardown.
pub proof fn lemma_shell_is_torn_down_last(
    desktop: bool,
    options: GameModeOptions,
    detected: Option<(u32, usize)>,
    host: HostSnapshot,
)
    ensures
        ({
            let work = unlock_effects() + tweak_effects() + power_effects(desktop, host);
            let all = opening_effects(desktop, options, detected, host);
            &&& all == work + shell_effects(options, detected)
            &&& forall|i: int| 0 <= i < work.len() ==> !is_termination(#[trigger] all[i])
            &&& forall|i: int|
                work.len() <= i < all.len() ==> #[trigger] all[i] == shell_effects(
                    options,
                    detected,
                )[i - work.len()]
        }),
{
    reveal_strlit("taskkill");
    reveal_strlit("powercfg");
    assert("taskkill"@[0] == 't');
    assert("powercfg"@[0] == 'p');
}

/// A multicast policy value that was absent before a session is absent
/// after it, whether or not the session isolated the network.
pub proof fn lemma_session_keeps_multicast_absent(
    before: GameModeService,
    options: GameModeOptions,
    host: HostSnapshot,
    detected: Option<(u32, usize)>,
    service_outcomes: Seq<bool>,
    foreground_outcomes: Seq<bool>,
    active: GameModeService,
    later: HostSnapshot,
)
    requires
        !before.network_isolated,
        session_started(before, options, host, service_outcomes, foreground_outcomes, active),
        host.store.value(multicast_policy()).is_none(),
    ensures
        replay(
            host.store.value(multicast_policy()),
            enable_writes(options, detected, host) + disable_writes(active, later),
            multicast_policy(),
        ).is_none(),
{
    let at = multicast_policy();
    let v0 = host.store.value(at);
    let start = enable_writes(options, detected, host);
    let regs = active.registry_revert_effects();
    let net = active.network_revert_effects(later);
    reveal_strlit("EnableMulticast");
    reveal_strlit("NetbiosOptions");
    reveal_strlit("AutoGameModeEnabled");
    reveal_strlit("AllowAutoGameMode");
    reveal_strlit("Priority");
    reveal_strlit("GPU Priority");
    reveal_strlit("Win32PrioritySeparation");
    reveal_strlit("AutoRestartShell");
    reveal_strlit("Attributes");
    assert("EnableMulticast"@.len() == 15);
    assert("NetbiosOptions"@.len() == 14);
    assert("AutoGameModeEnabled"@.len() == 19);
    assert("AllowAutoGameMode"@.len() == 17);
    assert("Priority"@.len() == 8);
    assert("GPU Priority"@.len() == 12);
    assert("Win32PrioritySeparation"@.len() == 23);
    assert("AutoRestartShell"@.len() == 16);
    assert("Attributes"@.len() == 10);
    lemma_replay_concat(v0, start, disable_writes(active, later), at);
    let mid = replay(v0, start, at);
    lemma_replay_concat(mid, regs, net, at);
    assert(spares(active.registry.tweak_revert_effects(), at));
    assert(spares(active.registry.unlock_revert_effects(), at));
    lemma_spares_concat(
        active.registry.tweak_revert_effects(),
        active.registry.unlock_revert_effects(),
        at,
    );
    assert(spares(active.registry.shell_restore_effects(), at));
    lemma_spares_concat(
        active.registry.revert_effects(),
        active.registry.shell_restore_effects(),
        at,
    );
    lemma_replay_untouched(mid, regs, at);
    if options.isolate_network {
        let interfaces = later.interfaces.deep_view();
        lemma_replay_concat(
            mid,
            seq![crate::network::enable_multicast_effect()],
            netbios_effects(interfaces, NETBIOS_DEFAULT),
            at,
        );
        crate::store::lemma_replay_one(mid, crate::network::enable_multicast_effect(), at);
        lemma_netbios_spares(interfaces, NETBIOS_DEFAULT, at);
        lemma_replay_untouched(
            replay(mid, seq![crate::network::enable_multicast_effect()], at),
            netbios_effects(interfaces, NETBIOS_DEFAULT),
            at,
        );
    } else {
        // Nothing in the start plan wrote to the policy value either.
        let prelude = unlock_effects() + tweak_effects();
        let shell: Seq<EffectView> = if options.suspend_explorer {
            shell_teardown_effects(detected)
        } else {
            Seq::empty()
        };
        assert(spares(unlock_effects(), at));
        assert(spares(tweak_effects(), at));
        lemma_spares_concat(unlock_effects(), tweak_effects(), at);
        assert(spares(shell, at)) by {
            if options.suspend_explorer {
                assert(spares(kill_effects(start_menu_replacements()), at));
                assert(spares(seq![assign(auto_restart_shell(), 0)], at));
                assert(spares(kill_effects(seq!["explorer"@]), at));
                assert(spares(focus_effects(detected), at));
                lemma_spares_concat(
                    kill_effects(start_menu_replacements()),
                    seq![assign(auto_restart_shell(), 0)],
                    at,
                );
                lemma_spares_concat(
                    kill_effects(start_menu_replacements()) + seq![assign(auto_restart_shell(), 0)],
                    kill_effects(seq!["explorer"@]),
                    at,
                );
                lemma_spares_concat(
                    kill_effects(start_menu_replacements()) + seq![assign(auto_restart_shell(), 0)]
                        + kill_effects(seq!["explorer"@]),
                    focus_effects(detected),
                    at,
                );
            }
        }
        lemma_spares_concat(prelude, shell, at);
        lemma_spares_concat(prelude + shell, Seq::<EffectView>::empty(), at);
        lemma_replay_untouched(v0, start, at);
    }
}

/// Ending a session that was never started asks for no service to be
/// started or stopped and for no process to be resumed by its id; only the
/// shell surfaces that the snapshot shows are resumed by name. The network
/// is left alone, and of the configuration only the shell's auto-restart
/// flag is written, with its default.
pub proof fn lemma_fresh_disable_is_quiet(service: GameModeService, host: HostSnapshot)
    requires
        service.is_fresh(),
    ensures
        service.restore_effects(host).len() == 0,
        service.wake_effects(host) == resume_effects(matching_pids(shell_ux(), host.processes@)),
        matching_pids(shell_ux(), host.processes@).len() == 0 ==> service.wake_effects(host).len()
            == 0,
        service.network_revert_effects(host).len() == 0,
        service.registry_revert_effects() == seq![assign(auto_restart_shell(), 1)],
{
    assert(service.stopped_services.deep_view() =~= Seq::<Seq<char>>::empty());
    assert(resume_effects(service.suspended_shell_ux_pids@) =~= Seq::<EffectView>::empty());
    assert(service.wake_effects(host) =~= resume_effects(
        matching_pids(shell_ux(), host.processes@),
    ));
    assert(service.registry_revert_effects() =~= seq![assign(auto_restart_shell(), 1)]);
}

/// Ending a session touches only what the session recorded. Every service
/// it starts is one of the recorded names, whatever else is running or
/// stopped on the host; and the processes it resumes are exactly the
/// recorded ids, in order, followed only by shell surfaces resumed by name.
pub proof fn lemma_disable_touches_only_recorded(service: GameModeService, host: HostSnapshot)
    ensures
        forall|i: int|
            0 <= i < service.restore_effects(host).len() ==> exists|j: int|
                0 <= j < service.stopped_services@.len() && #[trigger] service.restore_effects(
                    host,
                )[i] == (EffectView::StartService { name: service.stopped_services@[j]@ }),
        service.wake_effects(host).len() == service.suspended_shell_ux_pids@.len() + matching_pids(
            shell_ux(),
            host.processes@,
        ).len(),
        forall|i: int|
            0 <= i < service.suspended_shell_ux_pids@.len() ==> #[trigger] service.wake_effects(
                host,
            )[i] == (EffectView::ResumeProcess { pid: service.suspended_shell_ux_pids@[i] }),
        forall|i: int|
            service.suspended_shell_ux_pids@.len() <= i < service.wake_effects(host).len()
                ==> #[trigger] service.wake_effects(host)[i] == (EffectView::ResumeProcess {
                pid: matching_pids(shell_ux(), host.processes@)[i
                    - service.suspended_shell_ux_pids@.len()],
            }),
{
    lemma_start_effects_within(service.stopped_services.deep_view(), host.services@);
    assert forall|i: int| 0 <= i < service.restore_effects(host).len() implies exists|j: int|
        0 <= j < service.stopped_services@.len() && #[trigger] service.restore_effects(host)[i] == (
        EffectView::StartService { name: service.stopped_services@[j]@ }) by {
        let names = service.stopped_services.deep_view();
        let j = choose|j: int|
            0 <= j < names.len() && service.restore_effects(host)[i] == (EffectView::StartService {
                name: names[j],
            });
        assert(names[j] == service.stopped_services@[j]@);
    }
}

/// Ending a session starts every recorded service that is stopped by then.
pub proof fn lemma_disable_restores_recorded(service: GameModeService, host: HostSnapshot, j: int)
    requires
        0 <= j < service.stopped_services@.len(),
        state_of(host.services@, service.stopped_services@[j]@) == Some(SERVICE_STOPPED),
    ensures
        exists|i: int|
            0 <= i < service.restore_effects(host).len() && #[trigger] service.restore_effects(
                host,
            )[i] == (EffectView::StartService { name: service.stopped_services@[j]@ }),
{
    let names = service.stopped_services.deep_view();
    assert(names[j] == service.stopped_services@[j]@);
    lemma_start_effects_cover(names, host.services@, j);
    let i = choose|i: int|
        0 <= i < start_effects(names, host.services@).len() && start_effects(
            names,
            host.services@,
        )[i] == (EffectView::StartService { name: names[j] });
    assert(service.restore_effects(host)[i] == (EffectView::StartService {
        name: service.stopped_services@[j]@,
    }));
}

/// Network symmetry: a session that was started without network isolation
/// asks for nothing on the network when it ends, whatever the host looks
/// like by then.
pub proof fn lemma_network_symmetry(
    before: GameModeService,
    options: GameModeOptions,
    host: HostSnapshot,
    service_outcomes: Seq<bool>,
    foreground_outcomes: Seq<bool>,
    active: GameModeService,
    later: HostSnapshot,
)
    requires
        !before.network_isolated,
        !options.isolate_network,
        session_started(before, options, host, service_outcomes, foreground_outcomes, active),
    ensures
        active.network_revert_effects(later).len() == 0,
{
}

/// A session that was started with network isolation lifts it when it
/// ends, whatever the options say by then.
pub proof fn lemma_isolation_is_lifted(
    before: GameModeService,
    options: GameModeOptions,
    host: HostSnapshot,
    service_outcomes: Seq<bool>,
    foreground_outcomes: Seq<bool>,
    active: GameModeService,
    later: HostSnapshot,
)
    requires
        options.isolate_network,
        session_started(before, options, host, service_outcomes, foreground_outcomes, active),
    ensures
        active.network_revert_effects(later) == isolation_effects(
            false,
            later.interfaces.deep_view(),
        ),
{
}

} // verus!
