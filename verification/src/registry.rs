//! The always-on configuration tweaks of a session, with capture of the
//! values they replace.
use vstd::prelude::*;
use crate::effect::{push_deep, restore_dword, set_dword, Effect, EffectView, Hive};
use crate::store::{
    as_dword, lemma_replay_concat, lemma_single_writer, location, replay, ConfigStore, Location,
    StoredValue,
};

verus! {

pub open spec fn priority_control_path() -> Seq<char> {
    "SYSTEM\\CurrentControlSet\\Control\\PriorityControl"@
}

pub open spec fn game_bar_path() -> Seq<char> {
    "Software\\Microsoft\\GameBar"@
}

pub open spec fn games_task_path() -> Seq<char> {
    "SOFTWARE\\Microsoft\\Windows NT\\CurrentVersion\\Multimedia\\SystemProfile\\Tasks\\Games"@
}

pub open spec fn winlogon_path() -> Seq<char> {
    "SOFTWARE\\Microsoft\\Windows NT\\CurrentVersion\\Winlogon"@
}

pub open spec fn boost_mode_setting_path() -> Seq<char> {
    "SYSTEM\\CurrentControlSet\\Control\\Power\\PowerSettings\\54533251-82be-4824-96c1-47b60b740d00\\be337238-0d82-4146-a960-4f3749d470c7"@
}

/// Foreground/background scheduling split.
pub open spec fn priority_separation() -> Location {
    location(Hive::LocalMachine, priority_control_path(), "Win32PrioritySeparation"@)
}

pub open spec fn auto_game_mode() -> Location {
    location(Hive::CurrentUser, game_bar_path(), "AutoGameModeEnabled"@)
}

pub open spec fn allow_auto_game_mode() -> Location {
    location(Hive::CurrentUser, game_bar_path(), "AllowAutoGameMode"@)
}

pub open spec fn games_priority() -> Location {
    location(Hive::LocalMachine, games_task_path(), "Priority"@)
}

pub open spec fn games_gpu_priority() -> Location {
    location(Hive::LocalMachine, games_task_path(), "GPU Priority"@)
}

/// The attributes of the boost-mode power setting; they decide whether the
/// setting is visible.
pub open spec fn power_attributes() -> Location {
    location(Hive::LocalMachine, boost_mode_setting_path(), "Attributes"@)
}

pub open spec fn auto_restart_shell() -> Location {
    location(Hive::LocalMachine, winlogon_path(), "AutoRestartShell"@)
}

/// The write to `at` of the integer `value`.
pub open spec fn assign(at: Location, value: u32) -> EffectView {
    set_dword(at.hive, at.path, at.name, value)
}

/// The effect that puts `at` back to a captured integer, or to absence.
pub open spec fn put_back(at: Location, original: Option<u32>) -> EffectView {
    restore_dword(at.hive, at.path, at.name, original)
}

/// The always-on tweaks, in the order they are written.
pub open spec fn tweak_effects() -> Seq<EffectView> {
    seq![
        assign(priority_separation(), 38),
        assign(auto_game_mode(), 1),
        assign(allow_auto_game_mode(), 1),
        assign(games_priority(), 6),
        assign(games_gpu_priority(), 8),
    ]
}

/// The write that makes the boost-mode power setting visible.
pub open spec fn unlock_effects() -> Seq<EffectView> {
    seq![assign(power_attributes(), 2)]
}

/// The locations whose values `unlock_power_settings` and `apply_tweaks`
/// capture: every location they write to.
pub open spec fn is_captured(at: Location) -> bool {
    at == power_attributes() || at == priority_separation() || at == auto_game_mode() || at
        == allow_auto_game_mode() || at == games_priority() || at == games_gpu_priority()
}

/// A location holds an integer or nothing.
pub open spec fn integer_or_absent(v: Option<StoredValue>) -> bool {
    match v {
        Some(StoredValue::Text(_)) => false,
        _ => true,
    }
}

/// The values captured before the power setting is unlocked, before the
/// always-on tweaks and before the shell's auto-restart flag is cleared. A
/// slot is meaningful only while its `unlocked`, `applied` or
/// `shell_flag_captured` mark is set; `None` then means that the value was
/// absent.
#[derive(Clone, Copy, Debug, PartialEq, Eq)]
pub struct RegistryService {
    pub unlocked: bool,
    pub original_power_attributes: Option<u32>,
    pub applied: bool,
    pub original_win32_priority_separation: Option<u32>,
    pub original_auto_game_mode_enabled: Option<u32>,
    pub original_allow_auto_game_mode: Option<u32>,
    pub original_priority: Option<u32>,
    pub original_gpu_priority: Option<u32>,
    pub shell_flag_captured: bool,
    pub original_auto_restart_shell: Option<u32>,
}

impl RegistryService {
    /// Nothing is captured.
    pub open spec fn is_fresh(&self) -> bool {
        &&& !self.unlocked
        &&& self.original_power_attributes.is_none()
        &&& !self.applied
        &&& self.original_win32_priority_separation.is_none()
        &&& self.original_auto_game_mode_enabled.is_none()
        &&& self.original_allow_auto_game_mode.is_none()
        &&& self.original_priority.is_none()
        &&& self.original_gpu_priority.is_none()
        &&& !self.shell_flag_captured
        &&& self.original_auto_restart_shell.is_none()
    }

    /// The state after `unlock_power_settings` on `store`.
    pub open spec fn after_unlock(&self, store: ConfigStore) -> RegistryService {
        RegistryService {
            unlocked: true,
            original_power_attributes: as_dword(store.value(power_attributes())),
            ..*self
        }
    }

    /// The state after `apply_tweaks` on `store`.
    pub open spec fn after_apply(&self, store: ConfigStore) -> RegistryService {
        RegistryService {
            applied: true,
            original_win32_priority_separation: as_dword(store.value(priority_separation())),
            original_auto_game_mode_enabled: as_dword(store.value(auto_game_mode())),
            original_allow_auto_game_mode: as_dword(store.value(allow_auto_game_mode())),
            original_priority: as_dword(store.value(games_priority())),
            original_gpu_priority: as_dword(store.value(games_gpu_priority())),
            ..*self
        }
    }

    /// The state after `revert_tweaks`.
    pub open spec fn after_revert(&self) -> RegistryService {
        RegistryService {
            unlocked: false,
            original_power_attributes: None,
            applied: false,
            original_win32_priority_separation: None,
            original_auto_game_mode_enabled: None,
            original_allow_auto_game_mode: None,
            original_priority: None,
            original_gpu_priority: None,
            shell_flag_captured: self.shell_flag_captured,
            original_auto_restart_shell: self.original_auto_restart_shell,
        }
    }

    /// The tweaks put back: nothing unless tweaks were applied, otherwise
    /// every value the tweaks wrote, as it was captured.
    pub open spec fn tweak_revert_effects(&self) -> Seq<EffectView> {
        if self.applied {
            seq![
                put_back(priority_separation(), self.original_win32_priority_separation),
                put_back(auto_game_mode(), self.original_auto_game_mode_enabled),
                put_back(allow_auto_game_mode(), self.original_allow_auto_game_mode),
                put_back(games_priority(), self.original_priority),
                put_back(games_gpu_priority(), self.original_gpu_priority),
            ]
        } else {
            Seq::empty()
        }
    }

    /// The unlock put back: nothing unless the setting was unlocked,
    /// otherwise its attributes as they were captured.
    pub open spec fn unlock_revert_effects(&self) -> Seq<EffectView> {
        if self.unlocked {
            seq![put_back(power_attributes(), self.original_power_attributes)]
        } else {
            Seq::empty()
        }
    }

    /// What `revert_tweaks` asks for: the tweaks put back, then the unlock.
    pub open spec fn revert_effects(&self) -> Seq<EffectView> {
        self.tweak_revert_effects() + self.unlock_revert_effects()
    }

    /// The state after `disable_auto_restart_shell` on `store`.
    pub open spec fn after_shell_capture(&self, store: ConfigStore) -> RegistryService {
        RegistryService {
            shell_flag_captured: true,
            original_auto_restart_shell: as_dword(store.value(auto_restart_shell())),
            ..*self
        }
    }

    /// The state after `enable_auto_restart_shell`.
    pub open spec fn after_shell_restore(&self) -> RegistryService {
        RegistryService { shell_flag_captured: false, original_auto_restart_shell: None, ..*self }
    }

    /// What `enable_auto_restart_shell` asks for: the captured flag put
    /// back, or the default of 1 when none was captured.
    pub open spec fn shell_restore_effects(&self) -> Seq<EffectView> {
        if self.shell_flag_captured {
            seq![put_back(auto_restart_shell(), self.original_auto_restart_shell)]
        } else {
            seq![assign(auto_restart_shell(), 1)]
        }
    }

    pub fn new() -> (s: Self)
        ensures
            s.is_fresh(),
    {
        RegistryService {
            unlocked: false,
            original_power_attributes: None,
            applied: false,
            original_win32_priority_separation: None,
            original_auto_game_mode_enabled: None,
            original_allow_auto_game_mode: None,
            original_priority: None,
            original_gpu_priority: None,
            shell_flag_captured: false,
            original_auto_restart_shell: None,
        }
    }

    /// Captures the current values of the tweaked settings from `store`,
    /// then asks for the tweaks to be written.
    pub fn apply_tweaks(&mut self, store: &ConfigStore) -> (effects: Vec<Effect>)
        ensures
            *final(self) == old(self).after_apply(*store),
            effects.deep_view() == tweak_effects(),
    {
        let pc = "SYSTEM\\CurrentControlSet\\Control\\PriorityControl";
        let gb = "Software\\Microsoft\\GameBar";
        let games =
            "SOFTWARE\\Microsoft\\Windows NT\\CurrentVersion\\Multimedia\\SystemProfile\\Tasks\\Games";
        self.applied = true;
        self.original_win32_priority_separation = store.read_dword(
            Hive::LocalMachine,
            pc,
            "Win32PrioritySeparation",
        );
        self.original_auto_game_mode_enabled = store.read_dword(
            Hive::CurrentUser,
            gb,
            "AutoGameModeEnabled",
        );
        self.original_allow_auto_game_mode = store.read_dword(
            Hive::CurrentUser,
            gb,
            "AllowAutoGameMode",
        );
        self.original_priority = store.read_dword(Hive::LocalMachine, games, "Priority");
        self.original_gpu_priority = store.read_dword(Hive::LocalMachine, games, "GPU Priority");
        let mut effects: Vec<Effect> = Vec::new();
        push_deep(
            &mut effects,
            Effect::set_dword(Hive::LocalMachine, pc, "Win32PrioritySeparation", 38),
        );
        push_deep(&mut effects, Effect::set_dword(Hive::CurrentUser, gb, "AutoGameModeEnabled", 1));
        push_deep(&mut effects, Effect::set_dword(Hive::CurrentUser, gb, "AllowAutoGameMode", 1));
        push_deep(&mut effects, Effect::set_dword(Hive::LocalMachine, games, "Priority", 6));
        push_deep(&mut effects, Effect::set_dword(Hive::LocalMachine, games, "GPU Priority", 8));
        assert(effects.deep_view() =~= tweak_effects());
        effects
    }

    /// Captures the attributes of the processor boost-mode setting, then
    /// asks for the setting to be made visible in the power options.
    pub fn unlock_power_settings(&mut self, store: &ConfigStore) -> (effects: Vec<Effect>)
        ensures
            *final(self) == old(self).after_unlock(*store),
            effects.deep_view() == unlock_effects(),
    {
        let path =
            "SYSTEM\\CurrentControlSet\\Control\\Power\\PowerSettings\\54533251-82be-4824-96c1-47b60b740d00\\be337238-0d82-4146-a960-4f3749d470c7";
        self.unlocked = true;
        self.original_power_attributes = store.read_dword(Hive::LocalMachine, path, "Attributes");
        let mut effects: Vec<Effect> = Vec::new();
        push_deep(&mut effects, Effect::set_dword(Hive::LocalMachine, path, "Attributes", 2));
        assert(effects.deep_view() =~= unlock_effects());
        effects
    }

    /// Puts back every value captured by the last `apply_tweaks` and the
    /// last `unlock_power_settings`, and forgets it. A value that was
    /// absent is removed again. Without a preceding capture nothing is
    /// asked for.
    pub fn revert_tweaks(&mut self) -> (effects: Vec<Effect>)
        ensures
            *final(self) == old(self).after_revert(),
            effects.deep_view() == old(self).revert_effects(),
    {
        let pc = "SYSTEM\\CurrentControlSet\\Control\\PriorityControl";
        let gb = "Software\\Microsoft\\GameBar";
        let games =
            "SOFTWARE\\Microsoft\\Windows NT\\CurrentVersion\\Multimedia\\SystemProfile\\Tasks\\Games";
        let mut effects: Vec<Effect> = Vec::new();
        if self.applied {
            push_deep(
                &mut effects,
                Effect::restore_dword(
                    Hive::LocalMachine,
                    pc,
                    "Win32PrioritySeparation",
                    self.original_win32_priority_separation,
                ),
            );
            push_deep(
                &mut effects,
                Effect::restore_dword(
                    Hive::CurrentUser,
                    gb,
                    "AutoGameModeEnabled",
                    self.original_auto_game_mode_enabled,
                ),
            );
            push_deep(
                &mut effects,
                Effect::restore_dword(
                    Hive::CurrentUser,
                    gb,
                    "AllowAutoGameMode",
                    self.original_allow_auto_game_mode,
                ),
            );
            push_deep(
                &mut effects,
                Effect::restore_dword(Hive::LocalMachine, games, "Priority", self.original_priority),
            );
            push_deep(
                &mut effects,
                Effect::restore_dword(
                    Hive::LocalMachine,
                    games,
                    "GPU Priority",
                    self.original_gpu_priority,
                ),
            );
        }
        assert(effects.deep_view() =~= old(self).tweak_revert_effects());
        if self.unlocked {
            push_deep(
                &mut effects,
                Effect::restore_dword(
                    Hive::LocalMachine,
                    "SYSTEM\\CurrentControlSet\\Control\\Power\\PowerSettings\\54533251-82be-4824-96c1-47b60b740d00\\be337238-0d82-4146-a960-4f3749d470c7",
                    "Attributes",
                    self.original_power_attributes,
                ),
            );
        }
        assert(effects.deep_view() =~= old(self).revert_effects());
        self.unlocked = false;
        self.original_power_attributes = None;
        self.applied = false;
        self.original_win32_priority_separation = None;
        self.original_auto_game_mode_enabled = None;
        self.original_allow_auto_game_mode = None;
        self.original_priority = None;
        self.original_gpu_priority = None;
        effects
    }

    /// Captures the shell's auto-restart flag and asks for it to be cleared.
    pub fn disable_auto_restart_shell(&mut self, store: &ConfigStore) -> (effects: Vec<Effect>)
        ensures
            *final(self) == old(self).after_shell_capture(*store),
            effects.deep_view() == seq![assign(auto_restart_shell(), 0)],
    {
        let path = "SOFTWARE\\Microsoft\\Windows NT\\CurrentVersion\\Winlogon";
        self.shell_flag_captured = true;
        self.original_auto_restart_shell = store.read_dword(
            Hive::LocalMachine,
            path,
            "AutoRestartShell",
        );
        let mut effects: Vec<Effect> = Vec::new();
        push_deep(&mut effects, Effect::set_dword(Hive::LocalMachine, path, "AutoRestartShell", 0));
        assert(effects.deep_view() =~= seq![assign(auto_restart_shell(), 0)]);
        effects
    }

    /// Puts the shell's auto-restart flag back as captured and forgets it;
    /// when nothing was captured, asks for the default of 1.
    pub fn enable_auto_restart_shell(&mut self) -> (effects: Vec<Effect>)
        ensures
            *final(self) == old(self).after_shell_restore(),
            effects.deep_view() == old(self).shell_restore_effects(),
    {
        let path = "SOFTWARE\\Microsoft\\Windows NT\\CurrentVersion\\Winlogon";
        let mut effects: Vec<Effect> = Vec::new();
        if self.shell_flag_captured {
            push_deep(
                &mut effects,
                Effect::restore_dword(
                    Hive::LocalMachine,
                    path,
                    "AutoRestartShell",
                    self.original_auto_restart_shell,
                ),
            );
        } else {
            push_deep(
                &mut effects,
                Effect::set_dword(Hive::LocalMachine, path, "AutoRestartShell", 1),
            );
        }
        assert(effects.deep_view() =~= old(self).shell_restore_effects());
        self.shell_flag_captured = false;
        self.original_auto_restart_shell = None;
        effects
    }
}

/// The captured locations are pairwise different.
pub proof fn lemma_tweak_locations_differ()
    ensures
        priority_separation() != auto_game_mode(),
        priority_separation() != allow_auto_game_mode(),
        priority_separation() != games_priority(),
        priority_separation() != games_gpu_priority(),
        priority_separation() != power_attributes(),
        auto_game_mode() != allow_auto_game_mode(),
        auto_game_mode() != games_priority(),
        auto_game_mode() != games_gpu_priority(),
        auto_game_mode() != power_attributes(),
        allow_auto_game_mode() != games_priority(),
        allow_auto_game_mode() != games_gpu_priority(),
        allow_auto_game_mode() != power_attributes(),
        games_priority() != games_gpu_priority(),
        games_priority() != power_attributes(),
        games_gpu_priority() != power_attributes(),
{
    reveal_strlit("AutoGameModeEnabled");
    reveal_strlit("AllowAutoGameMode");
    reveal_strlit("Priority");
    reveal_strlit("GPU Priority");
    reveal_strlit("Win32PrioritySeparation");
    reveal_strlit("Attributes");
    assert("AutoGameModeEnabled"@.len() == 19);
    assert("AllowAutoGameMode"@.len() == 17);
    assert("Priority"@.len() == 8);
    assert("GPU Priority"@.len() == 12);
    assert("Win32PrioritySeparation"@.len() == 23);
    assert("Attributes"@.len() == 10);
}

/// Position of a captured location in the list that `revert_tweaks` asks
/// for after an unlock and an apply.
pub open spec fn revert_position(at: Location) -> int {
    if at == priority_separation() {
        0
    } else if at == auto_game_mode() {
        1
    } else if at == allow_auto_game_mode() {
        2
    } else if at == games_priority() {
        3
    } else if at == games_gpu_priority() {
        4
    } else {
        5
    }
}

/// The revert after an unlock and an apply on `store` leaves, at every
/// captured location that held an integer or nothing in `store`, the value
/// it held there, whatever was written in between.
pub proof fn lemma_revert_puts_back(
    service: RegistryService,
    store: ConfigStore,
    between: Option<StoredValue>,
    at: Location,
)
    requires
        is_captured(at),
        integer_or_absent(store.value(at)),
    ensures
        replay(between, service.after_unlock(store).after_apply(store).revert_effects(), at)
            == store.value(at),
{
    let captured = service.after_unlock(store).after_apply(store);
    lemma_tweak_locations_differ();
    assert(captured.revert_effects() =~= seq![
        put_back(priority_separation(), captured.original_win32_priority_separation),
        put_back(auto_game_mode(), captured.original_auto_game_mode_enabled),
        put_back(allow_auto_game_mode(), captured.original_allow_auto_game_mode),
        put_back(games_priority(), captured.original_priority),
        put_back(games_gpu_priority(), captured.original_gpu_priority),
        put_back(power_attributes(), captured.original_power_attributes),
    ]);
    lemma_single_writer(between, captured.revert_effects(), revert_position(at), at);
}

/// Round trip of the always-on work: at every location that the unlock or
/// the tweaks write to, if it held an integer or nothing, unlocking,
/// applying the tweaks and then reverting leaves the value it held before,
/// and an absent value absent.
pub proof fn lemma_tweaks_round_trip(service: RegistryService, store: ConfigStore, at: Location)
    requires
        is_captured(at),
        integer_or_absent(store.value(at)),
    ensures
        replay(
            store.value(at),
            unlock_effects() + tweak_effects() + service.after_unlock(store).after_apply(
                store,
            ).revert_effects(),
            at,
        ) == store.value(at),
{
    let undo = service.after_unlock(store).after_apply(store).revert_effects();
    lemma_replay_concat(store.value(at), unlock_effects() + tweak_effects(), undo, at);
    lemma_revert_puts_back(
        service,
        store,
        replay(store.value(at), unlock_effects() + tweak_effects(), at),
        at,
    );
}

/// The unlock and the tweaks write to captured locations only.
pub proof fn lemma_only_captured_is_written(at: Location)
    requires
        !is_captured(at),
    ensures
        crate::store::spares(unlock_effects() + tweak_effects(), at),
{
}

/// A revert without a preceding apply asks for nothing.
pub proof fn lemma_fresh_revert_is_empty(service: RegistryService)
    requires
        service.is_fresh(),
    ensures
        service.revert_effects().len() == 0,
{
}

/// Round trip of the shell's auto-restart flag, when it held an integer or
/// nothing: clearing it and then restoring it leaves the value it held.
pub proof fn lemma_shell_flag_round_trip(service: RegistryService, store: ConfigStore)
    requires
        integer_or_absent(store.value(auto_restart_shell())),
    ensures
        replay(
            store.value(auto_restart_shell()),
            seq![assign(auto_restart_shell(), 0)] + service.after_shell_capture(
                store,
            ).shell_restore_effects(),
            auto_restart_shell(),
        ) == store.value(auto_restart_shell()),
{
    let at = auto_restart_shell();
    let before = store.value(at);
    let undo = service.after_shell_capture(store).shell_restore_effects();
    lemma_replay_concat(before, seq![assign(at, 0)], undo, at);
    lemma_single_writer(replay(before, seq![assign(at, 0)], at), undo, 0, at);
}

} // verus!
