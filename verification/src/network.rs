//! Network-isolation provider: multicast name resolution and NetBIOS over
//! TCP, on every network interface.
use vstd::prelude::*;
use vstd::string::StringExecFns;
use crate::effect::{append_deep, delete_value, push_deep, set_dword, Effect, EffectView, Hive};
use crate::store::{
    lemma_replay_concat, lemma_replay_one, location, replay, spares, Location, StoredValue,
};

verus! {

/// NetBIOS option value that disables NetBIOS over TCP.
pub const NETBIOS_DISABLED: u32 = 2;

/// NetBIOS option value that leaves the choice to the host.
pub const NETBIOS_DEFAULT: u32 = 0;

pub open spec fn dns_client_path() -> Seq<char> {
    "SOFTWARE\\Policies\\Microsoft\\Windows NT\\DNSClient"@
}

/// The key whose sub-keys are the network interfaces.
pub open spec fn interfaces_root() -> Seq<char> {
    "SYSTEM\\CurrentControlSet\\Services\\NetBT\\Parameters\\Interfaces"@
}

/// Path of the settings of one interface; `interface` is the name of its
/// sub-key.
pub open spec fn interface_path(interface: Seq<char>) -> Seq<char> {
    interfaces_root() + "\\"@ + interface
}

/// The policy value whose absence means that multicast is enabled.
pub open spec fn multicast_policy() -> Location {
    location(Hive::LocalMachine, dns_client_path(), "EnableMulticast"@)
}

/// The write of the NetBIOS option of one interface.
pub open spec fn netbios_effect(interface: Seq<char>, value: u32) -> EffectView {
    set_dword(Hive::LocalMachine, interface_path(interface), "NetbiosOptions"@, value)
}

/// The NetBIOS option written on every interface, in enumeration order.
pub open spec fn netbios_effects(interfaces: Seq<Seq<char>>, value: u32) -> Seq<EffectView> {
    Seq::new(interfaces.len(), |i: int| netbios_effect(interfaces[i], value))
}

/// The policy write that disables multicast name resolution.
pub open spec fn disable_multicast_effect() -> EffectView {
    set_dword(Hive::LocalMachine, dns_client_path(), "EnableMulticast"@, 0)
}

/// The removal of the multicast policy value.
pub open spec fn enable_multicast_effect() -> EffectView {
    delete_value(Hive::LocalMachine, dns_client_path(), "EnableMulticast"@)
}

/// What `toggle_isolation` asks for.
pub open spec fn isolation_effects(enable: bool, interfaces: Seq<Seq<char>>) -> Seq<EffectView> {
    if enable {
        seq![disable_multicast_effect()] + netbios_effects(interfaces, NETBIOS_DISABLED)
    } else {
        seq![enable_multicast_effect()] + netbios_effects(interfaces, NETBIOS_DEFAULT)
    }
}

pub struct NetworkService;

impl NetworkService {
    /// Isolates the host from multicast name resolution and NetBIOS, or
    /// lifts the isolation. `interfaces` are the names of the interface
    /// sub-keys as the host enumerates them.
    pub fn toggle_isolation(enable: bool, interfaces: &Vec<String>) -> (effects: Vec<Effect>)
        ensures
            effects.deep_view() == isolation_effects(enable, interfaces.deep_view()),
    {
        let mut effects: Vec<Effect> = Vec::new();
        if enable {
            push_deep(&mut effects, Self::disable_multicast());
            append_deep(&mut effects, Self::disable_netbios(interfaces));
            assert(effects.deep_view() =~= isolation_effects(enable, interfaces.deep_view()));
        } else {
            push_deep(&mut effects, Self::enable_multicast());
            append_deep(&mut effects, Self::enable_netbios(interfaces));
            assert(effects.deep_view() =~= isolation_effects(enable, interfaces.deep_view()));
        }
        effects
    }

    /// The key under the local machine whose sub-keys are the network
    /// interfaces; the caller enumerates them for `toggle_isolation`.
    pub fn interfaces_key() -> (key: &'static str)
        ensures
            key@ == interfaces_root(),
    {
        "SYSTEM\\CurrentControlSet\\Services\\NetBT\\Parameters\\Interfaces"
    }

    /// Disables multicast name resolution by policy; the policy path is
    /// created if it is absent.
    pub fn disable_multicast() -> (e: Effect)
        ensures
            e@ == disable_multicast_effect(),
    {
        Effect::set_dword(
            Hive::LocalMachine,
            "SOFTWARE\\Policies\\Microsoft\\Windows NT\\DNSClient",
            "EnableMulticast",
            0,
        )
    }

    /// Removes the multicast policy value: its absence is the enabled
    /// default.
    pub fn enable_multicast() -> (e: Effect)
        ensures
            e@ == enable_multicast_effect(),
    {
        Effect::delete_value(
            Hive::LocalMachine,
            "SOFTWARE\\Policies\\Microsoft\\Windows NT\\DNSClient",
            "EnableMulticast",
        )
    }

    /// Disables NetBIOS over TCP on every interface.
    pub fn disable_netbios(interfaces: &Vec<String>) -> (effects: Vec<Effect>)
        ensures
            effects.deep_view() == netbios_effects(interfaces.deep_view(), NETBIOS_DISABLED),
    {
        Self::set_netbios_option(NETBIOS_DISABLED, interfaces)
    }

    /// Puts NetBIOS over TCP back to the host's default on every interface.
    pub fn enable_netbios(interfaces: &Vec<String>) -> (effects: Vec<Effect>)
        ensures
            effects.deep_view() == netbios_effects(interfaces.deep_view(), NETBIOS_DEFAULT),
    {
        Self::set_netbios_option(NETBIOS_DEFAULT, interfaces)
    }

    /// Writes one NetBIOS option value on every interface, however many
    /// there are.
    pub fn set_netbios_option(value: u32, interfaces: &Vec<String>) -> (effects: Vec<Effect>)
        ensures
            effects.deep_view() == netbios_effects(interfaces.deep_view(), value),
    {
        let mut effects: Vec<Effect> = Vec::new();
        let mut i: usize = 0;
        assert(effects.deep_view() =~= netbios_effects(
            interfaces.deep_view().subrange(0, 0),
            value,
        ));
        while i < interfaces.len()
            invariant
                i <= interfaces@.len(),
                effects.deep_view() == netbios_effects(
                    interfaces.deep_view().subrange(0, i as int),
                    value,
                ),
            decreases interfaces@.len() - i,
        {
            let mut path = Self::interfaces_key().to_owned();
            path.append("\\");
            path.append(interfaces[i].as_str());
            push_deep(
                &mut effects,
                Effect::set_dword(Hive::LocalMachine, path.as_str(), "NetbiosOptions", value),
            );
            assert(effects.deep_view() =~= netbios_effects(
                interfaces.deep_view().subrange(0, i as int + 1),
                value,
            ));
            i += 1;
        }
        assert(interfaces.deep_view().subrange(0, interfaces@.len() as int)
            =~= interfaces.deep_view());
        effects
    }
}

/// A NetBIOS write touches no value of another name.
pub proof fn lemma_netbios_spares(interfaces: Seq<Seq<char>>, value: u32, at: Location)
    requires
        at.name != "NetbiosOptions"@,
    ensures
        spares(netbios_effects(interfaces, value), at),
{
}

/// Isolating and then lifting the isolation leaves the multicast policy
/// value absent, whatever it held and whatever the interfaces are at either
/// time. In particular a value that was absent stays absent.
pub proof fn lemma_isolation_round_trip(
    before: Option<StoredValue>,
    at_enable: Seq<Seq<char>>,
    at_disable: Seq<Seq<char>>,
)
    ensures
        replay(
            before,
            isolation_effects(true, at_enable) + isolation_effects(false, at_disable),
            multicast_policy(),
        ).is_none(),
{
    let at = multicast_policy();
    let on = isolation_effects(true, at_enable);
    let off = isolation_effects(false, at_disable);
    lemma_replay_concat(before, on, off, at);
    let mid = replay(before, on, at);
    lemma_replay_concat(mid, seq![enable_multicast_effect()], netbios_effects(at_disable, NETBIOS_DEFAULT), at);
    lemma_replay_one(mid, enable_multicast_effect(), at);
    reveal_strlit("NetbiosOptions");
    reveal_strlit("EnableMulticast");
    assert("NetbiosOptions"@.len() == 14);
    assert("EnableMulticast"@.len() == 15);
    lemma_netbios_spares(at_disable, NETBIOS_DEFAULT, at);
    crate::store::lemma_replay_untouched(
        replay(mid, seq![enable_multicast_effect()], at),
        netbios_effects(at_disable, NETBIOS_DEFAULT),
        at,
    );
}

} // verus!
