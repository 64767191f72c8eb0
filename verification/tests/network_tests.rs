use gamemode::effect::{Effect, Hive};
use gamemode::network::{NetworkService, NETBIOS_DEFAULT, NETBIOS_DISABLED};
use gamemode::store::ConfigStore;

const DNS_CLIENT: &str = "SOFTWARE\\Policies\\Microsoft\\Windows NT\\DNSClient";
const INTERFACES: &str = "SYSTEM\\CurrentControlSet\\Services\\NetBT\\Parameters\\Interfaces\\";

fn netbios(interface: &str, value: u32) -> Effect {
    Effect::SetDword {
        hive: Hive::LocalMachine,
        path: format!("{}{}", INTERFACES, interface),
        name: "NetbiosOptions".to_string(),
        value,
    }
}

fn two_interfaces() -> Vec<String> {
    vec!["Tcpip_{A}".to_string(), "Tcpip_{B}".to_string()]
}

#[test]
fn isolation_disables_multicast_and_netbios_everywhere() {
    let effects = NetworkService::toggle_isolation(true, &two_interfaces());
    assert_eq!(
        effects,
        vec![
            Effect::SetDword {
                hive: Hive::LocalMachine,
                path: DNS_CLIENT.to_string(),
                name: "EnableMulticast".to_string(),
                value: 0
            },
            netbios("Tcpip_{A}", 2),
            netbios("Tcpip_{B}", 2),
        ]
    );
}

#[test]
fn lifting_the_isolation_removes_the_policy_value() {
    let effects = NetworkService::toggle_isolation(false, &two_interfaces());
    assert_eq!(
        effects,
        vec![
            Effect::DeleteValue {
                hive: Hive::LocalMachine,
                path: DNS_CLIENT.to_string(),
                name: "EnableMulticast".to_string()
            },
            netbios("Tcpip_{A}", 0),
            netbios("Tcpip_{B}", 0),
        ]
    );
}

#[test]
fn isolation_without_interfaces_touches_only_the_policy() {
    assert_eq!(NetworkService::toggle_isolation(true, &vec![]), vec![NetworkService::disable_multicast()]);
    assert_eq!(NetworkService::toggle_isolation(false, &vec![]), vec![NetworkService::enable_multicast()]);
}

#[test]
fn netbios_option_is_written_on_every_interface() {
    let many: Vec<String> = (0..40).map(|i| format!("if{}", i)).collect();
    let effects = NetworkService::set_netbios_option(1, &many);
    assert_eq!(effects.len(), 40);
    assert_eq!(effects[39], netbios("if39", 1));
    assert_eq!(NetworkService::disable_netbios(&many)[0], netbios("if0", NETBIOS_DISABLED));
    assert_eq!(NetworkService::enable_netbios(&many)[0], netbios("if0", NETBIOS_DEFAULT));
    assert_eq!(NETBIOS_DISABLED, 2);
    assert_eq!(NETBIOS_DEFAULT, 0);
}

#[test]
fn multicast_policy_that_was_absent_is_absent_after_a_round_trip() {
    let mut store = ConfigStore::new();
    store.apply(NetworkService::toggle_isolation(true, &two_interfaces()));
    assert_eq!(store.read_dword(Hive::LocalMachine, DNS_CLIENT, "EnableMulticast"), Some(0));
    store.apply(NetworkService::toggle_isolation(false, &vec!["Tcpip_{B}".to_string()]));
    assert_eq!(store.read_dword(Hive::LocalMachine, DNS_CLIENT, "EnableMulticast"), None);
    let a = format!("{}{}", INTERFACES, "Tcpip_{A}");
    let b = format!("{}{}", INTERFACES, "Tcpip_{B}");
    assert_eq!(store.read_dword(Hive::LocalMachine, &a, "NetbiosOptions"), Some(2));
    assert_eq!(store.read_dword(Hive::LocalMachine, &b, "NetbiosOptions"), Some(0));
}

#[test]
fn interfaces_are_enumerated_under_the_netbt_key() {
    assert_eq!(
        NetworkService::interfaces_key(),
        "SYSTEM\\CurrentControlSet\\Services\\NetBT\\Parameters\\Interfaces"
    );
}
