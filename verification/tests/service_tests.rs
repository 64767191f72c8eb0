use gamemode::effect::Effect;
use gamemode::service_control::{ServiceStatus, WindowsServiceManager, SERVICE_RUNNING, SERVICE_STOPPED};

fn status(name: &str, state: u32) -> ServiceStatus {
    ServiceStatus { name: name.to_string(), state }
}

fn stop(name: &str) -> Effect {
    Effect::StopService { name: name.to_string() }
}

fn start(name: &str) -> Effect {
    Effect::StartService { name: name.to_string() }
}

#[test]
fn catalog_lists_the_thirteen_services() {
    let catalog = WindowsServiceManager::optimization_services();
    assert_eq!(catalog.len(), 13);
    assert_eq!(catalog[0], "SysMain");
    assert_eq!(catalog[12], "dosvc");
}

#[test]
fn state_codes() {
    assert_eq!(SERVICE_STOPPED, 1);
    assert_eq!(SERVICE_RUNNING, 4);
}

#[test]
fn only_running_catalog_services_are_stopped() {
    let statuses = vec![
        status("dosvc", 4),
        status("SysMain", 4),
        status("Fax", 1),
        status("WSearch", 3),
        status("NotInCatalog", 4),
    ];
    assert_eq!(
        WindowsServiceManager::stop_optimization_services(&statuses),
        vec![stop("SysMain"), stop("dosvc")]
    );
}

#[test]
fn unknown_services_are_not_stopped() {
    assert_eq!(WindowsServiceManager::stop_optimization_services(&vec![]), vec![]);
    assert!(!WindowsServiceManager::stop_single_service("SysMain", &vec![]));
    assert!(!WindowsServiceManager::start_single_service("SysMain", &vec![]));
}

#[test]
fn the_last_report_of_a_service_counts() {
    let statuses = vec![status("bits", 4), status("bits", 1)];
    assert_eq!(WindowsServiceManager::query(&statuses, "bits"), Some(1));
    assert_eq!(WindowsServiceManager::query(&statuses, "Bits"), None);
    assert!(!WindowsServiceManager::stop_single_service("bits", &statuses));
    assert!(WindowsServiceManager::start_single_service("bits", &statuses));
}

#[test]
fn only_successful_stops_are_recorded() {
    let effects = vec![stop("SysMain"), stop("WSearch"), stop("bits")];
    assert_eq!(
        WindowsServiceManager::stopped_services(&effects, &vec![false, true, true]),
        vec!["WSearch".to_string(), "bits".to_string()]
    );
    assert_eq!(
        WindowsServiceManager::stopped_services(&effects, &vec![true]),
        vec!["SysMain".to_string()]
    );
    assert_eq!(
        WindowsServiceManager::stopped_services(&vec![start("x")], &vec![true]),
        Vec::<String>::new()
    );
}

#[test]
fn restore_starts_exactly_the_given_stopped_services() {
    let names = vec!["WSearch".to_string(), "bits".to_string()];
    let statuses = vec![
        status("WSearch", 1),
        status("bits", 1),
        status("SysMain", 1),
        status("Spooler", 1),
    ];
    assert_eq!(
        WindowsServiceManager::restore_services(&names, &statuses),
        vec![start("WSearch"), start("bits")]
    );
}

#[test]
fn restore_leaves_a_service_alone_that_runs_again() {
    let names = vec!["WSearch".to_string(), "bits".to_string()];
    let statuses = vec![status("WSearch", 4), status("bits", 1)];
    assert_eq!(WindowsServiceManager::restore_services(&names, &statuses), vec![start("bits")]);
    let pending = vec![status("WSearch", 2), status("bits", 3)];
    assert_eq!(WindowsServiceManager::restore_services(&names, &pending), vec![]);
}

#[test]
fn restore_of_nothing_asks_for_nothing() {
    let statuses = vec![status("WSearch", 1), status("SysMain", 1)];
    assert_eq!(WindowsServiceManager::restore_services(&vec![], &statuses), vec![]);
}
