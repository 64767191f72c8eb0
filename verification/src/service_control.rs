//! Service-control provider: stops a fixed catalog of background services
//! and later restarts exactly those that were stopped.
use vstd::prelude::*;
use crate::effect::{push_deep, Effect, EffectView};
use crate::text::same_text;

verus! {

/// State code of a stopped service.
pub const SERVICE_STOPPED: u32 = 1;

/// State code of a running service.
pub const SERVICE_RUNNING: u32 = 4;

/// The state of one service, as the service-control manager reports it.
#[derive(Clone, Debug, PartialEq, Eq)]
pub struct ServiceStatus {
    pub name: String,
    pub state: u32,
}

/// The services that are stopped for the length of a session.
pub open spec fn optimization_services() -> Seq<Seq<char>> {
    seq![
        "SysMain"@,
        "DiagTrack"@,
        "WSearch"@,
        "Spooler"@,
        "MapsBroker"@,
        "Fax"@,
        "NvContainerLocalSystem"@,
        "NvContainerNetworkService"@,
        "NVDisplay.ContainerLocalSystem"@,
        "CrossDeviceService"@,
        "wuauserv"@,
        "bits"@,
        "dosvc"@,
    ]
}

/// The reported state of the service `name`: that of the last row that
/// carries the name, `None` when no row does.
pub open spec fn state_of(statuses: Seq<ServiceStatus>, name: Seq<char>) -> Option<u32>
    decreases statuses.len(),
{
    if statuses.len() == 0 {
        None
    } else if statuses.last().name@ == name {
        Some(statuses.last().state)
    } else {
        state_of(statuses.drop_last(), name)
    }
}

/// A stop request for each of `names` that is reported running, in order.
pub open spec fn stop_effects(names: Seq<Seq<char>>, statuses: Seq<ServiceStatus>) -> Seq<
    EffectView,
>
    decreases names.len(),
{
    if names.len() == 0 {
        Seq::empty()
    } else {
        let rest = stop_effects(names.drop_last(), statuses);
        if state_of(statuses, names.last()) == Some(SERVICE_RUNNING) {
            rest.push(EffectView::StopService { name: names.last() })
        } else {
            rest
        }
    }
}

/// A start request for each of `names` that is reported stopped, in order.
pub open spec fn start_effects(names: Seq<Seq<char>>, statuses: Seq<ServiceStatus>) -> Seq<
    EffectView,
>
    decreases names.len(),
{
    if names.len() == 0 {
        Seq::empty()
    } else {
        let rest = start_effects(names.drop_last(), statuses);
        if state_of(statuses, names.last()) == Some(SERVICE_STOPPED) {
            rest.push(EffectView::StartService { name: names.last() })
        } else {
            rest
        }
    }
}

/// The names among `effects` whose stop request succeeded, in order. A
/// request without a reported outcome counts as failed.
pub open spec fn stopped(effects: Seq<EffectView>, outcomes: Seq<bool>) -> Seq<Seq<char>>
    decreases effects.len(),
{
    if effects.len() == 0 {
        Seq::empty()
    } else {
        let rest = stopped(effects.drop_last(), outcomes);
        match effects.last() {
            EffectView::StopService { name } => if effects.len() <= outcomes.len()
                && outcomes[effects.len() - 1] {
                rest.push(name)
            } else {
                rest
            },
            _ => rest,
        }
    }
}

/// Every effect of `start_effects` starts one of `names`.
pub proof fn lemma_start_effects_within(names: Seq<Seq<char>>, statuses: Seq<ServiceStatus>)
    ensures
        forall|i: int|
            0 <= i < start_effects(names, statuses).len() ==> exists|j: int|
                0 <= j < names.len() && #[trigger] start_effects(names, statuses)[i]
                    == (EffectView::StartService { name: names[j] }),
    decreases names.len(),
{
    if names.len() > 0 {
        lemma_start_effects_within(names.drop_last(), statuses);
        let rest = start_effects(names.drop_last(), statuses);
        assert forall|i: int| 0 <= i < start_effects(names, statuses).len() implies exists|j: int|
            0 <= j < names.len() && #[trigger] start_effects(names, statuses)[i]
                == (EffectView::StartService { name: names[j] }) by {
            if i < rest.len() {
                let j = choose|j: int|
                    0 <= j < names.drop_last().len() && rest[i] == (EffectView::StartService {
                        name: names.drop_last()[j],
                    });
                assert(names[j] == names.drop_last()[j]);
            } else {
                assert(start_effects(names, statuses)[i] == (EffectView::StartService {
                    name: names[names.len() - 1],
                }));
            }
        }
    }
}

/// Every one of `names` that is reported stopped is started.
pub proof fn lemma_start_effects_cover(names: Seq<Seq<char>>, statuses: Seq<ServiceStatus>, j: int)
    requires
        0 <= j < names.len(),
        state_of(statuses, names[j]) == Some(SERVICE_STOPPED),
    ensures
        exists|i: int|
            0 <= i < start_effects(names, statuses).len() && #[trigger] start_effects(
                names,
                statuses,
            )[i] == (EffectView::StartService { name: names[j] }),
    decreases names.len(),
{
    let all = start_effects(names, statuses);
    if j == names.len() - 1 {
        assert(all[all.len() - 1] == (EffectView::StartService { name: names[j] }));
    } else {
        lemma_start_effects_cover(names.drop_last(), statuses, j);
        let rest = start_effects(names.drop_last(), statuses);
        let i = choose|i: int|
            0 <= i < rest.len() && rest[i] == (EffectView::StartService {
                name: names.drop_last()[j],
            });
        assert(all[i] == rest[i]);
    }
}

pub struct WindowsServiceManager;

impl WindowsServiceManager {
    /// The catalog of services eligible for a session-scoped stop.
    pub fn optimization_services() -> (list: Vec<&'static str>)
        ensures
            list.deep_view() == optimization_services(),
    {
        let list = vec![
            "SysMain",
            "DiagTrack",
            "WSearch",
            "Spooler",
            "MapsBroker",
            "Fax",
            "NvContainerLocalSystem",
            "NvContainerNetworkService",
            "NVDisplay.ContainerLocalSystem",
            "CrossDeviceService",
            "wuauserv",
            "bits",
            "dosvc",
        ];
        assert(list.deep_view() =~= optimization_services());
        list
    }

    /// The reported state of the service `name`.
    pub fn query(statuses: &Vec<ServiceStatus>, name: &str) -> (state: Option<u32>)
        ensures
            state == state_of(statuses@, name@),
    {
        let mut state: Option<u32> = None;
        let mut i: usize = 0;
        while i < statuses.len()
            invariant
                i <= statuses@.len(),
                state == state_of(statuses@.subrange(0, i as int), name@),
            decreases statuses@.len() - i,
        {
            proof {
                let upto = statuses@.subrange(0, i as int + 1);
                assert(upto.drop_last() =~= statuses@.subrange(0, i as int));
                assert(upto.last() == statuses@[i as int]);
            }
            if same_text(statuses[i].name.as_str(), name) {
                state = Some(statuses[i].state);
            }
            i += 1;
        }
        assert(statuses@.subrange(0, statuses@.len() as int) =~= statuses@);
        state
    }

    /// Whether the service `name` is to be stopped: only when it is reported
    /// running.
    pub fn stop_single_service(name: &str, statuses: &Vec<ServiceStatus>) -> (stop: bool)
        ensures
            stop == (state_of(statuses@, name@) == Some(SERVICE_RUNNING)),
    {
        match Self::query(statuses, name) {
            Some(state) => state == SERVICE_RUNNING,
            None => false,
        }
    }

    /// Whether the service `name` is to be started: only when it is reported
    /// stopped, so that a service restarted by someone else is left alone.
    pub fn start_single_service(name: &str, statuses: &Vec<ServiceStatus>) -> (start: bool)
        ensures
            start == (state_of(statuses@, name@) == Some(SERVICE_STOPPED)),
    {
        match Self::query(statuses, name) {
            Some(state) => state == SERVICE_STOPPED,
            None => false,
        }
    }

    /// Stop requests for every service of the catalog that is running.
    pub fn stop_optimization_services(statuses: &Vec<ServiceStatus>) -> (effects: Vec<Effect>)
        ensures
            effects.deep_view() == stop_effects(optimization_services(), statuses@),
    {
        let catalog = Self::optimization_services();
        let mut effects: Vec<Effect> = Vec::new();
        let mut i: usize = 0;
        assert(catalog.deep_view().subrange(0, 0) =~= Seq::<Seq<char>>::empty());
        assert(effects.deep_view() =~= Seq::<EffectView>::empty());
        while i < catalog.len()
            invariant
                i <= catalog@.len(),
                effects.deep_view() == stop_effects(
                    catalog.deep_view().subrange(0, i as int),
                    statuses@,
                ),
            decreases catalog@.len() - i,
        {
            proof {
                let upto = catalog.deep_view().subrange(0, i as int + 1);
                assert(upto.drop_last() =~= catalog.deep_view().subrange(0, i as int));
                assert(upto.last() == catalog@[i as int]@);
            }
            if Self::stop_single_service(catalog[i], statuses) {
                push_deep(&mut effects, Effect::StopService { name: catalog[i].to_owned() });
            }
            i += 1;
        }
        assert(catalog.deep_view().subrange(0, catalog@.len() as int) =~= catalog.deep_view());
        effects
    }

    /// The services that were stopped: the names of the stop requests in
    /// `effects` whose outcome, at the same position in `outcomes`, is a
    /// success.
    pub fn stopped_services(effects: &Vec<Effect>, outcomes: &Vec<bool>) -> (names: Vec<String>)
        ensures
            names.deep_view() == stopped(effects.deep_view(), outcomes@),
    {
        let mut names: Vec<String> = Vec::new();
        let mut i: usize = 0;
        assert(effects.deep_view().subrange(0, 0) =~= Seq::<EffectView>::empty());
        assert(names.deep_view() =~= Seq::<Seq<char>>::empty());
        while i < effects.len()
            invariant
                i <= effects@.len(),
                names.deep_view() == stopped(effects.deep_view().subrange(0, i as int), outcomes@),
            decreases effects@.len() - i,
        {
            proof {
                let upto = effects.deep_view().subrange(0, i as int + 1);
                assert(upto.drop_last() =~= effects.deep_view().subrange(0, i as int));
                assert(upto.last() == effects@[i as int]@);
            }
            match &effects[i] {
                Effect::StopService { name } => {
                    if i < outcomes.len() && outcomes[i] {
                        push_deep(&mut names, name.clone());
                    }
                },
                _ => {},
            }
            i += 1;
        }
        assert(effects.deep_view().subrange(0, effects@.len() as int) =~= effects.deep_view());
        names
    }

    /// Start requests for exactly those of `service_names` that are still
    /// stopped. No other service is touched.
    pub fn restore_services(service_names: &Vec<String>, statuses: &Vec<ServiceStatus>) -> (effects:
        Vec<Effect>)
        ensures
            effects.deep_view() == start_effects(service_names.deep_view(), statuses@),
    {
        let mut effects: Vec<Effect> = Vec::new();
        let mut i: usize = 0;
        assert(service_names.deep_view().subrange(0, 0) =~= Seq::<Seq<char>>::empty());
        assert(effects.deep_view() =~= Seq::<EffectView>::empty());
        while i < service_names.len()
            invariant
                i <= service_names@.len(),
                effects.deep_view() == start_effects(
                    service_names.deep_view().subrange(0, i as int),
                    statuses@,
                ),
            decreases service_names@.len() - i,
        {
            proof {
                let upto = service_names.deep_view().subrange(0, i as int + 1);
                assert(upto.drop_last() =~= service_names.deep_view().subrange(0, i as int));
                assert(upto.last() == service_names@[i as int]@);
            }
            if Self::start_single_service(service_names[i].as_str(), statuses) {
                push_deep(&mut effects, Effect::StartService { name: service_names[i].clone() });
            }
            i += 1;
        }
        assert(service_names.deep_view().subrange(0, service_names@.len() as int)
            =~= service_names.deep_view());
        effects
    }
}

} // verus!
