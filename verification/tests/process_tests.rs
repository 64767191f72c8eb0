use gamemode::effect::Effect;
use gamemode::memory::MemoryService;
use gamemode::process::{ProcessEntry, ProcessService, ProcessUtils};

fn row(pid: u32, exe: &str) -> ProcessEntry {
    ProcessEntry { pid, exe_file: exe.as_bytes().to_vec() }
}

fn taskkill(args: &[&str]) -> Effect {
    Effect::Run {
        program: "taskkill".to_string(),
        args: args.iter().map(|a| a.to_string()).collect(),
        wait: false,
    }
}

#[test]
fn process_name_drops_the_executable_extension() {
    assert_eq!(ProcessService::extract_process_name(b"chrome.exe"), b"chrome".to_vec());
    assert_eq!(ProcessService::extract_process_name(b"CHROME.EXE"), b"CHROME".to_vec());
    assert_eq!(ProcessService::extract_process_name(b"svchost"), b"svchost".to_vec());
}

#[test]
fn process_name_keeps_a_mixed_case_extension() {
    assert_eq!(ProcessService::extract_process_name(b"a.Exe"), b"a.Exe".to_vec());
}

#[test]
fn process_name_drops_only_one_extension() {
    assert_eq!(ProcessService::extract_process_name(b"a.exe.exe"), b"a.exe".to_vec());
    assert_eq!(ProcessService::extract_process_name(b".exe"), b"".to_vec());
    assert_eq!(ProcessService::extract_process_name(b"exe"), b"exe".to_vec());
}

#[test]
fn process_name_ends_at_the_first_nul() {
    let mut raw = [0u8; 260];
    raw[..9].copy_from_slice(b"steam.exe");
    raw[12] = b'x';
    assert_eq!(ProcessService::extract_process_name(&raw), b"steam".to_vec());
    assert_eq!(ProcessService::extract_process_name(b"\0abc.exe"), b"".to_vec());
    assert_eq!(ProcessService::extract_process_name(b""), b"".to_vec());
}

#[test]
fn process_name_of_malformed_text_is_empty() {
    assert_eq!(ProcessService::extract_process_name(&[0xff, 0xfe, b'.', b'e', b'x', b'e']), b"".to_vec());
    assert_eq!(ProcessService::extract_process_name(&[0xc3, 0xa9, b'.', b'e', b'x', b'e']), vec![0xc3, 0xa9]);
}

#[test]
fn matching_ignores_case_and_keeps_snapshot_order() {
    let snapshot = vec![row(30, "LockApp.exe"), row(10, "other.exe"), row(20, "searchhost.EXE"), row(5, "SearchHost")];
    let targets = vec!["SearchHost", "LockApp"];
    assert_eq!(ProcessService::matching(&targets, &snapshot), vec![30, 20, 5]);
}

#[test]
fn matching_requires_the_whole_name() {
    let snapshot = vec![row(1, "SearchHostX.exe"), row(2, "Search.exe"), row(3, "")];
    assert_eq!(ProcessService::matching(&vec!["SearchHost"], &snapshot), Vec::<u32>::new());
    assert_eq!(ProcessService::matching(&vec![], &snapshot), Vec::<u32>::new());
}

#[test]
fn suspend_asks_for_each_match_once() {
    let snapshot = vec![row(1, "a.exe"), row(2, "b.exe"), row(3, "A.EXE")];
    let effects = ProcessService::suspend_processes(&vec!["a"], &snapshot);
    assert_eq!(effects, vec![Effect::SuspendProcess { pid: 1 }, Effect::SuspendProcess { pid: 3 }]);
}

#[test]
fn only_successful_suspends_are_recorded() {
    let effects = vec![
        Effect::SuspendProcess { pid: 1 },
        Effect::SuspendProcess { pid: 2 },
        Effect::SuspendProcess { pid: 3 },
    ];
    assert_eq!(ProcessService::suspended_pids(&effects, &vec![true, false, true]), vec![1, 3]);
    assert_eq!(ProcessService::suspended_pids(&effects, &vec![false, false, false]), Vec::<u32>::new());
}

#[test]
fn a_suspend_without_outcome_counts_as_failed() {
    let effects = vec![Effect::SuspendProcess { pid: 1 }, Effect::SuspendProcess { pid: 2 }];
    assert_eq!(ProcessService::suspended_pids(&effects, &vec![true]), vec![1]);
    assert_eq!(ProcessService::suspended_pids(&effects, &vec![]), Vec::<u32>::new());
}

#[test]
fn outcomes_of_other_requests_record_nothing() {
    let effects = vec![
        Effect::ResumeProcess { pid: 9 },
        Effect::SuspendProcess { pid: 2 },
        Effect::TrimWorkingSet { pid: 3 },
    ];
    assert_eq!(ProcessService::suspended_pids(&effects, &vec![true, true, true]), vec![2]);
}

#[test]
fn resume_by_pid_covers_exactly_the_given_ids() {
    assert_eq!(
        ProcessService::resume_processes_by_pid(&vec![7, 3, 7]),
        vec![
            Effect::ResumeProcess { pid: 7 },
            Effect::ResumeProcess { pid: 3 },
            Effect::ResumeProcess { pid: 7 },
        ]
    );
    assert_eq!(ProcessService::resume_processes_by_pid(&vec![]), vec![]);
}

#[test]
fn resume_by_name_covers_the_matches() {
    let snapshot = vec![row(1, "a.exe"), row(2, "b.exe")];
    assert_eq!(
        ProcessService::resume_processes(&vec!["B"], &snapshot),
        vec![Effect::ResumeProcess { pid: 2 }]
    );
}

#[test]
fn image_name_gets_the_extension_when_it_lacks_one() {
    assert_eq!(ProcessService::image_name("chrome"), "chrome.exe");
    assert_eq!(ProcessService::image_name("battle.net"), "battle.net.exe");
    assert_eq!(ProcessService::image_name(""), ".exe");
}

#[test]
fn image_name_with_an_extension_in_any_case_is_kept() {
    assert_eq!(ProcessService::image_name("chrome.exe"), "chrome.exe");
    assert_eq!(ProcessService::image_name("Chrome.EXE"), "Chrome.EXE");
    assert_eq!(ProcessService::image_name("x.Exe"), "x.Exe");
}

#[test]
fn image_name_is_decided_by_the_given_lower_case_form() {
    assert_eq!(ProcessService::image_name_from("A", "b.exe"), "A");
    assert_eq!(ProcessService::image_name_from("A.EXE", "A.EXE"), "A.EXE.exe");
}

#[test]
fn kill_is_one_request_issued_twice() {
    let effects = ProcessService::kill_processes(&vec!["chrome", "Steam.exe"]);
    let expected = taskkill(&["/F", "/IM", "chrome.exe", "/IM", "Steam.exe"]);
    assert_eq!(effects, vec![expected.clone(), expected]);
}

#[test]
fn kill_of_nothing_asks_for_nothing() {
    assert_eq!(ProcessService::kill_processes(&vec![]), vec![]);
}

#[test]
fn kill_of_one_process_is_issued_twice() {
    let expected = taskkill(&["/F", "/IM", "explorer.exe"]);
    assert_eq!(ProcessService::kill_process("explorer"), vec![expected.clone(), expected]);
}

#[test]
fn shell_is_launched_only_when_it_is_absent() {
    let launch = Effect::Run { program: "explorer.exe".to_string(), args: vec![], wait: false };
    let without = vec![row(1, "a.exe")];
    let with = vec![row(1, "a.exe"), row(2, "Explorer.EXE")];
    assert_eq!(ProcessService::restart_explorer(Some(&without)), vec![launch.clone()]);
    assert_eq!(ProcessService::restart_explorer(Some(&vec![])), vec![launch]);
    assert_eq!(ProcessService::restart_explorer(Some(&with)), vec![]);
    assert!(ProcessService::is_shell_running(&with));
    assert!(!ProcessService::is_shell_running(&without));
}

#[test]
fn shell_is_not_launched_without_a_snapshot() {
    assert_eq!(ProcessService::restart_explorer(None), vec![]);
}

#[test]
fn single_process_requests() {
    assert_eq!(ProcessUtils::suspend_process(5), Effect::SuspendProcess { pid: 5 });
    assert_eq!(ProcessUtils::resume_process(5), Effect::ResumeProcess { pid: 5 });
}

#[test]
fn flush_spares_the_own_process() {
    let snapshot = vec![row(4, "System"), row(77, "me.exe"), row(9, "a.exe"), row(77, "again.exe")];
    assert_eq!(
        MemoryService::flush_memory(&snapshot, 77),
        vec![Effect::TrimWorkingSet { pid: 4 }, Effect::TrimWorkingSet { pid: 9 }]
    );
    assert_eq!(MemoryService::flush_memory(&vec![], 77), vec![]);
}
