//! Workload detector: finds the foreground workload in a process snapshot.
use vstd::prelude::*;
use crate::effect::{Effect, EffectView};
use crate::process::{process_name, ProcessEntry, ProcessService};
use crate::text::{in_list, matches_any, same_text, split_whitespace, whitespace_tokens};

verus! {

/// Bounds of a window, in screen coordinates.
#[derive(Clone, Copy, Debug, PartialEq, Eq, Structural)]
pub struct WindowRect {
    pub left: i32,
    pub top: i32,
    pub right: i32,
    pub bottom: i32,
}

/// One top-level window, in the order the host enumerates them. `rect` is
/// `None` when the bounds could not be read.
#[derive(Clone, Copy, Debug, PartialEq, Eq)]
pub struct WindowInfo {
    pub handle: usize,
    pub owner_pid: u32,
    pub visible: bool,
    pub rect: Option<WindowRect>,
}

/// Process names that are confirmed workloads whatever their window size.
pub open spec fn known_games() -> Seq<Seq<char>> {
    seq![
        "cod"@,
        "cod24-cod"@,
        "FortniteClient-Win64-Shipping"@,
        "r5apex"@,
        "cs2"@,
        "valheim"@,
        "dota2"@,
        "League of Legends"@,
        "Overwatch"@,
        "Valorant-Win64-Shipping"@,
        "GTA5"@,
        "RDR2"@,
        "Cyberpunk2077"@,
        "Minecraft.Windows"@,
    ]
}

/// Shell and search surfaces that are never taken for a workload.
pub open spec fn excluded_processes() -> Seq<Seq<char>> {
    seq!["explorer"@, "SearchApp"@, "LockApp"@, "SearchHost"@]
}

/// Chassis codes that denote a desktop machine.
pub open spec fn desktop_chassis() -> Seq<Seq<char>> {
    seq!["3"@, "4"@, "6"@, "7"@, "13"@, "35"@]
}

/// `w` is a visible window of process `pid`.
pub open spec fn shows(w: WindowInfo, pid: u32) -> bool {
    w.owner_pid == pid && w.visible
}

/// `k` is the first visible window of process `pid`.
pub open spec fn is_main_window(windows: Seq<WindowInfo>, pid: u32, k: int) -> bool {
    &&& 0 <= k < windows.len()
    &&& shows(windows[k], pid)
    &&& forall|j: int| 0 <= j < k ==> !shows(#[trigger] windows[j], pid)
}

/// Process `pid` has no visible window.
pub open spec fn has_no_window(windows: Seq<WindowInfo>, pid: u32) -> bool {
    forall|j: int| 0 <= j < windows.len() ==> !shows(#[trigger] windows[j], pid)
}

/// The window bounds are at least the screen in both dimensions.
pub open spec fn covers_screen(w: WindowInfo, screen_width: i32, screen_height: i32) -> bool {
    match w.rect {
        Some(r) => r.right - r.left >= screen_width && r.bottom - r.top >= screen_height,
        None => false,
    }
}

/// The row is skipped outright: the caller's own process or an excluded name.
pub open spec fn skipped(entry: ProcessEntry, own_pid: u32) -> bool {
    entry.pid == own_pid || matches_any(excluded_processes(), process_name(entry.exe_file@))
}

/// The row is the workload shown in window `k`: it is not skipped, `k` is its
/// main window, and it is a known workload or its window covers the screen.
pub open spec fn detected_in(
    entry: ProcessEntry,
    windows: Seq<WindowInfo>,
    own_pid: u32,
    screen_width: i32,
    screen_height: i32,
    k: int,
) -> bool {
    &&& !skipped(entry, own_pid)
    &&& is_main_window(windows, entry.pid, k)
    &&& (matches_any(known_games(), process_name(entry.exe_file@)) || covers_screen(
        windows[k],
        screen_width,
        screen_height,
    ))
}

/// The row is a workload.
pub open spec fn qualifies(
    entry: ProcessEntry,
    windows: Seq<WindowInfo>,
    own_pid: u32,
    screen_width: i32,
    screen_height: i32,
) -> bool {
    exists|k: int| detected_in(entry, windows, own_pid, screen_width, screen_height, k)
}

/// What the detector returns: the first row of the snapshot that is a
/// workload, with its main window; `None` when no row is.
pub open spec fn detection(
    snapshot: Seq<ProcessEntry>,
    windows: Seq<WindowInfo>,
    own_pid: u32,
    screen_width: i32,
    screen_height: i32,
    result: Option<(u32, usize)>,
) -> bool {
    match result {
        Some((pid, handle)) => exists|i: int, k: int|
            {
                &&& 0 <= i < snapshot.len()
                &&& #[trigger] detected_in(
                    snapshot[i],
                    windows,
                    own_pid,
                    screen_width,
                    screen_height,
                    k,
                )
                &&& pid == snapshot[i].pid
                &&& handle == windows[k].handle
                &&& forall|j: int|
                    0 <= j < i ==> !qualifies(
                        #[trigger] snapshot[j],
                        windows,
                        own_pid,
                        screen_width,
                        screen_height,
                    )
            },
        None => forall|j: int|
            0 <= j < snapshot.len() ==> !qualifies(
                #[trigger] snapshot[j],
                windows,
                own_pid,
                screen_width,
                screen_height,
            ),
    }
}

/// Whether some token of the chassis report is a desktop chassis code.
pub open spec fn reports_desktop(tokens: Seq<Seq<char>>) -> bool {
    exists|i: int, j: int|
        0 <= i < desktop_chassis().len() && 0 <= j < tokens.len() && #[trigger] desktop_chassis()[i]
            == #[trigger] tokens[j]
}

pub struct GameDetector;

impl GameDetector {
    pub fn known_games() -> (list: Vec<&'static str>)
        ensures
            list.deep_view() == known_games(),
    {
        let list = vec![
            "cod",
            "cod24-cod",
            "FortniteClient-Win64-Shipping",
            "r5apex",
            "cs2",
            "valheim",
            "dota2",
            "League of Legends",
            "Overwatch",
            "Valorant-Win64-Shipping",
            "GTA5",
            "RDR2",
            "Cyberpunk2077",
            "Minecraft.Windows",
        ];
        assert(list.deep_view() =~= known_games());
        list
    }

    pub fn excluded_processes() -> (list: Vec<&'static str>)
        ensures
            list.deep_view() == excluded_processes(),
    {
        let list = vec!["explorer", "SearchApp", "LockApp", "SearchHost"];
        assert(list.deep_view() =~= excluded_processes());
        list
    }

    pub fn desktop_chassis() -> (list: Vec<&'static str>)
        ensures
            list.deep_view() == desktop_chassis(),
    {
        let list = vec!["3", "4", "6", "7", "13", "35"];
        assert(list.deep_view() =~= desktop_chassis());
        list
    }

    /// Index of the first visible window owned by `pid`.
    pub fn get_main_window(pid: u32, windows: &Vec<WindowInfo>) -> (r: Option<usize>)
        ensures
            match r {
                Some(k) => is_main_window(windows@, pid, k as int),
                None => has_no_window(windows@, pid),
            },
    {
        let mut k: usize = 0;
        while k < windows.len()
            invariant
                k <= windows@.len(),
                forall|j: int| 0 <= j < k ==> !shows(#[trigger] windows@[j], pid),
            decreases windows@.len() - k,
        {
            if windows[k].owner_pid == pid && windows[k].visible {
                return Some(k);
            }
            k += 1;
        }
        None
    }

    /// Whether the window is at least as large as the screen.
    pub fn is_fullscreen(w: &WindowInfo, screen_width: i32, screen_height: i32) -> (r: bool)
        ensures
            r == covers_screen(*w, screen_width, screen_height),
    {
        match w.rect {
            Some(r) => {
                let width: i64 = r.right as i64 - r.left as i64;
                let height: i64 = r.bottom as i64 - r.top as i64;
                width >= screen_width as i64 && height >= screen_height as i64
            },
            None => false,
        }
    }

    /// Finds the foreground workload: the first process of the snapshot,
    /// other than the caller and the excluded shell surfaces, that has a
    /// visible window and either is a known workload or fills the screen.
    /// Returns its id and the handle of its main window.
    pub fn detect_fullscreen_game(
        snapshot: &Vec<ProcessEntry>,
        windows: &Vec<WindowInfo>,
        own_pid: u32,
        screen_width: i32,
        screen_height: i32,
    ) -> (result: Option<(u32, usize)>)
        ensures
            detection(snapshot@, windows@, own_pid, screen_width, screen_height, result),
    {
        let excluded = Self::excluded_processes();
        let known = Self::known_games();
        let mut i: usize = 0;
        while i < snapshot.len()
            invariant
                i <= snapshot@.len(),
                excluded.deep_view() == excluded_processes(),
                known.deep_view() == known_games(),
                forall|j: int|
                    0 <= j < i ==> !qualifies(
                        #[trigger] snapshot@[j],
                        windows@,
                        own_pid,
                        screen_width,
                        screen_height,
                    ),
            decreases snapshot@.len() - i,
        {
            let entry = &snapshot[i];
            let ghost e = snapshot@[i as int];
            if entry.pid != own_pid {
                let name = ProcessService::extract_process_name(entry.exe_file.as_slice());
                if !in_list(&excluded, name.as_slice()) {
                    let is_known = in_list(&known, name.as_slice());
                    match Self::get_main_window(entry.pid, windows) {
                        Some(k) => {
                            if is_known || Self::is_fullscreen(
                                &windows[k],
                                screen_width,
                                screen_height,
                            ) {
                                assert(detected_in(
                                    e,
                                    windows@,
                                    own_pid,
                                    screen_width,
                                    screen_height,
                                    k as int,
                                ));
                                return Some((entry.pid, windows[k].handle));
                            }
                            assert forall|k2: int|
                                !detected_in(
                                    e,
                                    windows@,
                                    own_pid,
                                    screen_width,
                                    screen_height,
                                    k2,
                                ) by {
                                if is_main_window(windows@, e.pid, k2) {
                                    assert(k2 == k as int);
                                }
                            }
                        },
                        None => {},
                    }
                }
            }
            assert(!qualifies(e, windows@, own_pid, screen_width, screen_height));
            i += 1;
        }
        None
    }

    /// The request that brings a window to the foreground.
    pub fn focus_window(window: usize) -> (e: Effect)
        ensures
            e@ == (EffectView::FocusWindow { window }),
    {
        Effect::FocusWindow { window }
    }

    /// Whether a chassis report describes a desktop: some white-space
    /// separated token of it is a desktop chassis code. A report that could
    /// not be obtained describes a laptop.
    pub fn is_desktop(report: Option<&str>) -> (r: bool)
        ensures
            r == match report {
                Some(text) => reports_desktop(whitespace_tokens(text@)),
                None => false,
            },
    {
        match report {
            Some(text) => {
                let tokens = split_whitespace(text);
                Self::has_desktop_code(&tokens)
            },
            None => false,
        }
    }

    /// Whether one of `tokens` is a desktop chassis code.
    pub fn has_desktop_code(tokens: &Vec<String>) -> (r: bool)
        ensures
            r == reports_desktop(tokens.deep_view()),
    {
        let codes = Self::desktop_chassis();
        let mut i: usize = 0;
        while i < codes.len()
            invariant
                i <= codes@.len(),
                codes.deep_view() == desktop_chassis(),
                forall|a: int, b: int|
                    0 <= a < i && 0 <= b < tokens@.len() ==> #[trigger] desktop_chassis()[a]
                        != #[trigger] tokens.deep_view()[b],
            decreases codes@.len() - i,
        {
            let mut j: usize = 0;
            while j < tokens.len()
                invariant
                    i < codes@.len(),
                    j <= tokens@.len(),
                    codes.deep_view() == desktop_chassis(),
                    forall|b: int|
                        0 <= b < j ==> desktop_chassis()[i as int] != #[trigger] tokens.deep_view()[b],
                decreases tokens@.len() - j,
            {
                if same_text(codes[i], tokens[j].as_str()) {
                    assert(desktop_chassis()[i as int] == tokens.deep_view()[j as int]);
                    return true;
                }
                j += 1;
            }
            i += 1;
        }
        false
    }
}

} // verus!
