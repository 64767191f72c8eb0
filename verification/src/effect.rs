//! The effects a provider asks its caller to carry out on the host.
//!
//! A provider never touches the host itself. It returns an ordered list of
//! `Effect` values; the caller performs them, best effort, in that order.
use vstd::prelude::*;

verus! {

/// Root of the hierarchical configuration store.
#[derive(Clone, Copy, Debug, PartialEq, Eq, Structural)]
pub enum Hive {
    LocalMachine,
    CurrentUser,
}

/// Scheduling priority a process can be moved to.
#[derive(Clone, Copy, Debug, PartialEq, Eq, Structural)]
pub enum PriorityClass {
    Idle,
    Normal,
}

/// One request to the host.
#[derive(Clone, Debug, PartialEq, Eq)]
pub enum Effect {
    /// Write an integer value, creating the path if it is absent.
    SetDword { hive: Hive, path: String, name: String, value: u32 },
    /// Write a text value, creating the path if it is absent.
    SetText { hive: Hive, path: String, name: String, text: String },
    /// Remove a value; removing an absent value does nothing.
    DeleteValue { hive: Hive, path: String, name: String },
    /// Start an external tool with the given arguments. With `wait` the
    /// caller waits for it to finish, otherwise it only launches it.
    Run { program: String, args: Vec<String>, wait: bool },
    /// Make a power scheme the active one.
    ActivateScheme { scheme: u128 },
    /// Write one plugged-in sub-value of a power scheme.
    WriteAcValue { scheme: u128, subgroup: u128, setting: u128, value: u32 },
    /// Ask a running service to stop.
    StopService { name: String },
    /// Start a stopped service.
    StartService { name: String },
    SuspendProcess { pid: u32 },
    ResumeProcess { pid: u32 },
    SetPriority { pid: u32, class: PriorityClass },
    /// Release the working set of a process.
    TrimWorkingSet { pid: u32 },
    /// Bring a window to the foreground.
    FocusWindow { window: usize },
}

/// Mathematical value of an `Effect`.
pub enum EffectView {
    SetDword { hive: Hive, path: Seq<char>, name: Seq<char>, value: u32 },
    SetText { hive: Hive, path: Seq<char>, name: Seq<char>, text: Seq<char> },
    DeleteValue { hive: Hive, path: Seq<char>, name: Seq<char> },
    Run { program: Seq<char>, args: Seq<Seq<char>>, wait: bool },
    ActivateScheme { scheme: u128 },
    WriteAcValue { scheme: u128, subgroup: u128, setting: u128, value: u32 },
    StopService { name: Seq<char> },
    StartService { name: Seq<char> },
    SuspendProcess { pid: u32 },
    ResumeProcess { pid: u32 },
    SetPriority { pid: u32, class: PriorityClass },
    TrimWorkingSet { pid: u32 },
    FocusWindow { window: usize },
}

impl View for Effect {
    type V = EffectView;

    open spec fn view(&self) -> EffectView {
        match *self {
            Effect::SetDword { hive, path, name, value } => EffectView::SetDword {
                hive,
                path: path@,
                name: name@,
                value,
            },
            Effect::SetText { hive, path, name, text } => EffectView::SetText {
                hive,
                path: path@,
                name: name@,
                text: text@,
            },
            Effect::DeleteValue { hive, path, name } => EffectView::DeleteValue {
                hive,
                path: path@,
                name: name@,
            },
            Effect::Run { program, args, wait } => EffectView::Run {
                program: program@,
                args: args.deep_view(),
                wait,
            },
            Effect::ActivateScheme { scheme } => EffectView::ActivateScheme { scheme },
            Effect::WriteAcValue { scheme, subgroup, setting, value } => EffectView::WriteAcValue {
                scheme,
                subgroup,
                setting,
                value,
            },
            Effect::StopService { name } => EffectView::StopService { name: name@ },
            Effect::StartService { name } => EffectView::StartService { name: name@ },
            Effect::SuspendProcess { pid } => EffectView::SuspendProcess { pid },
            Effect::ResumeProcess { pid } => EffectView::ResumeProcess { pid },
            Effect::SetPriority { pid, class } => EffectView::SetPriority { pid, class },
            Effect::TrimWorkingSet { pid } => EffectView::TrimWorkingSet { pid },
            Effect::FocusWindow { window } => EffectView::FocusWindow { window },
        }
    }
}

impl DeepView for Effect {
    type V = EffectView;

    open spec fn deep_view(&self) -> EffectView {
        self@
    }
}

/// The effect that writes an integer value.
pub open spec fn set_dword(hive: Hive, path: Seq<char>, name: Seq<char>, value: u32) -> EffectView {
    EffectView::SetDword { hive, path, name, value }
}

/// The effect that writes a text value.
pub open spec fn set_text(hive: Hive, path: Seq<char>, name: Seq<char>, text: Seq<char>) -> EffectView {
    EffectView::SetText { hive, path, name, text }
}

/// The effect that removes a value.
pub open spec fn delete_value(hive: Hive, path: Seq<char>, name: Seq<char>) -> EffectView {
    EffectView::DeleteValue { hive, path, name }
}

/// The effect that puts an integer value back as it was captured: written
/// back when it was present, removed when it was absent.
pub open spec fn restore_dword(hive: Hive, path: Seq<char>, name: Seq<char>, original: Option<u32>)
    -> EffectView {
    match original {
        Some(value) => set_dword(hive, path, name, value),
        None => delete_value(hive, path, name),
    }
}

/// The effect that puts a text value back as it was captured.
pub open spec fn restore_text(
    hive: Hive,
    path: Seq<char>,
    name: Seq<char>,
    original: Option<Seq<char>>,
) -> EffectView {
    match original {
        Some(text) => set_text(hive, path, name, text),
        None => delete_value(hive, path, name),
    }
}

/// The effect that runs a tool and waits for it.
pub open spec fn run_tool(program: Seq<char>, args: Seq<Seq<char>>) -> EffectView {
    EffectView::Run { program, args, wait: true }
}

impl Effect {
    pub fn set_dword(hive: Hive, path: &str, name: &str, value: u32) -> (e: Effect)
        ensures
            e@ == set_dword(hive, path@, name@, value),
    {
        Effect::SetDword { hive, path: path.to_owned(), name: name.to_owned(), value }
    }

    pub fn set_text(hive: Hive, path: &str, name: &str, text: &str) -> (e: Effect)
        ensures
            e@ == set_text(hive, path@, name@, text@),
    {
        Effect::SetText { hive, path: path.to_owned(), name: name.to_owned(), text: text.to_owned() }
    }

    pub fn delete_value(hive: Hive, path: &str, name: &str) -> (e: Effect)
        ensures
            e@ == delete_value(hive, path@, name@),
    {
        Effect::DeleteValue { hive, path: path.to_owned(), name: name.to_owned() }
    }

    pub fn restore_dword(hive: Hive, path: &str, name: &str, original: Option<u32>) -> (e: Effect)
        ensures
            e@ == restore_dword(hive, path@, name@, original),
    {
        match original {
            Some(value) => Effect::set_dword(hive, path, name, value),
            None => Effect::delete_value(hive, path, name),
        }
    }

    pub fn restore_text(hive: Hive, path: &str, name: &str, original: &Option<String>) -> (e: Effect)
        ensures
            e@ == restore_text(hive, path@, name@, original.deep_view()),
    {
        match original {
            Some(text) => Effect::set_text(hive, path, name, text.as_str()),
            None => Effect::delete_value(hive, path, name),
        }
    }

    /// Runs `program` with `args` and waits for it to finish.
    pub fn run_tool(program: &str, args: Vec<&'static str>) -> (e: Effect)
        ensures
            e@ == run_tool(program@, args.deep_view()),
    {
        let mut owned: Vec<String> = Vec::new();
        let mut i: usize = 0;
        assert(owned.deep_view() =~= args.deep_view().subrange(0, 0));
        while i < args.len()
            invariant
                i <= args@.len(),
                owned.deep_view() == args.deep_view().subrange(0, i as int),
            decreases args@.len() - i,
        {
            push_deep(&mut owned, args[i].to_owned());
            assert(owned.deep_view() =~= args.deep_view().subrange(0, i as int + 1));
            i += 1;
        }
        assert(args.deep_view().subrange(0, args@.len() as int) =~= args.deep_view());
        Effect::Run { program: program.to_owned(), args: owned, wait: true }
    }
}

/// Appends one element, stated over deep views.
pub fn push_deep<T: DeepView>(v: &mut Vec<T>, x: T)
    ensures
        final(v).deep_view() == old(v).deep_view().push(x.deep_view()),
{
    v.push(x);
    assert(v.deep_view() =~= old(v).deep_view().push(x.deep_view()));
}

/// Appends a whole list, stated over deep views.
pub fn append_deep<T: DeepView>(v: &mut Vec<T>, w: Vec<T>)
    ensures
        final(v).deep_view() == old(v).deep_view() + w.deep_view(),
{
    let mut w = w;
    let ghost tail = w.deep_view();
    v.append(&mut w);
    assert(v.deep_view() =~= old(v).deep_view() + tail);
}

} // verus!
