//! Process-lifecycle provider: which processes to suspend, resume or
//! terminate, decided from a snapshot of the process table.
use vstd::prelude::*;
use vstd::slice::slice_subrange;
use vstd::string::StringExecFns;
use vstd::utf8::valid_utf8;
use crate::effect::{push_deep, Effect, EffectView};
use crate::text::{
    bytes_match, chars_of, ends_with, eq_ignore_ascii_case, in_list, is_suffix, is_utf8,
    lowercase, matches_any, to_lowercase,
};

verus! {

/// One row of a process snapshot: the process id and the image file name as
/// the host reports it, a byte buffer that may be NUL-terminated.
#[derive(Clone, Debug, PartialEq, Eq)]
pub struct ProcessEntry {
    pub pid: u32,
    pub exe_file: Vec<u8>,
}

/// Position of the first NUL byte at or after `from`, or the length of `raw`.
pub open spec fn nul_position(raw: Seq<u8>, from: int) -> int
    decreases raw.len() - from,
{
    if from < 0 || from >= raw.len() || raw[from] == 0 {
        from
    } else {
        nul_position(raw, from + 1)
    }
}

/// The bytes of `raw` before its first NUL byte.
pub open spec fn c_string(raw: Seq<u8>) -> Seq<u8> {
    raw.subrange(0, nul_position(raw, 0))
}

/// The bytes `.exe`.
pub open spec fn exe_lower() -> Seq<u8> {
    seq![46u8, 101u8, 120u8, 101u8]
}

/// The bytes `.EXE`.
pub open spec fn exe_upper() -> Seq<u8> {
    seq![46u8, 69u8, 88u8, 69u8]
}

/// `name` without one trailing `.exe` or `.EXE`.
pub open spec fn strip_exe(name: Seq<u8>) -> Seq<u8> {
    if is_suffix(name, exe_lower()) || is_suffix(name, exe_upper()) {
        name.subrange(0, name.len() - 4)
    } else {
        name
    }
}

/// The process name of an image file name: the bytes before the first NUL,
/// taken as empty unless they are well-formed UTF-8, without the executable
/// extension.
pub open spec fn process_name(raw: Seq<u8>) -> Seq<u8> {
    if valid_utf8(c_string(raw)) {
        strip_exe(c_string(raw))
    } else {
        Seq::empty()
    }
}

/// Ids of the snapshot rows whose process name matches one of `targets`, in
/// snapshot order.
pub open spec fn matching_pids(targets: Seq<Seq<char>>, snapshot: Seq<ProcessEntry>) -> Seq<u32>
    decreases snapshot.len(),
{
    if snapshot.len() == 0 {
        Seq::empty()
    } else {
        let rest = matching_pids(targets, snapshot.drop_last());
        if matches_any(targets, process_name(snapshot.last().exe_file@)) {
            rest.push(snapshot.last().pid)
        } else {
            rest
        }
    }
}

/// One suspend request per id, in order.
pub open spec fn suspend_effects(pids: Seq<u32>) -> Seq<EffectView> {
    Seq::new(pids.len(), |i: int| EffectView::SuspendProcess { pid: pids[i] })
}

/// One resume request per id, in order.
pub open spec fn resume_effects(pids: Seq<u32>) -> Seq<EffectView> {
    Seq::new(pids.len(), |i: int| EffectView::ResumeProcess { pid: pids[i] })
}

/// The image name handed to the termination tool: `name` itself when its
/// lower-case form ends in `.exe`, otherwise `name` with `.exe` appended.
pub open spec fn image_name(name: Seq<char>) -> Seq<char> {
    image_name_given(name, lowercase(name))
}

/// `image_name`, with the lower-case form of the name given.
pub open spec fn image_name_given(name: Seq<char>, lowered: Seq<char>) -> Seq<char> {
    if is_suffix(lowered, ".exe"@) {
        name
    } else {
        name + ".exe"@
    }
}

/// Arguments of one forced termination of all of `names`: `/F`, then `/IM`
/// and the image name for each.
pub open spec fn kill_args(names: Seq<Seq<char>>) -> Seq<Seq<char>>
    decreases names.len(),
{
    if names.len() == 0 {
        seq!["/F"@]
    } else {
        kill_args(names.drop_last()).push("/IM"@).push(image_name(names.last()))
    }
}

/// The termination request for `names`.
pub open spec fn kill_command(names: Seq<Seq<char>>) -> EffectView {
    EffectView::Run { program: "taskkill"@, args: kill_args(names), wait: false }
}

/// Terminating `names`: nothing for an empty list, otherwise the same
/// request issued twice.
pub open spec fn kill_effects(names: Seq<Seq<char>>) -> Seq<EffectView> {
    if names.len() == 0 {
        Seq::empty()
    } else {
        seq![kill_command(names), kill_command(names)]
    }
}

/// Whether some row of the snapshot is a process named `explorer`.
pub open spec fn shell_running(snapshot: Seq<ProcessEntry>) -> bool {
    exists|i: int|
        0 <= i < snapshot.len() && bytes_match(
            process_name(#[trigger] snapshot[i].exe_file@),
            vstd::utf8::encode_utf8("explorer"@),
        )
}

/// The request that launches the shell.
pub open spec fn launch_shell() -> EffectView {
    EffectView::Run { program: "explorer.exe"@, args: Seq::empty(), wait: false }
}

/// Restarting the shell: launch it only when a snapshot was taken and shows
/// no shell process.
pub open spec fn restart_effects(snapshot: Option<Seq<ProcessEntry>>) -> Seq<EffectView> {
    match snapshot {
        Some(rows) => if shell_running(rows) {
            Seq::empty()
        } else {
            seq![launch_shell()]
        },
        None => Seq::empty(),
    }
}

/// The ids among `effects` whose suspend request succeeded, in order.
pub open spec fn suspended(effects: Seq<EffectView>, outcomes: Seq<bool>) -> Seq<u32>
    decreases effects.len(),
{
    if effects.len() == 0 {
        Seq::empty()
    } else {
        let rest = suspended(effects.drop_last(), outcomes);
        match effects.last() {
            EffectView::SuspendProcess { pid } => if effects.len() <= outcomes.len()
                && outcomes[effects.len() - 1] {
                rest.push(pid)
            } else {
                rest
            },
            _ => rest,
        }
    }
}

pub struct ProcessService;

impl ProcessService {
    /// The process name held in an image-file-name buffer.
    pub fn extract_process_name(raw: &[u8]) -> (name: Vec<u8>)
        ensures
            name@ == process_name(raw@),
    {
        let mut end: usize = 0;
        while end < raw.len() && raw[end] != 0
            invariant
                end <= raw@.len(),
                nul_position(raw@, 0) == nul_position(raw@, end as int),
            decreases raw@.len() - end,
        {
            end += 1;
        }
        let text = slice_subrange(raw, 0, end);
        assert(text@ == c_string(raw@));
        let mut name: Vec<u8> = Vec::new();
        if !is_utf8(text) {
            return name;
        }
        let mut keep: usize = text.len();
        if keep >= 4 && text[keep - 4] == 46 {
            let lower = text[keep - 3] == 101 && text[keep - 2] == 120 && text[keep - 1] == 101;
            let upper = text[keep - 3] == 69 && text[keep - 2] == 88 && text[keep - 1] == 69;
            if lower || upper {
                keep = keep - 4;
            }
            proof {
                let tail = text@.subrange(text@.len() - 4, text@.len() as int);
                assert(tail[0] == text@[text@.len() - 4]);
                assert(tail[1] == text@[text@.len() - 3]);
                assert(tail[2] == text@[text@.len() - 2]);
                assert(tail[3] == text@[text@.len() - 1]);
                assert(lower ==> tail =~= exe_lower());
                assert(upper ==> tail =~= exe_upper());
                assert(lower == is_suffix(text@, exe_lower()));
                assert(upper == is_suffix(text@, exe_upper()));
            }
        } else {
            proof {
                if text@.len() >= 4 {
                    let tail = text@.subrange(text@.len() - 4, text@.len() as int);
                    assert(tail[0] == text@[text@.len() - 4]);
                    assert(exe_lower()[0] == 46 && exe_upper()[0] == 46);
                }
            }
        }
        let mut i: usize = 0;
        while i < keep
            invariant
                keep <= text@.len(),
                i <= keep,
                name@ == text@.subrange(0, i as int),
            decreases keep - i,
        {
            name.push(text[i]);
            assert(name@ =~= text@.subrange(0, i as int + 1));
            i += 1;
        }
        name
    }

    /// Ids of the processes whose name matches one of `target_names`,
    /// ignoring ASCII case, in snapshot order.
    pub fn matching(target_names: &Vec<&'static str>, snapshot: &Vec<ProcessEntry>) -> (pids: Vec<
        u32,
    >)
        ensures
            pids@ == matching_pids(target_names.deep_view(), snapshot@),
    {
        let mut pids: Vec<u32> = Vec::new();
        let mut i: usize = 0;
        while i < snapshot.len()
            invariant
                i <= snapshot@.len(),
                pids@ == matching_pids(target_names.deep_view(), snapshot@.subrange(0, i as int)),
            decreases snapshot@.len() - i,
        {
            let name = Self::extract_process_name(snapshot[i].exe_file.as_slice());
            proof {
                let upto = snapshot@.subrange(0, i as int + 1);
                assert(upto.drop_last() =~= snapshot@.subrange(0, i as int));
                assert(upto.last() == snapshot@[i as int]);
            }
            if in_list(target_names, name.as_slice()) {
                pids.push(snapshot[i].pid);
            }
            i += 1;
        }
        assert(snapshot@.subrange(0, snapshot@.len() as int) =~= snapshot@);
        pids
    }

    /// Suspend requests for every process named in `target_names`, one pass
    /// over the snapshot.
    pub fn suspend_processes(target_names: &Vec<&'static str>, snapshot: &Vec<ProcessEntry>) -> (effects:
        Vec<Effect>)
        ensures
            effects.deep_view() == suspend_effects(
                matching_pids(target_names.deep_view(), snapshot@),
            ),
    {
        let pids = Self::matching(target_names, snapshot);
        let mut effects: Vec<Effect> = Vec::new();
        let mut i: usize = 0;
        while i < pids.len()
            invariant
                i <= pids@.len(),
                effects.deep_view() == suspend_effects(pids@.subrange(0, i as int)),
            decreases pids@.len() - i,
        {
            push_deep(&mut effects, Effect::SuspendProcess { pid: pids[i] });
            assert(effects.deep_view() =~= suspend_effects(pids@.subrange(0, i as int + 1)));
            i += 1;
        }
        assert(pids@.subrange(0, pids@.len() as int) =~= pids@);
        effects
    }

    /// The ids that were suspended: those of the suspend requests in
    /// `effects` whose outcome, at the same position in `outcomes`, is a
    /// success. A request without a reported outcome counts as failed.
    pub fn suspended_pids(effects: &Vec<Effect>, outcomes: &Vec<bool>) -> (pids: Vec<u32>)
        ensures
            pids@ == suspended(effects.deep_view(), outcomes@),
    {
        let mut pids: Vec<u32> = Vec::new();
        let mut i: usize = 0;
        while i < effects.len()
            invariant
                i <= effects@.len(),
                pids@ == suspended(effects.deep_view().subrange(0, i as int), outcomes@),
            decreases effects@.len() - i,
        {
            proof {
                let upto = effects.deep_view().subrange(0, i as int + 1);
                assert(upto.drop_last() =~= effects.deep_view().subrange(0, i as int));
                assert(upto.last() == effects@[i as int]@);
            }
            match &effects[i] {
                Effect::SuspendProcess { pid } => {
                    if i < outcomes.len() && outcomes[i] {
                        pids.push(*pid);
                    }
                },
                _ => {},
            }
            i += 1;
        }
        assert(effects.deep_view().subrange(0, effects@.len() as int) =~= effects.deep_view());
        pids
    }

    /// Resume requests for every process named in `target_names`.
    pub fn resume_processes(target_names: &Vec<&'static str>, snapshot: &Vec<ProcessEntry>) -> (effects:
        Vec<Effect>)
        ensures
            effects.deep_view() == resume_effects(
                matching_pids(target_names.deep_view(), snapshot@),
            ),
    {
        let pids = Self::matching(target_names, snapshot);
        Self::resume_processes_by_pid(&pids)
    }

    /// Resume requests for exactly the given ids, in order.
    pub fn resume_processes_by_pid(pids: &Vec<u32>) -> (effects: Vec<Effect>)
        ensures
            effects.deep_view() == resume_effects(pids@),
    {
        let mut effects: Vec<Effect> = Vec::new();
        let mut i: usize = 0;
        while i < pids.len()
            invariant
                i <= pids@.len(),
                effects.deep_view() == resume_effects(pids@.subrange(0, i as int)),
            decreases pids@.len() - i,
        {
            push_deep(&mut effects, Effect::ResumeProcess { pid: pids[i] });
            assert(effects.deep_view() =~= resume_effects(pids@.subrange(0, i as int + 1)));
            i += 1;
        }
        assert(pids@.subrange(0, pids@.len() as int) =~= pids@);
        effects
    }

    /// The image name for `name`, given the lower-case form of `name`.
    pub fn image_name_from(name: &str, lowered: &str) -> (image: String)
        ensures
            image@ == image_name_given(name@, lowered@),
    {
        let low = chars_of(lowered);
        let ext = chars_of(".exe");
        if ends_with(&low, &ext) {
            name.to_owned()
        } else {
            let mut image = name.to_owned();
            image.append(".exe");
            image
        }
    }

    /// The image name handed to the termination tool for `name`.
    pub fn image_name(name: &str) -> (image: String)
        ensures
            image@ == image_name(name@),
    {
        let lowered = to_lowercase(name);
        Self::image_name_from(name, lowered.as_str())
    }

    /// The request that force-terminates all of `names` at once.
    fn kill_request(names: &Vec<&'static str>) -> (e: Effect)
        ensures
            e@ == kill_command(names.deep_view()),
    {
        let mut args: Vec<String> = Vec::new();
        push_deep(&mut args, "/F".to_owned());
        let mut i: usize = 0;
        assert(names.deep_view().subrange(0, 0) =~= Seq::<Seq<char>>::empty());
        assert(args.deep_view() =~= seq!["/F"@]);
        while i < names.len()
            invariant
                i <= names@.len(),
                args.deep_view() == kill_args(names.deep_view().subrange(0, i as int)),
            decreases names@.len() - i,
        {
            proof {
                let upto = names.deep_view().subrange(0, i as int + 1);
                assert(upto.drop_last() =~= names.deep_view().subrange(0, i as int));
                assert(upto.last() == names@[i as int]@);
            }
            push_deep(&mut args, "/IM".to_owned());
            push_deep(&mut args, Self::image_name(names[i]));
            i += 1;
        }
        assert(names.deep_view().subrange(0, names@.len() as int) =~= names.deep_view());
        Effect::Run { program: "taskkill".to_owned(), args, wait: false }
    }

    /// Force-terminates every process named in `target_names`. The request
    /// is issued twice: the first may be lost, or the target relaunched.
    pub fn kill_processes(target_names: &Vec<&'static str>) -> (effects: Vec<Effect>)
        ensures
            effects.deep_view() == kill_effects(target_names.deep_view()),
    {
        let mut effects: Vec<Effect> = Vec::new();
        if target_names.len() == 0 {
            assert(effects.deep_view() =~= Seq::<EffectView>::empty());
            return effects;
        }
        push_deep(&mut effects, Self::kill_request(target_names));
        push_deep(&mut effects, Self::kill_request(target_names));
        assert(effects.deep_view() =~= kill_effects(target_names.deep_view()));
        effects
    }

    /// Force-terminates the processes named `name`, twice.
    pub fn kill_process(name: &'static str) -> (effects: Vec<Effect>)
        ensures
            effects.deep_view() == kill_effects(seq![name@]),
    {
        let names = vec![name];
        assert(names.deep_view() =~= seq![name@]);
        Self::kill_processes(&names)
    }

    /// Whether the snapshot shows a running shell.
    pub fn is_shell_running(snapshot: &Vec<ProcessEntry>) -> (r: bool)
        ensures
            r == shell_running(snapshot@),
    {
        let mut i: usize = 0;
        while i < snapshot.len()
            invariant
                i <= snapshot@.len(),
                forall|j: int|
                    0 <= j < i ==> !bytes_match(
                        process_name(#[trigger] snapshot@[j].exe_file@),
                        vstd::utf8::encode_utf8("explorer"@),
                    ),
            decreases snapshot@.len() - i,
        {
            let name = Self::extract_process_name(snapshot[i].exe_file.as_slice());
            if eq_ignore_ascii_case(name.as_slice(), "explorer".as_bytes()) {
                return true;
            }
            i += 1;
        }
        false
    }

    /// Launches the shell unless one is already running. Without a snapshot
    /// nothing is launched.
    pub fn restart_explorer(snapshot: Option<&Vec<ProcessEntry>>) -> (effects: Vec<Effect>)
        ensures
            effects.deep_view() == restart_effects(
                match snapshot {
                    Some(rows) => Some(rows@),
                    None => None,
                },
            ),
    {
        let mut effects: Vec<Effect> = Vec::new();
        assert(effects.deep_view() =~= Seq::<EffectView>::empty());
        match snapshot {
            Some(rows) => {
                if !Self::is_shell_running(rows) {
                    let args: Vec<String> = Vec::new();
                    assert(args.deep_view() =~= Seq::<Seq<char>>::empty());
                    push_deep(
                        &mut effects,
                        Effect::Run { program: "explorer.exe".to_owned(), args, wait: false },
                    );
                    assert(effects.deep_view() =~= seq![launch_shell()]);
                }
            },
            None => {},
        }
        effects
    }
}

/// Suspends and resumes single processes by id.
pub struct ProcessUtils;

impl ProcessUtils {
    /// The request that suspends process `pid`.
    pub fn suspend_process(pid: u32) -> (e: Effect)
        ensures
            e@ == (EffectView::SuspendProcess { pid }),
    {
        Effect::SuspendProcess { pid }
    }

    /// The request that resumes process `pid`.
    pub fn resume_process(pid: u32) -> (e: Effect)
        ensures
            e@ == (EffectView::ResumeProcess { pid }),
    {
        Effect::ResumeProcess { pid }
    }
}

} // verus!
