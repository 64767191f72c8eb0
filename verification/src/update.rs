//! What the self-updater decides: whether a release is newer, which asset
//! to fetch, and the script that swaps the executables.
use vstd::prelude::*;
use vstd::string::{StrSliceExecFns, StringExecFns};
use crate::text::{chars_of, decimal, ends_with, is_suffix, push_decimal, same_text};

verus! {

/// One downloadable file of a release.
#[derive(Clone, Debug, PartialEq, Eq)]
pub struct GitHubAsset {
    pub name: String,
    pub browser_download_url: String,
}

/// A published release.
#[derive(Clone, Debug, PartialEq, Eq)]
pub struct GitHubRelease {
    pub tag_name: String,
    pub assets: Vec<GitHubAsset>,
}

/// The version of this program.
pub open spec fn current_version() -> Seq<char> {
    "1.0.0"@
}

/// Number of leading `v` characters of `tag`, counted from `from`.
pub open spec fn prefix_end(tag: Seq<char>, from: int) -> int
    decreases tag.len() - from,
{
    if from < 0 || from >= tag.len() || tag[from] != 'v' {
        from
    } else {
        prefix_end(tag, from + 1)
    }
}

/// `tag` without its leading `v` characters.
pub open spec fn version_of(tag: Seq<char>) -> Seq<char> {
    tag.subrange(prefix_end(tag, 0), tag.len() as int)
}

/// A release is offered when its version differs from this program's.
pub open spec fn is_newer(tag: Seq<char>) -> bool {
    version_of(tag) != current_version()
}

/// `i` is the first asset whose name ends in `.exe`.
pub open spec fn is_installer(assets: Seq<GitHubAsset>, i: int) -> bool {
    &&& 0 <= i < assets.len()
    &&& is_suffix(assets[i].name@, ".exe"@)
    &&& forall|j: int| 0 <= j < i ==> !is_suffix(#[trigger] assets[j].name@, ".exe"@)
}

/// The question put to the user.
pub open spec fn prompt(tag: Seq<char>) -> Seq<char> {
    "A new version ("@ + tag + ") is available!\n\nDo you want to update now?"@
}

/// The script that waits for process `pid` to end, keeps the running
/// executable as a backup, moves the downloaded one in its place and
/// starts it.
pub open spec fn script(pid: nat, current: Seq<char>, update: Seq<char>) -> Seq<char> {
    "@echo off\r\ntimeout /t 2 /nobreak\r\n:loop\r\ntasklist | find \""@ + decimal(pid)
        + "\" >nul\r\nif not errorlevel 1 (\r\n    timeout /t 1 /nobreak\r\n    goto loop\r\n)\r\nif exist \""@
        + current + ".bak\" del \""@ + current + ".bak\"\r\nmove \""@ + current + "\" \""@ + current
        + ".bak\"\r\nmove \""@ + update + "\" \""@ + current + "\"\r\nstart \"\" \""@ + current
        + "\"\r\ndel \"%~f0\"\r\n"@
}

pub struct UpdateService;

impl UpdateService {
    /// Whether the release tagged `tag_name` is to be offered.
    pub fn is_update_available(tag_name: &str) -> (r: bool)
        ensures
            r == is_newer(tag_name@),
    {
        let chars = chars_of(tag_name);
        let mut start: usize = 0;
        while start < chars.len() && chars[start] == 'v'
            invariant
                start <= chars@.len(),
                chars@ == tag_name@,
                prefix_end(chars@, 0) == prefix_end(chars@, start as int),
            decreases chars@.len() - start,
        {
            start += 1;
        }
        let version = tag_name.substring_char(start, chars.len());
        !same_text(version, "1.0.0")
    }

    /// What `check_for_updates` answers: the question for the user when the
    /// latest release was obtained and is newer, otherwise nothing.
    pub fn check_for_updates(latest: Option<&GitHubRelease>) -> (question: Option<String>)
        ensures
            question.deep_view() == match latest {
                Some(release) => if is_newer(release.tag_name@) {
                    Some(prompt(release.tag_name@))
                } else {
                    None
                },
                None => None,
            },
    {
        match latest {
            Some(release) => {
                if Self::is_update_available(release.tag_name.as_str()) {
                    let mut text = "A new version (".to_owned();
                    text.append(release.tag_name.as_str());
                    text.append(") is available!\n\nDo you want to update now?");
                    Some(text)
                } else {
                    None
                }
            },
            None => None,
        }
    }

    /// The asset to install: the first whose name ends in `.exe`.
    pub fn find_installer(release: &GitHubRelease) -> (r: Option<usize>)
        ensures
            match r {
                Some(i) => is_installer(release.assets@, i as int),
                None => forall|j: int|
                    0 <= j < release.assets@.len() ==> !is_suffix(
                        #[trigger] release.assets@[j].name@,
                        ".exe"@,
                    ),
            },
    {
        let ext = chars_of(".exe");
        let mut i: usize = 0;
        while i < release.assets.len()
            invariant
                i <= release.assets@.len(),
                ext@ == ".exe"@,
                forall|j: int| 0 <= j < i ==> !is_suffix(#[trigger] release.assets@[j].name@, ".exe"@),
            decreases release.assets@.len() - i,
        {
            let name = chars_of(release.assets[i].name.as_str());
            if ends_with(&name, &ext) {
                return Some(i);
            }
            i += 1;
        }
        None
    }

    /// The script that replaces the running executable `current_exe` by the
    /// downloaded `update_exe` once process `pid` has ended.
    pub fn update_script(pid: u32, current_exe: &str, update_exe: &str) -> (text: String)
        ensures
            text@ == script(pid as nat, current_exe@, update_exe@),
    {
        let mut text = "@echo off\r\ntimeout /t 2 /nobreak\r\n:loop\r\ntasklist | find \"".to_owned();
        push_decimal(&mut text, pid);
        text.append(
            "\" >nul\r\nif not errorlevel 1 (\r\n    timeout /t 1 /nobreak\r\n    goto loop\r\n)\r\nif exist \"",
        );
        text.append(current_exe);
        text.append(".bak\" del \"");
        text.append(current_exe);
        text.append(".bak\"\r\nmove \"");
        text.append(current_exe);
        text.append("\" \"");
        text.append(current_exe);
        text.append(".bak\"\r\nmove \"");
        text.append(update_exe);
        text.append("\" \"");
        text.append(current_exe);
        text.append("\"\r\nstart \"\" \"");
        text.append(current_exe);
        text.append("\"\r\ndel \"%~f0\"\r\n");
        text
    }
}

} // verus!
