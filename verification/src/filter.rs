//! The eligibility filter.
//!
//! Given the base name of a window's owning executable, the filter decides
//! whether the window may be surfaced to the capture subsystem. The rules
//! apply in a fixed order: a fixed set of OS-internal process names is always
//! excluded; the capturing application's own binary is always excluded,
//! independent of capture mode; and only in game-capture mode a configurable
//! blacklist of known non-capturable applications is applied.

use vstd::prelude::*;
use vstd::string::StringExecFns;

verus! {

/// The filter's verdict on one executable name.
#[derive(Clone, Copy, Debug, PartialEq, Eq, Structural)]
pub enum FilterDecision {
    /// The window may be surfaced to the capture subsystem.
    Eligible,
    /// The executable is one of the fixed OS-internal process names.
    ExcludedSystem,
    /// The executable is the capturing application's own binary.
    ExcludedSelf,
    /// Game-capture mode only: the executable is on the blacklist.
    ExcludedBlacklist,
}

/// The fixed set of OS-internal process names that own desktop plumbing
/// windows and are never eligible for capture.
pub open spec fn spec_system_process_names() -> Seq<Seq<char>> {
    seq![
        "explorer.exe"@,
        "ApplicationFrameHost.exe"@,
        "TextInputHost.exe"@,
        "SearchHost.exe"@,
        "StartMenuExperienceHost.exe"@,
        "ShellExperienceHost.exe"@,
    ]
}

/// The capturing application's own binary, never captured in any mode.
pub open spec fn self_process_name() -> Seq<char> {
    "obs64.exe"@
}

/// Whether one of the given names reads as the given executable name.
pub open spec fn contains_name(names: Seq<String>, exe: Seq<char>) -> bool {
    exists|i: int| 0 <= i < names.len() && names[i]@ == exe
}

/// The filter, in rule order: system names, then the capturing application
/// itself, then (in game-capture mode only) the configurable blacklist.
pub open spec fn spec_filter(exe: Seq<char>, is_game: bool, blacklist: Seq<String>) -> FilterDecision {
    if spec_system_process_names().contains(exe) {
        FilterDecision::ExcludedSystem
    } else if exe == self_process_name() {
        FilterDecision::ExcludedSelf
    } else if is_game && contains_name(blacklist, exe) {
        FilterDecision::ExcludedBlacklist
    } else {
        FilterDecision::Eligible
    }
}

fn string_is(a: &String, lit: &str) -> (r: bool)
    ensures
        r == (a@ == lit@),
{
    let s = String::from_str(lit);
    a.eq(&s)
}

/// Whether the executable is one of the fixed OS-internal process names.
pub fn is_microsoft_internal_exe(exe: &String) -> (r: bool)
    ensures
        r == spec_system_process_names().contains(exe@),
{
    let b0 = string_is(exe, "explorer.exe");
    let b1 = string_is(exe, "ApplicationFrameHost.exe");
    let b2 = string_is(exe, "TextInputHost.exe");
    let b3 = string_is(exe, "SearchHost.exe");
    let b4 = string_is(exe, "StartMenuExperienceHost.exe");
    let b5 = string_is(exe, "ShellExperienceHost.exe");
    let r = b0 || b1 || b2 || b3 || b4 || b5;
    proof {
        let names = spec_system_process_names();
        if b0 {
            assert(names[0] == exe@);
        } else if b1 {
            assert(names[1] == exe@);
        } else if b2 {
            assert(names[2] == exe@);
        } else if b3 {
            assert(names[3] == exe@);
        } else if b4 {
            assert(names[4] == exe@);
        } else if b5 {
            assert(names[5] == exe@);
        } else {
            assert forall|i: int| 0 <= i < names.len() implies names[i] != exe@ by {
                assert(names[0] == "explorer.exe"@);
                assert(names[1] == "ApplicationFrameHost.exe"@);
                assert(names[2] == "TextInputHost.exe"@);
                assert(names[3] == "SearchHost.exe"@);
                assert(names[4] == "StartMenuExperienceHost.exe"@);
                assert(names[5] == "ShellExperienceHost.exe"@);
            }
        }
    }
    r
}

/// Whether the executable is the capturing application's own binary.
pub fn is_self_exe(exe: &String) -> (r: bool)
    ensures
        r == (exe@ == self_process_name()),
{
    string_is(exe, "obs64.exe")
}

/// Whether the executable is on the configured blacklist.
pub fn is_blacklisted_window(exe: &String, blacklist: &Vec<String>) -> (r: bool)
    ensures
        r == contains_name(blacklist@, exe@),
{
    let n = blacklist.len();
    let mut i: usize = 0;
    while i < n
        invariant
            0 <= i <= n,
            n == blacklist@.len(),
            forall|j: int| 0 <= j < i ==> blacklist@[j]@ != exe@,
        decreases n - i,
    {
        if string_is(exe, blacklist[i].as_str()) {
            proof {
                assert(blacklist@[i as int]@ == exe@);
            }
            return true;
        }
        i = i + 1;
    }
    false
}

/// Applies the filter rules, in order, to one executable base name.
pub fn filter_executable(exe: &String, is_game: bool, blacklist: &Vec<String>) -> (r:
    FilterDecision)
    ensures
        r == spec_filter(exe@, is_game, blacklist@),
{
    if is_microsoft_internal_exe(exe) {
        FilterDecision::ExcludedSystem
    } else if is_self_exe(exe) {
        FilterDecision::ExcludedSelf
    } else if is_game && is_blacklisted_window(exe, blacklist) {
        FilterDecision::ExcludedBlacklist
    } else {
        FilterDecision::Eligible
    }
}

proof fn lemma_self_not_system()
    ensures
        !spec_system_process_names().contains(self_process_name()),
{
    reveal_strlit("obs64.exe");
    reveal_strlit("explorer.exe");
    reveal_strlit("ApplicationFrameHost.exe");
    reveal_strlit("TextInputHost.exe");
    reveal_strlit("SearchHost.exe");
    reveal_strlit("StartMenuExperienceHost.exe");
    reveal_strlit("ShellExperienceHost.exe");
    let names = spec_system_process_names();
    assert(self_process_name().len() == 9);
    assert forall|i: int| 0 <= i < names.len() implies names[i] != self_process_name() by {
        assert(names[0].len() == 12);
        assert(names[1].len() == 24);
        assert(names[2].len() == 17);
        assert(names[3].len() == 14);
        assert(names[4].len() == 27);
        assert(names[5].len() == 23);
    }
}

/// Law: a window of the capturing process itself is always excluded as
/// `ExcludedSelf`, independent of capture mode and of the blacklist.
pub proof fn lemma_self_always_excluded(exe: Seq<char>, is_game: bool, blacklist: Seq<String>)
    requires
        exe == self_process_name(),
    ensures
        spec_filter(exe, is_game, blacklist) == FilterDecision::ExcludedSelf,
{
    lemma_self_not_system();
}

/// Law: a window owned by one of the fixed system process names is always
/// excluded as `ExcludedSystem`, independent of capture mode and blacklist.
pub proof fn lemma_system_always_excluded(exe: Seq<char>, is_game: bool, blacklist: Seq<String>)
    requires
        spec_system_process_names().contains(exe),
    ensures
        spec_filter(exe, is_game, blacklist) == FilterDecision::ExcludedSystem,
{
}

/// Law: mode sensitivity of the blacklist. An executable that is neither a
/// system process nor the capturing application itself, but stands on the
/// blacklist, is excluded exactly in game-capture mode and eligible in
/// window-capture mode.
pub proof fn lemma_blacklist_mode_sensitivity(exe: Seq<char>, blacklist: Seq<String>)
    requires
        !spec_system_process_names().contains(exe),
        exe != self_process_name(),
        contains_name(blacklist, exe),
    ensures
        spec_filter(exe, true, blacklist) == FilterDecision::ExcludedBlacklist,
        spec_filter(exe, false, blacklist) == FilterDecision::Eligible,
{
}

} // verus!
