//! The window-information aggregator.
//!
//! One call per discovered window handle: the resolved process identity is
//! filtered first (the cheapest query, and the source of every exclusion
//! decision), and only for an eligible window a complete metadata record is
//! assembled. Every optional field independently reflects whether its
//! sub-query succeeded; a failed sub-query degrades that field to absent and
//! never rejects the whole record.

use crate::error::{ExcludeReason, WindowError};
use crate::filter::{
    contains_name, filter_executable, lemma_blacklist_mode_sensitivity,
    lemma_self_always_excluded, lemma_system_always_excluded, self_process_name, spec_filter,
    spec_system_process_names, FilterDecision,
};
use crate::wstr::{len_to_nul, utf16_decode, utf16_nul_to_string};
use vstd::prelude::*;
use vstd::string::StrSliceExecFns;

verus! {

/// One immutable metadata record for an eligible window. Only `exe` (and the
/// identity it was filtered on) is guaranteed; every other field reflects its
/// own sub-query.
#[derive(Clone, Debug, PartialEq)]
pub struct WindowInfo {
    /// Absolute path of the owning process's executable image.
    pub full_exe: String,
    /// Base name of the executable; always present, it passed the filter.
    pub exe: String,
    /// Identifier assigned by the capture subsystem; left empty here.
    pub obs_id: String,
    /// The window handle the record was derived from, as a plain number.
    pub handle: u64,
    /// Process id of the owning process.
    pub pid: u32,
    /// Window title, when the window exposes one.
    pub title: Option<String>,
    /// Window class name.
    pub class: Option<String>,
    /// Product name from the executable's version resource.
    pub product_name: Option<String>,
    /// Stable device identifier of the monitor nearest to the window.
    pub monitor: Option<String>,
    /// Whether the window's bounds span more than one monitor.
    pub intersects: Option<bool>,
    /// The literal command line the owning process was launched with.
    pub cmd_line: Option<String>,
}

/// The owning thread and process of a window, as the window manager reports
/// them.
#[derive(Clone, Copy, Debug, PartialEq, Eq, Structural)]
pub struct ProcessInfo {
    /// Id of the process that created the window.
    pub process_id: u32,
    /// Id of the thread that created the window.
    pub thread_id: u32,
}

/// Interprets the owning-thread query: a zero thread id means the handle no
/// longer names a live window.
pub fn get_thread_proc_id(thread_id: u32, process_id: u32) -> (r: Result<ProcessInfo, WindowError>)
    ensures
        thread_id == 0 ==> r == Err::<ProcessInfo, WindowError>(WindowError::InvalidHandle),
        thread_id != 0 ==> r == Ok::<ProcessInfo, WindowError>(
            ProcessInfo { process_id, thread_id },
        ),
{
    if thread_id == 0 {
        return Err(WindowError::InvalidHandle);
    }
    Ok(ProcessInfo { process_id, thread_id })
}

/// A path separator, as the operating system accepts both of them.
pub open spec fn is_path_sep(c: char) -> bool {
    c == '\\' || c == '/'
}

/// The index just past the last path separator; zero when none occurs.
pub open spec fn last_sep_end(s: Seq<char>) -> int
    decreases s.len(),
{
    if s.len() == 0 {
        0
    } else if is_path_sep(s[s.len() - 1]) {
        s.len() as int
    } else {
        last_sep_end(s.drop_last())
    }
}

/// The base name of a path: everything past the last separator. Empty for a
/// path that ends in a separator.
pub open spec fn spec_file_name(s: Seq<char>) -> Seq<char> {
    s.skip(last_sep_end(s))
}

proof fn lemma_last_sep_end_bounds(s: Seq<char>)
    ensures
        0 <= last_sep_end(s) <= s.len(),
    decreases s.len(),
{
    if s.len() != 0 && !is_path_sep(s[s.len() - 1]) {
        lemma_last_sep_end_bounds(s.drop_last());
    }
}

/// Extracts the base name of an executable path; `None` when the path has no
/// base name (it is empty or ends in a separator).
pub fn file_name_of_path(path: &String) -> (r: Option<String>)
    ensures
        spec_file_name(path@).len() == 0 ==> r is None,
        spec_file_name(path@).len() > 0 ==> r is Some && r->Some_0@ == spec_file_name(path@),
{
    let pstr = path.as_str();
    let n = pstr.unicode_len();
    let mut i: usize = 0;
    let mut cut: usize = 0;
    while i < n
        invariant
            0 <= i <= n,
            n == path@.len(),
            pstr@ == path@,
            cut <= i,
            cut == last_sep_end(path@.take(i as int)),
        decreases n - i,
    {
        let c = pstr.get_char(i);
        proof {
            assert(path@.take(i + 1).drop_last() =~= path@.take(i as int));
            assert(path@.take(i + 1)[i as int] == path@[i as int]);
        }
        if c == '\\' || c == '/' {
            cut = i + 1;
        }
        i = i + 1;
    }
    proof {
        assert(path@.take(n as int) =~= path@);
        lemma_last_sep_end_bounds(path@);
    }
    if cut == n {
        None
    } else {
        let sub = pstr.substring_char(cut, n);
        proof {
            assert(sub@ =~= path@.skip(cut as int));
        }
        Some(sub.to_owned())
    }
}

/// Resolves a window's process identity: the process id reported by the
/// window manager and the decoded module path of the process's executable.
/// A zero process id means the handle is stale; a process that could not be
/// opened is access-denied; a missing module path is unavailable.
pub fn get_exe(proc_id: u32, process_opened: bool, module_path_units: Option<&Vec<u16>>) -> (r:
    Result<(u32, String), WindowError>)
    ensures
        proc_id == 0 ==> r == Err::<(u32, String), WindowError>(WindowError::InvalidHandle),
        proc_id != 0 && !process_opened ==> r == Err::<(u32, String), WindowError>(
            WindowError::AccessDenied,
        ),
        proc_id != 0 && process_opened && module_path_units is None ==> r == Err::<
            (u32, String),
            WindowError,
        >(WindowError::ResourceUnavailable),
        proc_id != 0 && process_opened && module_path_units is Some ==> r is Ok && r->Ok_0.0
            == proc_id && r->Ok_0.1@ == utf16_decode(
            module_path_units->Some_0@.take(len_to_nul(module_path_units->Some_0@)),
        ),
{
    if proc_id == 0 {
        return Err(WindowError::InvalidHandle);
    }
    if !process_opened {
        return Err(WindowError::AccessDenied);
    }
    match module_path_units {
        None => Err(WindowError::ResourceUnavailable),
        Some(units) => {
            let path = utf16_nul_to_string(units.as_slice());
            Ok((proc_id, path))
        },
    }
}

/// Interprets the window-text queries: a zero reported length or a zero copy
/// result means the title is unavailable; otherwise the copied buffer is
/// decoded up to its NUL terminator.
pub fn get_title(reported_len: i32, copy_result: i32, text_units: &[u16]) -> (r: Result<
    String,
    WindowError,
>)
    ensures
        reported_len <= 0 || copy_result <= 0 ==> r == Err::<String, WindowError>(
            WindowError::ResourceUnavailable,
        ),
        reported_len > 0 && copy_result > 0 ==> r is Ok && r->Ok_0@ == utf16_decode(
            text_units@.take(len_to_nul(text_units@)),
        ),
{
    if reported_len <= 0 || copy_result <= 0 {
        return Err(WindowError::ResourceUnavailable);
    }
    Ok(utf16_nul_to_string(text_units))
}

/// Interprets the class-name query: a zero copied length means the class is
/// unavailable; otherwise the buffer is decoded up to its NUL terminator.
pub fn get_window_class(copied_len: i32, class_units: &[u16]) -> (r: Result<String, WindowError>)
    ensures
        copied_len <= 0 ==> r == Err::<String, WindowError>(WindowError::ResourceUnavailable),
        copied_len > 0 ==> r is Ok && r->Ok_0@ == utf16_decode(
            class_units@.take(len_to_nul(class_units@)),
        ),
{
    if copied_len <= 0 {
        return Err(WindowError::ResourceUnavailable);
    }
    Ok(utf16_nul_to_string(class_units))
}

/// Whether one window is allowed a metadata record, decided from its resolved
/// identity, the capture mode and the blacklist alone: a failed identity
/// resolution propagates its error; a path without a base name cannot be
/// filtered; otherwise the filter's verdict decides.
pub open spec fn spec_eligibility(
    identity: Result<(u32, String), WindowError>,
    is_game: bool,
    blacklist: Seq<String>,
) -> Result<(), WindowError> {
    match identity {
        Result::Err(e) => Result::Err(e),
        Result::Ok(id) => {
            let exe = spec_file_name(id.1@);
            if exe.len() == 0 {
                Result::Err(WindowError::ResourceUnavailable)
            } else {
                match spec_filter(exe, is_game, blacklist) {
                    FilterDecision::ExcludedSystem => Result::Err(
                        WindowError::Excluded(ExcludeReason::SystemProcess),
                    ),
                    FilterDecision::ExcludedSelf => Result::Err(
                        WindowError::Excluded(ExcludeReason::SelfProcess),
                    ),
                    FilterDecision::ExcludedBlacklist => Result::Err(
                        WindowError::Excluded(ExcludeReason::Blacklisted),
                    ),
                    FilterDecision::Eligible => Result::Ok(()),
                }
            }
        },
    }
}

/// The aggregator's full contract: a rejected window carries exactly the
/// eligibility error, and an eligible window carries a complete record whose
/// identity fields come from the resolved identity and whose optional fields
/// are exactly the sub-query results handed in.
pub open spec fn window_info_post(
    r: Result<WindowInfo, WindowError>,
    handle: u64,
    identity: Result<(u32, String), WindowError>,
    is_game: bool,
    blacklist: Seq<String>,
    title: Option<String>,
    class: Option<String>,
    product_name: Option<String>,
    monitor: Option<String>,
    intersects: Option<bool>,
    cmd_line: Option<String>,
) -> bool {
    match spec_eligibility(identity, is_game, blacklist) {
        Result::Err(e) => r == Err::<WindowInfo, WindowError>(e),
        Result::Ok(_) => {
            &&& r is Ok
            &&& (r->Ok_0).handle == handle
            &&& (r->Ok_0).pid == identity->Ok_0.0
            &&& (r->Ok_0).full_exe == identity->Ok_0.1
            &&& (r->Ok_0).exe@ == spec_file_name(identity->Ok_0.1@)
            &&& (r->Ok_0).obs_id@ == Seq::<char>::empty()
            &&& (r->Ok_0).title == title
            &&& (r->Ok_0).class == class
            &&& (r->Ok_0).product_name == product_name
            &&& (r->Ok_0).monitor == monitor
            &&& (r->Ok_0).intersects == intersects
            &&& (r->Ok_0).cmd_line == cmd_line
        },
    }
}

/// Aggregates one window's metadata: filters the resolved identity and, for
/// an eligible window, assembles the record from the sub-query results. The
/// record is complete or not produced at all.
pub fn get_window_info(
    handle: u64,
    identity: Result<(u32, String), WindowError>,
    is_game: bool,
    blacklist: &Vec<String>,
    title: Option<String>,
    class: Option<String>,
    product_name: Option<String>,
    monitor: Option<String>,
    intersects: Option<bool>,
    cmd_line: Option<String>,
) -> (r: Result<WindowInfo, WindowError>)
    ensures
        window_info_post(
            r,
            handle,
            identity,
            is_game,
            blacklist@,
            title,
            class,
            product_name,
            monitor,
            intersects,
            cmd_line,
        ),
{
    let (pid, full_exe) = match identity {
        Result::Err(e) => {
            return Err(e);
        },
        Result::Ok(p) => p,
    };
    let exe = match file_name_of_path(&full_exe) {
        None => {
            return Err(WindowError::ResourceUnavailable);
        },
        Some(e) => e,
    };
    match filter_executable(&exe, is_game, blacklist) {
        FilterDecision::ExcludedSystem => Err(WindowError::Excluded(ExcludeReason::SystemProcess)),
        FilterDecision::ExcludedSelf => Err(WindowError::Excluded(ExcludeReason::SelfProcess)),
        FilterDecision::ExcludedBlacklist => Err(
            WindowError::Excluded(ExcludeReason::Blacklisted),
        ),
        FilterDecision::Eligible => Ok(
            WindowInfo {
                full_exe,
                exe,
                obs_id: String::new(),
                handle,
                pid,
                title,
                class,
                product_name,
                monitor,
                intersects,
                cmd_line,
            },
        ),
    }
}

/// Law: an eligible record always carries the executable name — the `exe`
/// field reads as the nonempty base name of the resolved executable path.
pub proof fn lemma_executable_name_present(
    r: Result<WindowInfo, WindowError>,
    handle: u64,
    identity: Result<(u32, String), WindowError>,
    is_game: bool,
    blacklist: Seq<String>,
    title: Option<String>,
    class: Option<String>,
    product_name: Option<String>,
    monitor: Option<String>,
    intersects: Option<bool>,
    cmd_line: Option<String>,
)
    requires
        window_info_post(
            r,
            handle,
            identity,
            is_game,
            blacklist,
            title,
            class,
            product_name,
            monitor,
            intersects,
            cmd_line,
        ),
        r is Ok,
    ensures
        identity is Ok,
        (r->Ok_0).exe@ == spec_file_name(identity->Ok_0.1@),
        (r->Ok_0).exe@.len() > 0,
{
}

/// Law: field independence — whether a record is produced, and which
/// rejection is reported, depends on the identity, mode and blacklist alone;
/// the absence or presence of any optional field never changes the outcome.
pub proof fn lemma_field_independence(
    r1: Result<WindowInfo, WindowError>,
    r2: Result<WindowInfo, WindowError>,
    handle: u64,
    identity: Result<(u32, String), WindowError>,
    is_game: bool,
    blacklist: Seq<String>,
    title1: Option<String>,
    class1: Option<String>,
    product_name1: Option<String>,
    monitor1: Option<String>,
    intersects1: Option<bool>,
    cmd_line1: Option<String>,
    title2: Option<String>,
    class2: Option<String>,
    product_name2: Option<String>,
    monitor2: Option<String>,
    intersects2: Option<bool>,
    cmd_line2: Option<String>,
)
    requires
        window_info_post(
            r1,
            handle,
            identity,
            is_game,
            blacklist,
            title1,
            class1,
            product_name1,
            monitor1,
            intersects1,
            cmd_line1,
        ),
        window_info_post(
            r2,
            handle,
            identity,
            is_game,
            blacklist,
            title2,
            class2,
            product_name2,
            monitor2,
            intersects2,
            cmd_line2,
        ),
    ensures
        r1 is Ok <==> r2 is Ok,
        r1 is Err ==> r1 == r2,
{
}

/// Law: a handle that went stale before the identity query is reported as
/// `InvalidHandle` and never yields a record.
pub proof fn lemma_stale_handle_invalid(
    r: Result<WindowInfo, WindowError>,
    handle: u64,
    is_game: bool,
    blacklist: Seq<String>,
    title: Option<String>,
    class: Option<String>,
    product_name: Option<String>,
    monitor: Option<String>,
    intersects: Option<bool>,
    cmd_line: Option<String>,
)
    requires
        window_info_post(
            r,
            handle,
            Err::<(u32, String), WindowError>(WindowError::InvalidHandle),
            is_game,
            blacklist,
            title,
            class,
            product_name,
            monitor,
            intersects,
            cmd_line,
        ),
    ensures
        r == Err::<WindowInfo, WindowError>(WindowError::InvalidHandle),
{
}

/// Law: a window of the capturing process itself is always rejected by the
/// aggregation as excluded-self, in either capture mode and under any
/// blacklist.
pub proof fn lemma_aggregation_excludes_self(
    identity: Result<(u32, String), WindowError>,
    is_game: bool,
    blacklist: Seq<String>,
)
    requires
        identity is Ok,
        spec_file_name(identity->Ok_0.1@) == self_process_name(),
    ensures
        spec_eligibility(identity, is_game, blacklist) == Err::<(), WindowError>(
            WindowError::Excluded(ExcludeReason::SelfProcess),
        ),
{
    reveal_strlit("obs64.exe");
    assert(self_process_name().len() == 9);
    lemma_self_always_excluded(spec_file_name(identity->Ok_0.1@), is_game, blacklist);
}

/// Law: a window owned by one of the fixed system process names is always
/// rejected by the aggregation as excluded-system, in either capture mode.
pub proof fn lemma_aggregation_excludes_system(
    identity: Result<(u32, String), WindowError>,
    is_game: bool,
    blacklist: Seq<String>,
)
    requires
        identity is Ok,
        spec_system_process_names().contains(spec_file_name(identity->Ok_0.1@)),
    ensures
        spec_eligibility(identity, is_game, blacklist) == Err::<(), WindowError>(
            WindowError::Excluded(ExcludeReason::SystemProcess),
        ),
{
    let exe = spec_file_name(identity->Ok_0.1@);
    let names = spec_system_process_names();
    reveal_strlit("explorer.exe");
    reveal_strlit("ApplicationFrameHost.exe");
    reveal_strlit("TextInputHost.exe");
    reveal_strlit("SearchHost.exe");
    reveal_strlit("StartMenuExperienceHost.exe");
    reveal_strlit("ShellExperienceHost.exe");
    let i = choose|i: int| 0 <= i < names.len() && names[i] == exe;
    assert(names[0].len() > 0);
    assert(names[1].len() > 0);
    assert(names[2].len() > 0);
    assert(names[3].len() > 0);
    assert(names[4].len() > 0);
    assert(names[5].len() > 0);
    assert(exe.len() > 0);
    lemma_system_always_excluded(exe, is_game, blacklist);
}

/// Law: mode sensitivity of the blacklist at the aggregation. A window whose
/// owning executable stands on the blacklist (and is neither a system process
/// nor the capturing application) is rejected as excluded-blacklist exactly
/// in game-capture mode, and owed a record in window-capture mode.
pub proof fn lemma_aggregation_blacklist_mode(
    identity: Result<(u32, String), WindowError>,
    blacklist: Seq<String>,
)
    requires
        identity is Ok,
        spec_file_name(identity->Ok_0.1@).len() > 0,
        !spec_system_process_names().contains(spec_file_name(identity->Ok_0.1@)),
        spec_file_name(identity->Ok_0.1@) != self_process_name(),
        contains_name(blacklist, spec_file_name(identity->Ok_0.1@)),
    ensures
        spec_eligibility(identity, true, blacklist) == Err::<(), WindowError>(
            WindowError::Excluded(ExcludeReason::Blacklisted),
        ),
        spec_eligibility(identity, false, blacklist) == Ok::<(), WindowError>(()),
{
    lemma_blacklist_mode_sensitivity(spec_file_name(identity->Ok_0.1@), blacklist);
}

/// Field-wise agreement of two records, comparing texts by their contents.
pub open spec fn window_info_view_eq(a: WindowInfo, b: WindowInfo) -> bool {
    &&& a.full_exe@ == b.full_exe@
    &&& a.exe@ == b.exe@
    &&& a.obs_id@ == b.obs_id@
    &&& a.handle == b.handle
    &&& a.pid == b.pid
    &&& a.title == b.title
    &&& a.class == b.class
    &&& a.product_name == b.product_name
    &&& a.monitor == b.monitor
    &&& a.intersects == b.intersects
    &&& a.cmd_line == b.cmd_line
}

/// Law: aggregation is idempotent — two aggregations over identical query
/// results yield the same outcome, record for record and error for error.
pub proof fn lemma_aggregation_idempotent(
    r1: Result<WindowInfo, WindowError>,
    r2: Result<WindowInfo, WindowError>,
    handle: u64,
    identity: Result<(u32, String), WindowError>,
    is_game: bool,
    blacklist: Seq<String>,
    title: Option<String>,
    class: Option<String>,
    product_name: Option<String>,
    monitor: Option<String>,
    intersects: Option<bool>,
    cmd_line: Option<String>,
)
    requires
        window_info_post(
            r1,
            handle,
            identity,
            is_game,
            blacklist,
            title,
            class,
            product_name,
            monitor,
            intersects,
            cmd_line,
        ),
        window_info_post(
            r2,
            handle,
            identity,
            is_game,
            blacklist,
            title,
            class,
            product_name,
            monitor,
            intersects,
            cmd_line,
        ),
    ensures
        r1 is Ok <==> r2 is Ok,
        r1 is Err ==> r1 == r2,
        r1 is Ok ==> window_info_view_eq(r1->Ok_0, r2->Ok_0),
{
}

} // verus!
