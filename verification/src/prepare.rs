use vstd::prelude::*;

use crate::config::opt_text;
use crate::session::RunStep;
use crate::text::{owned, push_str};

verus! {

/// The status of one online-fix file.
#[derive(Clone, Copy, Debug, PartialEq, Eq, Structural)]
pub enum FileStatus {
    /// The file is already in the game folder.
    Present,
    /// The file is being copied.
    Copying,
    /// The file was copied.
    Copied,
}

/// The word of a file status.
pub open spec fn file_status_word(s: FileStatus) -> Seq<char> {
    match s {
        FileStatus::Present => "ok"@,
        FileStatus::Copying => "copying"@,
        FileStatus::Copied => "copied"@,
    }
}

impl FileStatus {
    /// The word of this status.
    pub fn word(&self) -> (s: &'static str)
        ensures
            s@ == file_status_word(*self),
    {
        match self {
            FileStatus::Present => "ok",
            FileStatus::Copying => "copying",
            FileStatus::Copied => "copied",
        }
    }
}

/// What the preparation of a LAN session tells the window.
#[derive(Debug)]
pub enum PrepNotice {
    /// A line of the log.
    Log(String),
    /// A file (by its name relative to the game folder) and its status.
    FileCheck(String, FileStatus),
    /// The file check is over; whether all is well.
    FileCheckDone(bool),
    /// The outcome of a step.
    Step(RunStep, bool),
}

/// A notice as the contracts see it.
pub enum PrepNoticeView {
    Log(Seq<char>),
    FileCheck(Seq<char>, FileStatus),
    FileCheckDone(bool),
    Step(RunStep, bool),
}

/// The view of a notice.
pub open spec fn prep_view(n: PrepNotice) -> PrepNoticeView {
    match n {
        PrepNotice::Log(s) => PrepNoticeView::Log(s@),
        PrepNotice::FileCheck(f, st) => PrepNoticeView::FileCheck(f@, st),
        PrepNotice::FileCheckDone(b) => PrepNoticeView::FileCheckDone(b),
        PrepNotice::Step(s, ok) => PrepNoticeView::Step(s, ok),
    }
}

/// The views of a list of notices.
pub open spec fn preps_view(v: Seq<PrepNotice>) -> Seq<PrepNoticeView> {
    v.map_values(|n: PrepNotice| prep_view(n))
}

fn push_prep(v: &mut Vec<PrepNotice>, n: PrepNotice)
    ensures
        preps_view(final(v)@) == preps_view(old(v)@).push(prep_view(n)),
{
    let ghost nv = prep_view(n);
    v.push(n);
    assert(preps_view(final(v)@) =~= preps_view(old(v)@).push(nv));
}

fn log_line(prefix: &str, rest: &str) -> (n: PrepNotice)
    ensures
        prep_view(n) == PrepNoticeView::Log(prefix@ + rest@),
{
    let mut s = owned(prefix);
    push_str(&mut s, rest);
    PrepNotice::Log(s)
}

/// Where the online-fix files are taken from.
#[derive(Clone, Copy, Debug, PartialEq, Eq, Structural)]
pub enum FilesSource {
    /// The `files` folder beside the program (while developing).
    Development,
    /// The `files` folder among the bundled resources.
    Bundled,
    /// Neither exists.
    Missing,
}

/// Chooses where the online-fix files are taken from: the development folder when
/// it exists, else the bundled folder when there is one and it exists.
pub fn choose_files_dir(dev_exists: bool, bundled_exists: Option<bool>) -> (src: FilesSource)
    ensures
        src == if dev_exists {
            FilesSource::Development
        } else if bundled_exists == Some(true) {
            FilesSource::Bundled
        } else {
            FilesSource::Missing
        },
{
    if dev_exists {
        FilesSource::Development
    } else {
        match bundled_exists {
            Some(true) => FilesSource::Bundled,
            _ => FilesSource::Missing,
        }
    }
}

/// What the file check tells first: without a files folder it is over at once, with
/// the online fix reported as in place.
pub open spec fn file_check_opening(src: FilesSource) -> Seq<PrepNoticeView> {
    match src {
        FilesSource::Missing => seq![
            PrepNoticeView::Log("No online fix files directory found - skipping."@),
            PrepNoticeView::FileCheck("Online Fix"@, FileStatus::Present),
            PrepNoticeView::FileCheckDone(true),
        ],
        _ => seq![PrepNoticeView::Log("Checking online fix files..."@)],
    }
}

/// What the file check tells first.
pub fn check_and_copy_files(src: FilesSource) -> (v: Vec<PrepNotice>)
    ensures
        preps_view(v@) =~= file_check_opening(src),
{
    let mut v: Vec<PrepNotice> = Vec::new();
    match src {
        FilesSource::Missing => {
            push_prep(&mut v, PrepNotice::Log(owned("No online fix files directory found - skipping.")));
            push_prep(&mut v, PrepNotice::FileCheck(owned("Online Fix"), FileStatus::Present));
            push_prep(&mut v, PrepNotice::FileCheckDone(true));
        },
        _ => {
            push_prep(&mut v, PrepNotice::Log(owned("Checking online fix files...")));
        },
    }
    v
}

/// What `Path::strip_prefix` gives, as text, for a path and a base: the rest of the
/// path after the base's components, or `None` when the path does not start with them.
pub uninterp spec fn spec_strip_prefix(path: Seq<char>, base: Seq<char>) -> Option<Seq<char>>;

/// Calls `Path::strip_prefix` and takes the rest as text (a part of a path given as
/// text is valid text, so the conversion loses nothing); the result is named by
/// `spec_strip_prefix`, which depends on the two paths alone.
#[verifier::external_body]
fn strip_prefix(path: &str, base: &str) -> (r: Option<String>)
    ensures
        opt_text(r) == spec_strip_prefix(path@, base@),
{
    std::path::Path::new(path).strip_prefix(base).ok().map(|p| p.to_string_lossy().into_owned())
}

/// What `Path::join` gives, as text, for a base and a path to put under it.
pub uninterp spec fn spec_path_join(base: Seq<char>, path: Seq<char>) -> Seq<char>;

/// Calls `Path::join` and takes the result as text (two paths given as text join into
/// valid text, so the conversion loses nothing); the result is named by
/// `spec_path_join`, which depends on the two paths alone.
#[verifier::external_body]
fn path_join(base: &str, path: &str) -> (r: String)
    ensures
        r@ == spec_path_join(base@, path@),
{
    std::path::Path::new(base).join(path).to_string_lossy().into_owned()
}

/// The path of a file or folder found in the online-fix files, relative to the files
/// folder (the whole path when it does not lie under that folder).
pub open spec fn relative_text(path: Seq<char>, files_dir: Seq<char>) -> Seq<char> {
    match spec_strip_prefix(path, files_dir) {
        Some(r) => r,
        None => path,
    }
}

/// Where a file or folder found in the online-fix files goes: its path relative to the
/// files folder, which also names it in the reports, and that path under the game folder.
pub fn copy_target(path: &str, files_dir: &str, game_dir: &str) -> (r: (String, String))
    ensures
        r.0@ == relative_text(path@, files_dir@),
        r.1@ == spec_path_join(game_dir@, relative_text(path@, files_dir@)),
{
    let relative = match strip_prefix(path, files_dir) {
        Some(x) => x,
        None => owned(path),
    };
    let target = path_join(game_dir, relative.as_str());
    (relative, target)
}

/// What the file check does with one file: a file already in the game folder is
/// reported as present; a missing one is reported as being copied and is copied.
pub fn check_file(name: &str, target_exists: bool) -> (r: (Vec<PrepNotice>, bool))
    ensures
        r.1 == !target_exists,
        preps_view(r.0@) =~= if target_exists {
            seq![
                PrepNoticeView::Log("  OK: "@ + name@),
                PrepNoticeView::FileCheck(name@, FileStatus::Present),
            ]
        } else {
            seq![
                PrepNoticeView::Log("  COPY: "@ + name@),
                PrepNoticeView::FileCheck(name@, FileStatus::Copying),
            ]
        },
{
    let mut v: Vec<PrepNotice> = Vec::new();
    if target_exists {
        push_prep(&mut v, log_line("  OK: ", name));
        push_prep(&mut v, PrepNotice::FileCheck(owned(name), FileStatus::Present));
    } else {
        push_prep(&mut v, log_line("  COPY: ", name));
        push_prep(&mut v, PrepNotice::FileCheck(owned(name), FileStatus::Copying));
    }
    (v, !target_exists)
}

/// The report of a file that was copied.
pub fn file_copied(name: &str) -> (n: PrepNotice)
    ensures
        prep_view(n) == PrepNoticeView::FileCheck(name@, FileStatus::Copied),
{
    PrepNotice::FileCheck(owned(name), FileStatus::Copied)
}

/// What the file check tells once every file was seen.
pub fn file_check_complete() -> (v: Vec<PrepNotice>)
    ensures
        preps_view(v@) =~= seq![
            PrepNoticeView::Log("File check complete."@),
            PrepNoticeView::FileCheckDone(true),
        ],
{
    let mut v: Vec<PrepNotice> = Vec::new();
    push_prep(&mut v, PrepNotice::Log(owned("File check complete.")));
    push_prep(&mut v, PrepNotice::FileCheckDone(true));
    v
}

/// What the file task tells when the online fix was already done: the check is skipped.
pub fn file_task_skipped() -> (v: Vec<PrepNotice>)
    ensures
        preps_view(v@) =~= seq![
            PrepNoticeView::Log("Online fix already done - skipping file check."@),
            PrepNoticeView::FileCheck("Online Fix"@, FileStatus::Present),
            PrepNoticeView::FileCheckDone(true),
            PrepNoticeView::Step(RunStep::Files, true),
        ],
{
    let mut v: Vec<PrepNotice> = Vec::new();
    push_prep(&mut v, PrepNotice::Log(owned("Online fix already done - skipping file check.")));
    push_prep(&mut v, PrepNotice::FileCheck(owned("Online Fix"), FileStatus::Present));
    push_prep(&mut v, PrepNotice::FileCheckDone(true));
    push_prep(&mut v, PrepNotice::Step(RunStep::Files, true));
    v
}

/// The log line written when the online-fix flag is saved.
pub fn online_fix_saved() -> (n: PrepNotice)
    ensures
        prep_view(n) == PrepNoticeView::Log("Saved online_fix_done=true to config."@),
{
    PrepNotice::Log(owned("Saved online_fix_done=true to config."))
}

/// What the file task tells once the check is over, and whether the online fix is to
/// be recorded as done (only after a check that succeeded).
pub fn file_task_finished(result: &Result<(), String>) -> (r: (Vec<PrepNotice>, bool))
    ensures
        r.1 == result is Ok,
        preps_view(r.0@) =~= match result {
            Ok(_) => seq![PrepNoticeView::Step(RunStep::Files, true)],
            Err(e) => seq![
                PrepNoticeView::Log("File check failed: "@ + e@),
                PrepNoticeView::Step(RunStep::Files, false),
            ],
        },
{
    let mut v: Vec<PrepNotice> = Vec::new();
    match result {
        Ok(_) => {
            push_prep(&mut v, PrepNotice::Step(RunStep::Files, true));
            (v, true)
        },
        Err(e) => {
            push_prep(&mut v, log_line("File check failed: ", e.as_str()));
            push_prep(&mut v, PrepNotice::Step(RunStep::Files, false));
            (v, false)
        },
    }
}

/// The name under which a check task logs its failure.
pub open spec fn task_word(step: RunStep) -> Seq<char> {
    match step {
        RunStep::Firewall => "Firewall"@,
        _ => "Discovering"@,
    }
}

/// What the firewall task or the discovery task tells once it is over: its step is
/// "ok" exactly when the check ended with everything in place.
pub fn check_task_finished(step: RunStep, result: &Result<bool, String>) -> (v: Vec<PrepNotice>)
    requires
        step == RunStep::Firewall || step == RunStep::Discovering,
    ensures
        preps_view(v@) =~= match result {
            Ok(all_ok) => seq![PrepNoticeView::Step(step, *all_ok)],
            Err(e) => seq![
                PrepNoticeView::Log(task_word(step) + " check failed: "@ + e@),
                PrepNoticeView::Step(step, false),
            ],
        },
{
    let mut v: Vec<PrepNotice> = Vec::new();
    match result {
        Ok(all_ok) => {
            push_prep(&mut v, PrepNotice::Step(step, *all_ok));
        },
        Err(e) => {
            let mut line = match step {
                RunStep::Firewall => owned("Firewall"),
                _ => owned("Discovering"),
            };
            push_str(&mut line, " check failed: ");
            push_str(&mut line, e.as_str());
            push_prep(&mut v, PrepNotice::Log(line));
            push_prep(&mut v, PrepNotice::Step(step, false));
        },
    }
    v
}

} // verus!
