use blur_launcher::prepare::{
    check_and_copy_files, check_file, check_task_finished, choose_files_dir, copy_target,
    file_check_complete,
    file_copied, file_task_finished, file_task_skipped, online_fix_saved, FileStatus, FilesSource,
    PrepNotice,
};
use blur_launcher::session::RunStep;

fn log_of(n: &PrepNotice) -> Option<&str> {
    match n {
        PrepNotice::Log(s) => Some(s.as_str()),
        _ => None,
    }
}

#[test]
fn files_folder_choice() {
    assert_eq!(choose_files_dir(true, Some(true)), FilesSource::Development);
    assert_eq!(choose_files_dir(false, Some(true)), FilesSource::Bundled);
    assert_eq!(choose_files_dir(false, Some(false)), FilesSource::Missing);
    assert_eq!(choose_files_dir(false, None), FilesSource::Missing);
}

#[test]
fn file_check_notices() {
    let v = check_and_copy_files(FilesSource::Missing);
    assert_eq!(v.len(), 3);
    assert_eq!(log_of(&v[0]), Some("No online fix files directory found - skipping."));
    assert!(matches!(&v[1], PrepNotice::FileCheck(f, FileStatus::Present) if f == "Online Fix"));
    assert!(matches!(v[2], PrepNotice::FileCheckDone(true)));
    let v = check_and_copy_files(FilesSource::Bundled);
    assert_eq!(log_of(&v[0]), Some("Checking online fix files..."));
    let (v, copy) = check_file("amax/init.lua", false);
    assert!(copy);
    assert_eq!(log_of(&v[0]), Some("  COPY: amax/init.lua"));
    assert!(matches!(&v[1], PrepNotice::FileCheck(f, FileStatus::Copying) if f == "amax/init.lua"));
    let (v, copy) = check_file("d3d9.dll", true);
    assert!(!copy);
    assert_eq!(log_of(&v[0]), Some("  OK: d3d9.dll"));
    assert!(matches!(file_copied("x"), PrepNotice::FileCheck(f, FileStatus::Copied) if f == "x"));
    let v = file_check_complete();
    assert_eq!(log_of(&v[0]), Some("File check complete."));
    assert_eq!(FileStatus::Copying.word(), "copying");
}

#[test]
fn task_outcomes() {
    let v = file_task_skipped();
    assert_eq!(v.len(), 4);
    assert!(matches!(v[3], PrepNotice::Step(RunStep::Files, true)));
    let (v, mark) = file_task_finished(&Ok(()));
    assert!(mark && v.len() == 1);
    let (v, mark) = file_task_finished(&Err("denied".to_string()));
    assert!(!mark);
    assert_eq!(log_of(&v[0]), Some("File check failed: denied"));
    assert!(matches!(v[1], PrepNotice::Step(RunStep::Files, false)));
    let v = check_task_finished(RunStep::Firewall, &Ok(false));
    assert!(matches!(v[0], PrepNotice::Step(RunStep::Firewall, false)));
    let v = check_task_finished(RunStep::Discovering, &Err("x".to_string()));
    assert_eq!(log_of(&v[0]), Some("Discovering check failed: x"));
    assert_eq!(log_of(&online_fix_saved()), Some("Saved online_fix_done=true to config."));
}

#[test]
fn copy_targets_mirror_the_files_folder() {
    let (rel, target) = copy_target("files/amax/init.lua", "files", "/games/blur");
    assert_eq!(rel, "amax/init.lua");
    assert_eq!(target, "/games/blur/amax/init.lua");
    let (rel, target) = copy_target("/bundle/files/d3d9.dll", "/bundle/files", "game");
    assert_eq!(rel, "d3d9.dll");
    assert_eq!(target, "game/d3d9.dll");
    // A path outside the files folder keeps its whole path.
    let (rel, target) = copy_target("other/x.dll", "files", "/games/blur");
    assert_eq!(rel, "other/x.dll");
    assert_eq!(target, "/games/blur/other/x.dll");
}
