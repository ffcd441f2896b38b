use blur_launcher::session::{
    outcome, run_sequence, Progress, RunEvent, RunNotice, RunPhase, RunRequest, RunStatus, RunStep,
};

fn run(
    files_ok: bool,
    listed: Result<Vec<String>, String>,
    mut toggle: impl FnMut(&str, bool) -> Result<(), String>,
    launched: Result<u32, String>,
) -> (Vec<RunNotice>, Vec<RunRequest>, Vec<String>, Vec<String>) {
    let (mut m, out) = run_sequence();
    let mut notices = out.notices;
    let mut reqs = vec![out.request];
    let mut req = out.request;
    let mut listed = Some(listed);
    let mut launched = Some(launched);
    let mut disabled = Vec::new();
    let mut enabled = Vec::new();
    for _ in 0..100 {
        let ev = match req {
            RunRequest::Done => return (notices, reqs, disabled, enabled),
            RunRequest::Prepare => RunEvent::Prepared { files_ok },
            RunRequest::ListVirtualAdapters => RunEvent::Listed(listed.take().unwrap()),
            RunRequest::Disable(i) => {
                let name = m.adapter(i).to_string();
                disabled.push(name.clone());
                RunEvent::Toggled(toggle(&name, false))
            }
            RunRequest::Enable(i) => {
                let name = m.adapter(i).to_string();
                enabled.push(name.clone());
                RunEvent::Toggled(toggle(&name, true))
            }
            RunRequest::Pause(_) => RunEvent::Resumed,
            RunRequest::Launch => RunEvent::Launched(launched.take().unwrap()),
            RunRequest::WaitForGame => RunEvent::GameExited,
        };
        assert!(m.accepts(&ev));
        let o = m.step(ev);
        notices.extend(o.notices);
        reqs.push(o.request);
        req = o.request;
    }
    panic!("the session did not finish");
}

fn logs(ns: &[RunNotice]) -> Vec<String> {
    ns.iter()
        .filter_map(|n| match n {
            RunNotice::Log(s) => Some(s.clone()),
            _ => None,
        })
        .collect()
}

fn names(v: &[&str]) -> Vec<String> {
    v.iter().map(|s| s.to_string()).collect()
}

#[test]
fn adapters_are_restored_after_the_game() {
    let (ns, reqs, dis, en) = run(
        true,
        Ok(names(&["VMnet1", "VMnet8"])),
        |name, enabling| if name == "VMnet8" && !enabling { Err("Disable returned error code: 5".to_string()) } else { Ok(()) },
        Ok(4242),
    );
    assert_eq!(dis, names(&["VMnet1", "VMnet8"]));
    assert_eq!(en, dis);
    let l = logs(&ns);
    assert_eq!(l[0], "=== BLUR LAN MODE START ===");
    assert_eq!(l[1], "Scanning for virtual adapters to disable...");
    assert_eq!(l[2], "Found 2 virtual adapter(s) to disable.");
    assert_eq!(l[3], "Disabling: VMnet1");
    assert_eq!(l[4], "  -> OK");
    assert_eq!(l[6], "  -> failed: Disable returned error code: 5");
    assert!(l.contains(&"Game PID: 4242".to_string()));
    assert!(l.contains(&"Restoring 2 adapter(s)...".to_string()));
    assert!(l.contains(&"Enabling: VMnet8".to_string()));
    assert_eq!(l.last().unwrap(), "=== BLUR LAN MODE END ===");
    assert!(ns.iter().any(|n| matches!(n, RunNotice::Step(RunStep::Adapters, false))));
    assert!(ns.iter().any(|n| matches!(n, RunNotice::Step(RunStep::Launch, true))));
    assert!(ns.iter().any(|n| matches!(n, RunNotice::Adapter(a, Progress::Failed) if a == "VMnet8")));
    assert!(matches!(ns.last().unwrap(), RunNotice::Finished));
    assert!(reqs.contains(&RunRequest::Pause(5000)));
    assert!(reqs.contains(&RunRequest::Pause(2000)));
    assert_eq!(reqs.iter().filter(|r| **r == RunRequest::Pause(300)).count(), 2);
}

#[test]
fn adapters_are_restored_when_the_launch_fails() {
    let (ns, reqs, dis, en) = run(false, Ok(names(&["Hyper-V"])), |_, _| Ok(()), Err("not found".to_string()));
    assert_eq!(dis, en);
    assert!(!reqs.contains(&RunRequest::WaitForGame));
    let l = logs(&ns);
    assert_eq!(l[1], "File check had errors - continuing anyway.");
    assert!(l.contains(&"ERROR: Failed to launch game: not found".to_string()));
    assert!(ns.iter().any(|n| matches!(n, RunNotice::Step(RunStep::Launch, false))));
}

#[test]
fn no_adapters_means_nothing_to_restore() {
    let (ns, _, dis, en) = run(true, Ok(vec![]), |_, _| Ok(()), Ok(1));
    assert!(dis.is_empty() && en.is_empty());
    let l = logs(&ns);
    assert!(l.contains(&"No virtual adapters found.".to_string()));
    assert!(l.contains(&"No adapters to restore.".to_string()));
    assert!(ns.iter().any(|n| matches!(n, RunNotice::Step(RunStep::Adapters, true))));
}

#[test]
fn listing_error_ends_the_session() {
    let (ns, reqs, dis, _) = run(true, Err("CoCreateInstance failed: x".to_string()), |_, _| Ok(()), Ok(1));
    assert!(dis.is_empty());
    assert!(!reqs.contains(&RunRequest::Launch));
    let l = logs(&ns);
    assert_eq!(l.last().unwrap(), "ERROR: CoCreateInstance failed: x");
    assert!(ns.iter().any(|n| matches!(n, RunNotice::Status(RunStatus::Idle))));
}

#[test]
fn session_words() {
    assert_eq!(RunStatus::Racing.word(), "racing");
    assert_eq!(RunStep::Discovering.word(), "discovering");
    assert_eq!(Progress::Processing.word(), "processing");
    assert_eq!(outcome(false), "failed");
    let (m, _) = run_sequence();
    assert_eq!(m.phase(), RunPhase::Preparing);
    assert_eq!(m.adapter_count(), 0);
}
