use blur_launcher::firewall::{
    check_firewall_rules, echo_rule, netsh_args, Direction, FirewallCheck, FwCommand, FwEntry,
    FwEvent, FwNotice, FwRequest, FwStatus,
};

fn run(mut env: impl FnMut(FwCommand) -> FwEvent) -> (Vec<FwNotice>, Vec<FwRequest>, bool) {
    let (mut m, out): (FirewallCheck, _) = check_firewall_rules();
    let mut notices = out.notices;
    let mut reqs = vec![out.request];
    let mut req = out.request;
    for _ in 0..100 {
        let ev = match req {
            FwRequest::Finish(ok) => return (notices, reqs, ok),
            FwRequest::Pause(_) => FwEvent::Resumed,
            FwRequest::Run(c) => env(c),
        };
        assert!(m.accepts(&ev));
        let o = m.step(ev);
        notices.extend(o.notices);
        reqs.push(o.request);
        req = o.request;
    }
    panic!("the check did not finish");
}

fn logs(ns: &[FwNotice]) -> Vec<String> {
    ns.iter()
        .filter_map(|n| match n {
            FwNotice::Log(s) => Some(s.clone()),
            _ => None,
        })
        .collect()
}

fn entries(ns: &[FwNotice]) -> Vec<(FwEntry, FwStatus)> {
    ns.iter()
        .filter_map(|n| match n {
            FwNotice::Entry(e, s) => Some((*e, *s)),
            _ => None,
        })
        .collect()
}

#[test]
fn existing_rules_are_left_alone() {
    let (ns, reqs, ok) = run(|c| match c {
        FwCommand::ShowRule(_) => FwEvent::Output(b"\r\nRule Name: Blur LAN Launcher\r\n".to_vec()),
        _ => FwEvent::Output(b"Updated 1 rule(s).\r\nOk.\r\n".to_vec()),
    });
    assert!(ok);
    assert!(!reqs.iter().any(|r| matches!(r, FwRequest::Run(FwCommand::AddRule(_)))));
    let l = logs(&ns);
    assert_eq!(l[0], "Checking firewall rules...");
    assert_eq!(l[1], "  Inbound rule: OK");
    assert_eq!(l[2], "  Outbound rule: OK");
    assert_eq!(l[3], "Enabling ICMPv4 rules...");
    assert_eq!(
        l[4],
        "  ICMPv4: Core Networking Diagnostics - ICMP Echo Request (ICMPv4-In) -> enabled"
    );
    assert_eq!(l.last().unwrap(), "Firewall check complete.");
    let e = entries(&ns);
    assert_eq!(e[0], (FwEntry::Rule(Direction::Inbound), FwStatus::Checking));
    assert_eq!(*e.last().unwrap(), (FwEntry::Echo, FwStatus::Present));
    assert!(matches!(ns.last().unwrap(), FwNotice::Done));
    assert_eq!(reqs[0], FwRequest::Pause(400));
}

#[test]
fn missing_rules_are_created() {
    let (ns, reqs, ok) = run(|c| match c {
        FwCommand::ShowRule(_) => FwEvent::Output(b"No rules match the specified criteria.".to_vec()),
        FwCommand::AddRule(Direction::Inbound) => FwEvent::Output(b"Ok.\r\n".to_vec()),
        FwCommand::AddRule(Direction::Outbound) => FwEvent::Output(b"  The requested operation requires elevation.  \r\n".to_vec()),
        FwCommand::EnableEcho(_) => FwEvent::Output(b"No rules match.".to_vec()),
    });
    assert!(!ok);
    assert!(reqs.contains(&FwRequest::Run(FwCommand::AddRule(Direction::Inbound))));
    let l = logs(&ns);
    assert!(l.contains(&"  Inbound rule: MISSING - creating...".to_string()));
    assert!(l.contains(&"  Inbound rule: CREATED".to_string()));
    assert!(l.contains(&"  Outbound rule: FAILED - The requested operation requires elevation.".to_string()));
    assert!(l.contains(&"  ICMPv4: Core Networking - Destination Unreachable Fragmentation Needed (ICMPv4-In) -> skipped (not found)".to_string()));
    let e = entries(&ns);
    assert!(e.contains(&(FwEntry::Rule(Direction::Inbound), FwStatus::Created)));
    assert!(e.contains(&(FwEntry::Rule(Direction::Outbound), FwStatus::Failed)));
    assert_eq!(*e.last().unwrap(), (FwEntry::Echo, FwStatus::Present));
}

#[test]
fn spawn_failures_fail_the_check() {
    let (ns, _, ok) = run(|c| match c {
        FwCommand::ShowRule(Direction::Inbound) => FwEvent::SpawnFailed("not found".to_string()),
        FwCommand::ShowRule(Direction::Outbound) => FwEvent::Output(b"Rule Name:".to_vec()),
        FwCommand::EnableEcho(3) => FwEvent::SpawnFailed("boom".to_string()),
        _ => FwEvent::Output(b"Ok.".to_vec()),
    });
    assert!(!ok);
    let l = logs(&ns);
    assert!(l.contains(&"  Inbound rule: FAILED to check - not found".to_string()));
    assert!(l.contains(&"  ICMPv4: File and Printer Sharing (Echo Request - ICMPv4-Out) -> FAILED: boom".to_string()));
    assert_eq!(*entries(&ns).last().unwrap(), (FwEntry::Echo, FwStatus::Failed));
}

#[test]
fn netsh_arguments() {
    assert_eq!(
        netsh_args(FwCommand::ShowRule(Direction::Outbound)),
        vec!["advfirewall", "firewall", "show", "rule", "name=Blur LAN Launcher - Outbound"]
    );
    assert_eq!(
        netsh_args(FwCommand::AddRule(Direction::Inbound)),
        vec![
            "advfirewall", "firewall", "add", "rule", "name=Blur LAN Launcher - Inbound",
            "dir=in", "action=allow", "enable=yes", "program=Blur.exe", "protocol=any"
        ]
    );
    assert_eq!(
        netsh_args(FwCommand::EnableEcho(4)),
        vec![
            "advfirewall", "firewall", "set", "rule",
            "name=File and Printer Sharing (Echo Request - ICMPv4-In)*@{Domain,Private,Public}",
            "new", "enable=yes"
        ]
    );
    assert_eq!(echo_rule(8), "Core Networking - Destination Unreachable Fragmentation Needed (ICMPv4-In)");
    assert_eq!(FwEntry::Echo.label(), "ICMPv4 Rules");
    assert_eq!(FwStatus::Creating.word(), "creating");
}

#[test]
fn command_output_is_read_as_lossy_utf8() {
    let (ns, _, ok) = run(|c| match c {
        FwCommand::ShowRule(Direction::Inbound) => FwEvent::Output(vec![0xff, b'R', b'u', b'l', b'e', b' ', b'N', b'a', b'm', b'e']),
        FwCommand::ShowRule(Direction::Outbound) => FwEvent::Output(b"none".to_vec()),
        FwCommand::AddRule(_) => FwEvent::Output(vec![b' ', 0x4f, 0xff, 0x6b, b' ']),
        FwCommand::EnableEcho(_) => FwEvent::Output(b"Ok.".to_vec()),
    });
    assert!(!ok);
    let l = logs(&ns);
    assert!(l.contains(&"  Inbound rule: OK".to_string()));
    assert!(l.contains(&"  Outbound rule: FAILED - O\u{fffd}k".to_string()));
}
