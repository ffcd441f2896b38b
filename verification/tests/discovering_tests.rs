use blur_launcher::discovering::{
    category_label, check_and_enable_discovering, get_sharing_state, missing_value,
    network_fetched, network_info, public_folder_path, reg_read_error_message, tolerated_refusal, Check,
    CheckStatus, CheckUpdate, DiscEvent, DiscPhase, DiscRequest, DiscoveringRun,
    FlagReadReport, ForceGuestReport, RegFlag, RuleGroup, Service, ShareReport, SharingProbe,
    StartReport,
};

/// Runs the setup against a simulated machine; returns every check report, every
/// request and the verdict.
fn run(
    persist: bool,
    env: impl FnMut(DiscRequest, &DiscoveringRun) -> DiscEvent,
) -> (Vec<CheckUpdate>, Vec<DiscRequest>, bool) {
    let (ups, reqs, ok, _) = run_with_notes(persist, env);
    (ups, reqs, ok)
}

/// Like `run`, and also returns every log line that the reports gave rise to.
fn run_with_notes(
    persist: bool,
    mut env: impl FnMut(DiscRequest, &DiscoveringRun) -> DiscEvent,
) -> (Vec<CheckUpdate>, Vec<DiscRequest>, bool, Vec<String>) {
    let (mut m, out) = check_and_enable_discovering(persist);
    let mut ups = out.updates;
    let mut reqs = vec![out.request];
    let mut req = out.request;
    let mut notes = Vec::new();
    for _ in 0..1000 {
        if let DiscRequest::Finish(ok) = req {
            return (ups, reqs, ok, notes);
        }
        let ev = env(req, &m);
        assert!(m.accepts(&ev));
        notes.extend(m.note(&ev));
        let o = m.step(ev);
        ups.extend(o.updates);
        reqs.push(o.request);
        req = o.request;
    }
    panic!("the setup did not finish");
}

fn healthy(req: DiscRequest, _m: &DiscoveringRun) -> DiscEvent {
    match req {
        DiscRequest::Pause(_) => DiscEvent::Resumed,
        DiscRequest::ReadFlag(_) => DiscEvent::FlagRead(FlagReadReport::Value(1)),
        DiscRequest::WriteFlag(_) => DiscEvent::FlagWritten(true),
        DiscRequest::OpenServiceManager => DiscEvent::ServiceManager(true),
        DiscRequest::QueryService(_) | DiscRequest::PollService(_) => DiscEvent::ServiceState(Ok(4)),
        DiscRequest::StartService(_) => DiscEvent::StartReply(StartReport::Sent),
        DiscRequest::SetAutoStart(_) | DiscRequest::CloseServiceManager => DiscEvent::Acknowledged,
        DiscRequest::QueryRuleGroup(_) => DiscEvent::RuleGroupState(Some(true)),
        DiscRequest::EnableRuleGroup(_) => DiscEvent::RuleGroupEnabled(true),
        DiscRequest::ReadSystemDrive => DiscEvent::SystemDrive(Some("D:".to_string())),
        DiscRequest::EnsureFolder => DiscEvent::FolderReady(true),
        DiscRequest::AddShare => DiscEvent::ShareAdded(ShareReport::Code(0)),
        DiscRequest::ReplaceShare => DiscEvent::ShareReplaced(0),
        DiscRequest::ReadForceGuest => DiscEvent::ForceGuest(ForceGuestReport::Read { queried: true, value: 0 }),
        DiscRequest::WriteForceGuest => DiscEvent::ForceGuestWritten(true),
        DiscRequest::Finish(_) => unreachable!(),
    }
}

fn up(check: Check, status: CheckStatus) -> CheckUpdate {
    CheckUpdate { check, status }
}

#[test]
fn everything_in_place_is_reported_ok() {
    let (ups, reqs, ok) = run(false, healthy);
    assert!(ok);
    assert_eq!(ups.len(), 28);
    assert_eq!(ups[0], up(Check::SmbSigning, CheckStatus::Checking));
    assert_eq!(ups[9], up(Check::PasswordProtectedSharing, CheckStatus::Checking));
    assert_eq!(ups[10], up(Check::SmbSigning, CheckStatus::Checking));
    assert_eq!(ups[11], up(Check::SmbSigning, CheckStatus::Satisfied));
    assert_eq!(*ups.last().unwrap(), up(Check::PasswordProtectedSharing, CheckStatus::Satisfied));
    assert_eq!(reqs[0], DiscRequest::Pause(400));
    assert!(reqs.contains(&DiscRequest::Pause(800)));
    assert!(!reqs.iter().any(|r| matches!(r, DiscRequest::SetAutoStart(_))));
    assert!(!reqs.iter().any(|r| matches!(r, DiscRequest::WriteFlag(_))));
}

#[test]
fn persisting_sets_each_service_to_auto_start() {
    let (_, reqs, ok) = run(true, healthy);
    assert!(ok);
    let persisted: Vec<_> = reqs.iter().filter(|r| matches!(r, DiscRequest::SetAutoStart(_))).collect();
    assert_eq!(persisted.len(), 4);
    assert_eq!(*persisted[0], DiscRequest::SetAutoStart(Service::FdpHost));
}

#[test]
fn settings_that_are_off_are_turned_on() {
    let (ups, reqs, ok) = run(false, |req, m| match req {
        DiscRequest::ReadFlag(RegFlag::Signing) => DiscEvent::FlagRead(FlagReadReport::Value(0)),
        DiscRequest::ReadFlag(RegFlag::Encryption) => DiscEvent::FlagRead(FlagReadReport::ReadFailed {
            code: 2,
            detail: "WIN32_ERROR(2)".to_string(),
        }),
        DiscRequest::QueryService(Service::SsdpSrv) => DiscEvent::ServiceState(Ok(1)),
        DiscRequest::QueryRuleGroup(RuleGroup::NetworkDiscovery) => DiscEvent::RuleGroupState(Some(false)),
        DiscRequest::AddShare => DiscEvent::ShareAdded(ShareReport::Code(2118)),
        DiscRequest::ReadForceGuest => DiscEvent::ForceGuest(ForceGuestReport::Read { queried: true, value: 1 }),
        DiscRequest::EnsureFolder => {
            assert_eq!(m.share_path(), "D:\\Users\\Public");
            DiscEvent::FolderReady(true)
        }
        other => healthy(other, m),
    });
    assert!(ok);
    assert!(reqs.contains(&DiscRequest::WriteFlag(RegFlag::Signing)));
    assert!(reqs.contains(&DiscRequest::WriteFlag(RegFlag::Encryption)));
    assert!(reqs.contains(&DiscRequest::StartService(Service::SsdpSrv)));
    assert!(reqs.contains(&DiscRequest::EnableRuleGroup(RuleGroup::NetworkDiscovery)));
    assert!(reqs.contains(&DiscRequest::ReplaceShare));
    assert!(reqs.contains(&DiscRequest::WriteForceGuest));
    assert!(ups.contains(&up(Check::SmbEncryption, CheckStatus::Enabled)));
    assert!(ups.contains(&up(Check::SsdpDiscovery, CheckStatus::Started)));
    assert!(ups.contains(&up(Check::PublicFolderSharing, CheckStatus::Enabling)));
    assert!(ups.contains(&up(Check::PasswordProtectedSharing, CheckStatus::Enabled)));
}

#[test]
fn any_failure_turns_the_verdict_false() {
    let (ups, _, ok) = run(false, |req, m| match req {
        DiscRequest::QueryRuleGroup(RuleGroup::FileAndPrinterSharing) => DiscEvent::RuleGroupState(None),
        other => healthy(other, m),
    });
    assert!(!ok);
    assert!(ups.contains(&up(Check::FileAndPrinterSharing, CheckStatus::Failed)));
    let failed = ups.iter().filter(|u| u.status == CheckStatus::Failed).count();
    assert_eq!(failed, 1);
}

#[test]
fn service_manager_failure_fails_every_service() {
    let (ups, reqs, ok) = run(false, |req, m| match req {
        DiscRequest::OpenServiceManager => DiscEvent::ServiceManager(false),
        other => healthy(other, m),
    });
    assert!(!ok);
    assert!(!reqs.iter().any(|r| matches!(r, DiscRequest::QueryService(_))));
    for c in [
        Check::FunctionDiscoveryProviderHost,
        Check::FunctionDiscoveryResourcePublication,
        Check::SsdpDiscovery,
        Check::UpnpDeviceHost,
    ] {
        assert!(ups.contains(&up(c, CheckStatus::Failed)));
    }
}

#[test]
fn a_service_that_never_starts_is_given_up() {
    let mut polls = 0;
    let (ups, reqs, ok) = run(false, |req, m| match req {
        DiscRequest::QueryService(Service::UpnpHost) => DiscEvent::ServiceState(Ok(1)),
        DiscRequest::PollService(Service::UpnpHost) => {
            polls += 1;
            DiscEvent::ServiceState(Ok(2))
        }
        other => healthy(other, m),
    });
    assert!(ok);
    assert_eq!(polls, 31);
    assert_eq!(reqs.iter().filter(|r| **r == DiscRequest::Pause(500)).count(), 30);
    assert!(ups.contains(&up(Check::UpnpDeviceHost, CheckStatus::Started)));
}

#[test]
fn refused_starts() {
    let (ups, _, ok) = run(false, |req, m| match req {
        DiscRequest::QueryService(_) => DiscEvent::ServiceState(Ok(1)),
        DiscRequest::StartService(Service::FdpHost) => DiscEvent::StartReply(StartReport::Refused {
            code: 0x80070420,
            message: "An instance of the service is already running.".to_string(),
        }),
        DiscRequest::StartService(Service::FdResPub) => DiscEvent::StartReply(StartReport::Refused {
            code: 1053,
            message: "timeout".to_string(),
        }),
        DiscRequest::StartService(Service::SsdpSrv) => DiscEvent::StartReply(StartReport::Refused {
            code: 5,
            message: "Access is denied.".to_string(),
        }),
        DiscRequest::StartService(Service::UpnpHost) => DiscEvent::StartReply(StartReport::OpenFailed),
        other => healthy(other, m),
    });
    assert!(!ok);
    assert!(ups.contains(&up(Check::FunctionDiscoveryProviderHost, CheckStatus::Started)));
    assert!(ups.contains(&up(Check::FunctionDiscoveryResourcePublication, CheckStatus::Started)));
    assert!(ups.contains(&up(Check::SsdpDiscovery, CheckStatus::Failed)));
    assert!(ups.contains(&up(Check::UpnpDeviceHost, CheckStatus::Failed)));
}

#[test]
fn other_failures() {
    let (ups, _, ok) = run(false, |req, m| match req {
        DiscRequest::ReadFlag(RegFlag::Signing) => DiscEvent::FlagRead(FlagReadReport::ReadFailed {
            code: 5,
            detail: "WIN32_ERROR(5)".to_string(),
        }),
        DiscRequest::ReadFlag(RegFlag::Encryption) => DiscEvent::FlagRead(FlagReadReport::KeyOpenFailed),
        DiscRequest::AddShare => DiscEvent::ShareAdded(ShareReport::DescriptorFailed),
        DiscRequest::ReadForceGuest => DiscEvent::ForceGuest(ForceGuestReport::KeyOpenFailed),
        other => healthy(other, m),
    });
    assert!(!ok);
    assert!(ups.contains(&up(Check::SmbSigning, CheckStatus::Failed)));
    assert!(ups.contains(&up(Check::SmbEncryption, CheckStatus::Failed)));
    assert!(ups.contains(&up(Check::PublicFolderSharing, CheckStatus::Failed)));
    assert!(ups.contains(&up(Check::PasswordProtectedSharing, CheckStatus::Failed)));
}

#[test]
fn missing_value_detection() {
    assert_eq!(
        reg_read_error_message(2, "WIN32_ERROR(2)"),
        "RegQueryValueExW failed (code 2): WIN32_ERROR(2)"
    );
    assert!(missing_value(2, "WIN32_ERROR(2)"));
    assert!(!missing_value(5, "WIN32_ERROR(5)"));
    assert!(missing_value(234, "WIN32_ERROR(234)"));
}

#[test]
fn refusal_tolerance() {
    assert!(tolerated_refusal(1056, "x"));
    assert!(tolerated_refusal(1053, "x"));
    assert!(tolerated_refusal(7, "service already running"));
    assert!(!tolerated_refusal(7, "Already"));
}

#[test]
fn public_folder_paths() {
    assert_eq!(public_folder_path(&Some("E:".to_string())), "E:\\Users\\Public");
    assert_eq!(public_folder_path(&None), "C:\\Users\\Public");
}

#[test]
fn labels_and_words() {
    assert_eq!(Check::SsdpDiscovery.label(), "SSDP Discovery");
    assert_eq!(CheckStatus::Satisfied.word(), "ok");
    assert_eq!(Service::FdResPub.name(), "FDResPub");
    assert_eq!(RegFlag::Encryption.value_name(), "EncryptData");
    assert_eq!(RuleGroup::FileAndPrinterSharing.name(), "File and Printer Sharing");
}

#[test]
fn network_reports() {
    assert_eq!(category_label(0), "Public");
    assert_eq!(category_label(1), "Private");
    assert_eq!(category_label(2), "Domain");
    assert_eq!(category_label(9), "Unknown");
    let n = network_info(None, None, None);
    assert_eq!(n.name, "");
    assert_eq!(n.category, "Unknown");
    assert!(!n.is_connected);
    let n = network_info(Some("Home".to_string()), Some(1), Some(true));
    assert_eq!((n.name.as_str(), n.category.as_str(), n.is_connected), ("Home", "Private", true));
}

#[test]
fn sharing_state_from_probe() {
    let st = get_sharing_state(SharingProbe {
        network_discovery: Some(true),
        file_sharing: None,
        public_folder_exists: true,
        force_guest: ForceGuestReport::Read { queried: true, value: 0 },
        service_states: Some(vec![Some(4), Some(1), None]),
        networks: Ok(vec![network_info(Some("Home".to_string()), Some(1), Some(true))]),
    })
    .unwrap();
    assert!(st.network_discovery_enabled);
    assert!(!st.file_sharing_enabled);
    assert!(st.public_folder_sharing);
    assert!(st.password_protected_sharing);
    assert_eq!(st.networks.len(), 1);
    assert_eq!(st.services.len(), 4);
    assert_eq!(st.services[0].name, "fdphost");
    assert_eq!(st.services[0].display_name, "Function Discovery Provider Host");
    assert!(st.services[0].running);
    assert!(!st.services[1].running);
    assert!(!st.services[3].running);
    let st = get_sharing_state(SharingProbe {
        network_discovery: None,
        file_sharing: Some(true),
        public_folder_exists: false,
        force_guest: ForceGuestReport::Read { queried: false, value: 0 },
        service_states: None,
        networks: Err("GetNetworks: x".to_string()),
    })
    .unwrap();
    assert!(!st.password_protected_sharing);
    assert!(st.file_sharing_enabled);
    assert!(st.networks.is_empty());
    assert!(st.services.iter().all(|s| !s.running));
}

#[test]
fn phase_reports_progress() {
    let (m, _) = check_and_enable_discovering(false);
    assert_eq!(m.phase(), DiscPhase::InitialPause);
    assert!(m.all_ok());
    assert!(!m.persist());
    assert!(!m.accepts(&DiscEvent::Acknowledged));
}

#[test]
fn share_failures_carry_the_code() {
    let (ups, _, ok, notes) = run_with_notes(false, |req, m| match req {
        DiscRequest::AddShare => DiscEvent::ShareAdded(ShareReport::Code(5)),
        other => healthy(other, m),
    });
    assert!(!ok);
    assert!(ups.contains(&up(Check::PublicFolderSharing, CheckStatus::Failed)));
    assert!(notes.contains(&"Public folder sharing failed: NetShareAdd: code 5".to_string()));

    let (_, reqs, ok, notes) = run_with_notes(false, |req, m| match req {
        DiscRequest::AddShare => DiscEvent::ShareAdded(ShareReport::Code(2118)),
        DiscRequest::ReplaceShare => DiscEvent::ShareReplaced(2102),
        other => healthy(other, m),
    });
    assert!(!ok);
    assert_eq!(reqs.iter().filter(|r| **r == DiscRequest::ReplaceShare).count(), 1);
    assert!(notes.contains(&"Public share exists - deleting to apply current settings".to_string()));
    assert!(notes.contains(&"Public folder sharing failed: NetShareAdd after delete: code 2102".to_string()));

    let (_, _, ok, notes) = run_with_notes(false, healthy);
    assert!(ok);
    assert!(notes.contains(&"Public share created successfully".to_string()));
}

#[test]
fn service_notes_give_each_outcome() {
    let (_, _, ok, notes) = run_with_notes(false, |req, m| match req {
        DiscRequest::QueryService(Service::FdpHost) => DiscEvent::ServiceState(Err("OpenService 'fdphost' failed: denied".to_string())),
        DiscRequest::QueryService(_) => DiscEvent::ServiceState(Ok(1)),
        DiscRequest::StartService(Service::FdResPub) => DiscEvent::StartReply(StartReport::Refused {
            code: 5,
            message: "Access is denied.".to_string(),
        }),
        DiscRequest::StartService(Service::SsdpSrv) => DiscEvent::StartReply(StartReport::Refused {
            code: 1053,
            message: "timeout".to_string(),
        }),
        DiscRequest::PollService(Service::SsdpSrv) => DiscEvent::ServiceState(Ok(2)),
        DiscRequest::PollService(Service::UpnpHost) => DiscEvent::ServiceState(Err("gone".to_string())),
        other => healthy(other, m),
    });
    assert!(!ok);
    assert!(notes.contains(&"Service 'fdphost' status query failed: OpenService 'fdphost' failed: denied".to_string()));
    assert!(notes.contains(&"Service 'FDResPub' is stopped - starting...".to_string()));
    assert!(notes.contains(&"Service 'FDResPub' start failed: StartService 'FDResPub' failed (code 5): Access is denied.".to_string()));
    assert!(notes.contains(&"start_service: 'SSDPSRV' timeout but may be starting (1053)".to_string()));
    assert!(notes.contains(&"Service 'SSDPSRV' polling: Service 'SSDPSRV' not running after 15000ms (state=2)".to_string()));
    assert!(notes.contains(&"start_service: 'upnphost' start request sent".to_string()));
    assert!(notes.contains(&"Service 'upnphost' polling: gone".to_string()));

    let (_, _, _, notes) = run_with_notes(false, healthy);
    assert!(notes.contains(&"Service 'SSDPSRV' is already running (state=4)".to_string()));
}

#[test]
fn network_enumeration_stops_at_the_end() {
    assert!(network_fetched(true, 1));
    assert!(!network_fetched(true, 0));
    assert!(!network_fetched(false, 1));
    assert!(!network_fetched(false, 0));
}

#[test]
fn a_second_run_over_a_set_up_machine_changes_nothing() {
    let (_, reqs, ok) = run(true, healthy);
    assert!(ok);
    assert!(!reqs.iter().any(|r| matches!(
        r,
        DiscRequest::WriteFlag(_)
            | DiscRequest::WriteForceGuest
            | DiscRequest::StartService(_)
            | DiscRequest::EnableRuleGroup(_)
    )));
}

#[test]
fn a_rule_group_is_enabled_only_once() {
    let mut enabled = false;
    let mut enables = 0;
    let mut env = |req: DiscRequest, m: &DiscoveringRun| match req {
        DiscRequest::QueryRuleGroup(RuleGroup::FileAndPrinterSharing) => DiscEvent::RuleGroupState(Some(enabled)),
        DiscRequest::EnableRuleGroup(RuleGroup::FileAndPrinterSharing) => {
            enables += 1;
            enabled = true;
            DiscEvent::RuleGroupEnabled(true)
        }
        other => healthy(other, m),
    };
    let (first, _, ok_first) = run(false, &mut env);
    let (second, _, ok_second) = run(false, &mut env);
    assert!(ok_first && ok_second);
    assert_eq!(enables, 1);
    assert!(first.contains(&up(Check::FileAndPrinterSharing, CheckStatus::Enabled)));
    let about_group: Vec<_> = second.iter().filter(|u| u.check == Check::FileAndPrinterSharing).collect();
    assert_eq!(
        about_group,
        vec![
            &up(Check::FileAndPrinterSharing, CheckStatus::Checking),
            &up(Check::FileAndPrinterSharing, CheckStatus::Satisfied)
        ]
    );
}
