use blur_launcher::adapters::{
    adapter_info, classify_adapter, classify_lowered, list_adapters, list_all_adapters,
    list_virtual_adapters, status_label, AdapterInfo, RawAdapter,
};

#[test]
fn classify_kinds() {
    assert_eq!(classify_adapter("Intel(R) Wi-Fi 6 AX201 160MHz"), "wifi");
    assert_eq!(classify_adapter("Qualcomm Wireless Network Adapter"), "wifi");
    assert_eq!(classify_adapter("Bluetooth Device (Personal Area Network)"), "bluetooth");
    assert_eq!(classify_adapter("VMware Virtual Ethernet Adapter for VMnet8"), "virtual");
    assert_eq!(classify_adapter("VirtualBox Host-Only Ethernet Adapter"), "virtual");
    assert_eq!(classify_adapter("Hyper-V Virtual Switch"), "virtual");
    assert_eq!(classify_adapter("TAP-Windows VPN Adapter"), "virtual");
    assert_eq!(classify_adapter("Microsoft Network Bridge"), "virtual");
    assert_eq!(classify_adapter("Realtek PCIe GbE Family Controller"), "ethernet");
    assert_eq!(classify_adapter(""), "ethernet");
}

#[test]
fn classify_first_rule_wins() {
    assert_eq!(classify_adapter("Virtual WiFi Miniport"), "wifi");
    assert_eq!(classify_adapter("Bluetooth VPN"), "bluetooth");
}

#[test]
fn classify_compares_in_lowercase() {
    assert_eq!(classify_adapter("VBOX NETWORK"), "virtual");
    assert_eq!(classify_lowered("VBOX NETWORK"), "ethernet");
}

#[test]
fn status_labels() {
    assert_eq!(status_label(Some(0)), "Disconnected");
    assert_eq!(status_label(Some(1)), "Connecting");
    assert_eq!(status_label(Some(2)), "Connected");
    assert_eq!(status_label(Some(7)), "Disabled");
    assert_eq!(status_label(Some(3)), "Unknown");
    assert_eq!(status_label(None), "Unknown");
}

#[test]
fn adapter_info_combines() {
    let a = adapter_info(&"VMware Network Adapter VMnet1".to_string(), Some(2));
    assert_eq!(a.name, "VMware Network Adapter VMnet1");
    assert_eq!(a.status, "Connected");
    assert_eq!(a.adapter_type, "virtual");
}

fn raw(name: Option<&str>, status: Option<u32>) -> RawAdapter {
    RawAdapter { name: name.map(|s| s.to_string()), net_connection_status: status }
}

#[test]
fn listing_skips_unnamed_and_keeps_order() {
    let r = list_all_adapters(Ok(vec![
        raw(Some("Intel Wi-Fi"), Some(2)),
        raw(None, Some(2)),
        raw(Some("VirtualBox Host-Only"), Some(7)),
    ]))
    .unwrap();
    assert_eq!(r.len(), 2);
    assert_eq!(r[0].name, "Intel Wi-Fi");
    assert_eq!(r[0].adapter_type, "wifi");
    assert_eq!(r[1].status, "Disabled");
    assert_eq!(r[1].adapter_type, "virtual");
}

#[test]
fn listing_passes_errors_on() {
    let r = list_all_adapters(Err("ExecQuery failed: x".to_string()));
    assert_eq!(r.unwrap_err(), "ExecQuery failed: x");
    let v = list_virtual_adapters(Err("Count failed: y".to_string()));
    assert_eq!(v.unwrap_err(), "Count failed: y");
}

#[test]
fn virtual_names_are_filtered() {
    let all = list_all_adapters(Ok(vec![
        raw(Some("VMware Network Adapter VMnet8"), Some(2)),
        raw(Some("Realtek Ethernet"), Some(2)),
        raw(Some("Hyper-V Virtual Ethernet Adapter"), None),
    ]));
    let names = list_virtual_adapters(all).unwrap();
    assert_eq!(names, vec!["VMware Network Adapter VMnet8", "Hyper-V Virtual Ethernet Adapter"]);
    assert_eq!(list_virtual_adapters(Ok(vec![])).unwrap().len(), 0);
}

#[test]
fn adapter_listing_log_lines() {
    let a = AdapterInfo {
        name: "Eth".to_string(),
        status: "Connected".to_string(),
        adapter_type: "ethernet".to_string(),
    };
    let lines = list_adapters(&vec![a]);
    assert_eq!(lines, vec!["list_adapters: found 1 adapter(s)", "  - Eth [Connected] (ethernet)"]);
    assert_eq!(list_adapters(&vec![]), vec!["list_adapters: found 0 adapter(s)"]);
}
