use blur_launcher::wmi::{
    adapter_query, disable_adapter, enable_adapter, variant_holds_text, variant_to_i32,
    variant_to_string, variant_to_u32, AdapterAction, ToggleRequest, ToggleStage,
};

#[test]
fn variants_convert() {
    assert_eq!(variant_to_u32(3, 7), Some(7));
    assert_eq!(variant_to_u32(19, 0xffff_ffff), Some(0xffff_ffff));
    assert_eq!(variant_to_u32(8, 7), None);
    assert_eq!(variant_to_i32(3, 0xffff_ffff), Ok(-1));
    assert_eq!(variant_to_i32(19, 5), Ok(5));
    assert_eq!(variant_to_i32(11, 5), Err("Unexpected VARIANT type: 11".to_string()));
    assert!(variant_holds_text(8));
    assert!(!variant_holds_text(3));
    assert_eq!(variant_to_string(8, Some("x".to_string())), Some("x".to_string()));
    assert_eq!(variant_to_string(3, Some("x".to_string())), None);
}

#[test]
fn query_quotes_the_name() {
    assert_eq!(
        adapter_query("Bob's VPN"),
        "SELECT * FROM Win32_NetworkAdapter WHERE Name = 'Bob''s VPN'"
    );
}

#[test]
fn toggle_succeeds() {
    let (mut t, first) = disable_adapter("VMnet8");
    assert!(matches!(first, ToggleRequest::Query(ref q) if q == "SELECT * FROM Win32_NetworkAdapter WHERE Name = 'VMnet8'"));
    assert_eq!(t.action, AdapterAction::Disable);
    let next = t.advance(Ok(1));
    assert!(matches!(next, ToggleRequest::Invoke(ref m) if m == "Disable"));
    assert_eq!(t.stage, ToggleStage::Invoking);
    let done = t.advance(Ok(0));
    assert!(matches!(done, ToggleRequest::Done(Ok(()))));
    assert_eq!(t.stage, ToggleStage::Finished);
}

#[test]
fn toggle_reports_missing_adapter() {
    let (mut t, _) = enable_adapter("Ghost");
    let done = t.advance(Ok(0));
    assert!(matches!(done, ToggleRequest::Done(Err(ref e)) if e == "Adapter 'Ghost' not found"));
}

#[test]
fn toggle_reports_error_code() {
    let (mut t, _) = enable_adapter("VMnet1");
    let next = t.advance(Ok(2));
    assert!(matches!(next, ToggleRequest::Invoke(ref m) if m == "Enable"));
    let done = t.advance(Ok(5));
    assert!(matches!(done, ToggleRequest::Done(Err(ref e)) if e == "Enable returned error code: 5"));
}

#[test]
fn toggle_passes_failures_on() {
    let (mut t, _) = disable_adapter("VMnet1");
    let done = t.advance(Err("ConnectServer failed: denied".to_string()));
    assert!(matches!(done, ToggleRequest::Done(Err(ref e)) if e == "ConnectServer failed: denied"));
    let (mut t, _) = disable_adapter("VMnet1");
    t.advance(Ok(1));
    let done = t.advance(Err("Value failed: x".to_string()));
    assert!(matches!(done, ToggleRequest::Done(Err(ref e)) if e == "Value failed: x"));
    let (mut t, _) = disable_adapter("VMnet1");
    t.advance(Ok(1));
    let done = t.advance(Ok(-2));
    assert!(matches!(done, ToggleRequest::Done(Err(ref e)) if e == "Disable returned error code: -2"));
}
