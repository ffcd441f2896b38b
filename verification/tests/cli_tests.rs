use blur_launcher::cli::{
    copy_files_to_game, disable_non_wifi_adapters, enable_all_adapters, get_game_path,
    interface_entry, launch_dir, load_config, multiplayer_installed, trim_trailing_nuls,
    wait_for_process, GamePathChoice, InterfaceEntry, CONFIG_FILE,
};

#[test]
fn config_text_is_trimmed() {
    assert_eq!(CONFIG_FILE, "blur.config");
    assert_eq!(load_config(Some("  D:/Blur/Blur.exe\r\n".to_string())), Some("D:/Blur/Blur.exe".to_string()));
    assert_eq!(load_config(None), None);
}

#[test]
fn game_path_choice() {
    assert!(matches!(get_game_path(Some("a".to_string()), true), GamePathChoice::UseSaved(p) if p == "a"));
    assert!(matches!(get_game_path(Some("a".to_string()), false), GamePathChoice::Prompt(Some(l)) if l == "Saved path not found: a"));
    assert!(matches!(get_game_path(None, false), GamePathChoice::Prompt(None)));
}

#[test]
fn interface_rows() {
    let name: Vec<u16> = "eth0\0\0\0".encode_utf16().collect();
    let e = interface_entry(&name, 12, 1);
    assert_eq!(e.name, "eth0");
    assert_eq!(e.friendly_name, "Interface #12");
    assert!(e.enabled);
    let bad = [0xd800u16, 0x41, 0];
    let e = interface_entry(&bad, 3, 2);
    assert_eq!(e.name, "\u{fffd}A");
    assert!(!e.enabled);
    let pair = [0xd83du16, 0xde00, 0xdc00, 0x42, 0, 0];
    let e = interface_entry(&pair, 4, 5);
    assert_eq!(e.name, "\u{1f600}\u{fffd}B");
    assert!(!e.enabled);
    assert_eq!(trim_trailing_nuls("a\0b\0"), "a\0b");
}

fn entry(friendly: &str, enabled: bool) -> InterfaceEntry {
    InterfaceEntry { name: String::new(), friendly_name: friendly.to_string(), enabled }
}

#[test]
fn adapter_selection_logs() {
    let v = vec![entry("Interface #1", true), entry("Home WiFi", true), entry("Interface #3", false)];
    assert_eq!(
        disable_non_wifi_adapters(&v),
        vec!["Disabling non-WiFi adapters...", "Disabling: Interface #1"]
    );
    assert_eq!(enable_all_adapters(&v), vec!["Re-enabling adapters...", "Enabling: Interface #3"]);
    let none = vec![entry("WIRELESS", true)];
    assert_eq!(
        disable_non_wifi_adapters(&none),
        vec!["Disabling non-WiFi adapters...", "No non-WiFi adapters to disable"]
    );
    assert_eq!(
        enable_all_adapters(&none),
        vec!["Re-enabling adapters...", "No disabled adapters to enable"]
    );
}

#[test]
fn install_decisions() {
    assert!(multiplayer_installed(&vec![true, true, true], true));
    assert!(!multiplayer_installed(&vec![true, false, true], true));
    assert!(!multiplayer_installed(&vec![true, true, true], false));
    let c = vec![("d3d9.dll".to_string(), true), ("lua5.1.dll".to_string(), false), ("amax/init.lua".to_string(), false)];
    assert_eq!(copy_files_to_game(&c), vec!["lua5.1.dll", "amax/init.lua"]);
}

#[test]
fn launch_helpers() {
    assert_eq!(wait_for_process(1234), "Wait-Process -Id 1234 -ErrorAction SilentlyContinue");
    assert_eq!(launch_dir("/games/blur/Blur.exe"), "/games/blur");
    assert_eq!(launch_dir("/"), "/");
}
