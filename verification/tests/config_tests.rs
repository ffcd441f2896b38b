use blur_launcher::config::{game_dir, get_saved_path, position_window_bottom_right, Config, SessionLock};

#[test]
fn second_start_is_refused() {
    let mut g = SessionLock::new();
    assert!(!g.is_running());
    assert_eq!(g.start_lan_mode(), Ok(()));
    assert!(g.is_running());
    assert_eq!(g.start_lan_mode(), Err("Already running.".to_string()));
    g.finish();
    assert!(!g.is_running());
    assert_eq!(g.start_lan_mode(), Ok(()));
}

#[test]
fn online_fix_flag() {
    let mut c = Config::default();
    assert!(!c.get_online_fix_done());
    assert!(c.mark_online_fix_done());
    assert!(!c.mark_online_fix_done());
    assert!(c.get_online_fix_done());
    let c = Config::with_game_path("C:/Games/Blur/Blur.exe".to_string());
    assert_eq!(c.game_path.as_deref(), Some("C:/Games/Blur/Blur.exe"));
    assert!(!c.online_fix_done);
}

#[test]
fn saved_path_only_when_it_exists() {
    let c = Config { game_path: Some("X:/Blur.exe".to_string()), online_fix_done: true };
    assert_eq!(get_saved_path(&c, true), Some("X:/Blur.exe".to_string()));
    assert_eq!(get_saved_path(&c, false), None);
    assert_eq!(get_saved_path(&Config::default(), true), None);
}

#[test]
fn window_goes_to_bottom_right() {
    assert_eq!(position_window_bottom_right(0, 0, 1920, 1080, 400, 300), (1504, 730));
    assert_eq!(position_window_bottom_right(-1920, 100, 1920, 1200, 360, 640), (-376, 610));
    // Sums beyond `i32` wrap around.
    assert_eq!(position_window_bottom_right(i32::MAX, 0, 10, 0, 0, 0), (i32::MAX - 6, -50));
    assert_eq!(position_window_bottom_right(i32::MIN, 0, 0, 0, 10, 0), (i32::MAX - 25, -50));
}

#[test]
fn game_folder() {
    assert_eq!(game_dir("/games/blur/Blur.exe"), "/games/blur");
    assert_eq!(game_dir("Blur.exe"), "");
    assert_eq!(game_dir(""), ".");
    assert_eq!(game_dir("/"), ".");
}
