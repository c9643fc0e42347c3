use st_server::game_mode::{
    class_list, default_excluded, default_game_classes, enabled, excluded_classes, game_classes,
    hyprland_state, identity_pid, is_game, is_kwin, kwin_load_step, kwin_report_pid,
    parse_hyprland_focus, parse_sway_focus, start, sway_state, window_identity, Compositor,
    FocusState, KwinLoad, KwinReceiver, SessionEnv,
};

fn st(fullscreen: bool, class: &str) -> FocusState {
    FocusState { fullscreen, class: class.to_string() }
}

fn lists() -> (Vec<String>, Vec<String>) {
    (default_excluded(), default_game_classes())
}

#[test]
fn fullscreen_game_is_game() {
    let (ex, ga) = lists();
    assert!(is_game(&st(true, "cs2"), &ex, &ga));
}

#[test]
fn fullscreen_browser_is_not_game() {
    let (ex, ga) = lists();
    assert!(!is_game(&st(true, "firefox"), &ex, &ga));
    assert!(!is_game(&st(true, "org.mozilla.firefox"), &ex, &ga));
}

#[test]
fn windowed_non_game_is_not_game() {
    let (ex, ga) = lists();
    assert!(!is_game(&st(false, "Alacritty"), &ex, &ga));
}

#[test]
fn windowed_steam_game_is_game() {
    // A known game class wins even when the window is not fullscreen.
    let (ex, ga) = lists();
    assert!(is_game(&st(false, "steam_app_730"), &ex, &ga));
    assert!(is_game(&st(false, "gamescope"), &ex, &ga));
}

#[test]
fn windowed_z3d_is_game() {
    let (ex, ga) = lists();
    assert!(is_game(&st(false, "z3d"), &ex, &ga));
    assert!(!is_game(&st(false, "z3d-editor"), &ex, &ga));
}

#[test]
fn window_identity_preserves_class_and_resolves_missing_app_id() {
    let pid = Some(4321);
    // The process is looked up only where the window has no class.
    assert_eq!(identity_pid("firefox", pid), None);
    assert_eq!(window_identity("firefox", None), "firefox");
    assert_eq!(window_identity("firefox", Some("other")), "firefox");
    assert_eq!(identity_pid("", pid), pid);
    assert_eq!(window_identity("", Some("some-executable")), "some-executable");
}

#[test]
fn unknown_identity_does_not_grab_even_when_fullscreen() {
    let (ex, ga) = lists();
    assert_eq!(identity_pid("", None), None);
    assert_eq!(identity_pid("", Some(0)), None);
    // No process has the largest number, so there is no executable to be found.
    assert_eq!(identity_pid("", Some(u32::MAX)), Some(u32::MAX));
    let identity = window_identity("", None);
    assert!(identity.is_empty());
    assert!(!is_game(&st(true, &identity), &ex, &ga));
}

#[test]
fn kwin_report_resolves_pid_when_app_id_is_empty() {
    let mut receiver = KwinReceiver::new();
    let pid = 4321u32;
    assert_eq!(kwin_report_pid("", &pid.to_string()), Some(pid));
    receiver.report(false, "", Some("some-executable"));
    assert!(receiver.dirty);
    assert!(!receiver.shared.fullscreen);
    assert_eq!(receiver.shared.class, window_identity("", Some("some-executable")));
    // Losing focus clears the fallback identity as well.
    assert_eq!(kwin_report_pid("", ""), None);
    receiver.report(false, "", None);
    assert!(receiver.shared.class.is_empty());
}

#[test]
fn game_class_beats_exclusion_and_fullscreen() {
    // game-class match short-circuits before the fullscreen + exclude rule.
    let (ex, ga) = lists();
    assert!(is_game(&st(false, "steam_app_42"), &ex, &ga));
}

#[test]
fn sway_reads_focused_floating_game_instead_of_nearby_browser() {
    let tree = r#"{
        "nodes": [{"app_id": "firefox", "focused": false, "fullscreen_mode": 0}],
        "floating_nodes": [{
            "fullscreen_mode": 1,
            "nodes": [{"focused": true, "app_id": null,
                "window_properties": {"class": "game-\"世界\""}}]
        }]
    }"#;
    let window = parse_sway_focus(tree).unwrap();
    let focus = sway_state(&window, None);
    assert_eq!(focus.class, "game-\"世界\"");
    assert!(focus.fullscreen);
    let (ex, ga) = lists();
    assert!(is_game(&focus, &ex, &ga));
}

#[test]
fn sway_does_not_inherit_unfocused_games_identity() {
    let tree = r#"{"nodes": [
        {"app_id": "steam_app_730", "fullscreen_mode": 1, "focused": false},
        {"app_id": "firefox", "fullscreen_mode": 1, "focused": true}
    ]}"#;
    let window = parse_sway_focus(tree).unwrap();
    let focus = sway_state(&window, None);
    let (ex, ga) = lists();
    assert!(!is_game(&focus, &ex, &ga));
}

#[test]
fn sway_clears_game_mode_on_empty_focus() {
    let (ex, ga) = lists();
    for tree in [r#"{"focused":true,"type":"workspace"}"#, r#"{"nodes":[]}"#] {
        let window = parse_sway_focus(tree).unwrap();
        assert!(!is_game(&sway_state(&window, None), &ex, &ga));
    }
    assert!(parse_sway_focus("invalid JSON").is_none());
}

#[test]
fn hyprland_window_is_read_from_json() {
    let text = r#"{"class": "cs2", "fullscreen": 2, "pid": 77}"#;
    let window = parse_hyprland_focus(text).unwrap();
    assert_eq!(window.class, "cs2");
    assert!(window.fullscreen);
    assert_eq!(window.pid, Some(77));
    let state = hyprland_state(&window, Some("ignored"));
    assert_eq!(state.class, "cs2");
    let empty = parse_hyprland_focus("{}").unwrap();
    assert_eq!(empty.class, "");
    assert!(!empty.fullscreen);
    assert!(parse_hyprland_focus("{").is_none());
}

#[test]
fn class_lists_take_extra_fragments() {
    let list = class_list(vec!["a".to_string()], Some(" Foo ,,BAR,  "));
    assert_eq!(list, vec!["a", "foo", "bar"]);
    assert_eq!(excluded_classes(None), default_excluded());
    let games = game_classes(Some("doom"));
    assert_eq!(games.len(), default_game_classes().len() + 1);
    assert!(is_game(&st(false, "DOOM-eternal"), &excluded_classes(None), &games));
}

#[test]
fn excluded_words_beat_fullscreen_but_not_game_classes() {
    let excluded = class_list(default_excluded(), Some("player"));
    assert!(!is_game(&st(true, "MediaPlayer"), &excluded, &default_game_classes()));
    assert!(is_game(&st(true, "steam_app_player"), &excluded, &default_game_classes()));
}

fn env() -> SessionEnv<'static> {
    SessionEnv {
        game_mode: None,
        hyprland: false,
        sway: false,
        desktop: None,
        kde_full_session: false,
        exclude: None,
        classes: None,
    }
}

#[test]
fn watcher_starts_on_a_known_compositor() {
    assert!(start(env()).is_none());
    assert!(enabled(None));
    assert!(!enabled(Some("0")));
    let w = start(SessionEnv { hyprland: true, sway: true, ..env() }).unwrap();
    assert_eq!(w.compositor, Compositor::Hyprland);
    let w = start(SessionEnv { sway: true, desktop: Some("KDE"), ..env() }).unwrap();
    assert_eq!(w.compositor, Compositor::Sway);
    let w = start(SessionEnv { desktop: Some("X-KDE-Plasma"), ..env() }).unwrap();
    assert_eq!(w.compositor, Compositor::Kwin);
    assert!(start(SessionEnv { sway: true, game_mode: Some("off"), ..env() }).is_none());
    assert!(is_kwin(None, true));
    assert!(!is_kwin(Some("GNOME"), false));
}

#[test]
fn watcher_tells_changes_only() {
    let mut w = start(SessionEnv { sway: true, ..env() }).unwrap();
    let game = st(true, "cs2");
    assert_eq!(w.observe(&st(false, "foot")), Some(false));
    assert_eq!(w.observe(&st(false, "kitty")), None);
    assert_eq!(w.observe(&game), Some(true));
    assert_eq!(w.observe(&game), None);
    assert_eq!(w.observe(&st(false, "foot")), Some(false));
}

#[test]
fn a_report_is_taken_up_once() {
    let mut receiver = KwinReceiver::new();
    assert!(!receiver.take_dirty());
    receiver.report(true, "cs2", None);
    assert!(receiver.take_dirty());
    assert!(!receiver.take_dirty());
    assert_eq!(receiver.shared.class, "cs2");
}

#[test]
fn the_script_is_loaded_in_twenty_tries() {
    assert_eq!(kwin_load_step(1, 0), KwinLoad::Start);
    assert_eq!(kwin_load_step(20, 7), KwinLoad::Start);
    assert_eq!(kwin_load_step(1, -1), KwinLoad::Retry);
    assert_eq!(kwin_load_step(19, -1), KwinLoad::Retry);
    assert_eq!(kwin_load_step(20, -1), KwinLoad::Fail);
}
