use media_shell::tray::{
    create_tray, handle_tray_event, update_tray_state, LyricControl, PlaybackControl, RepeatMode,
    TrayAction, TrayEvent, TrayItem, TrayState,
};

fn selected(state: &TrayState) -> (bool, bool, bool) {
    let l = state.render();
    (l.single_selected, l.list_selected, l.random_selected)
}

#[test]
fn initial_menu_shows_nothing_playing() {
    let state = create_tray();
    let l = state.render();
    assert_eq!(l.play, "播放");
    assert_eq!(l.song_info, "未播放");
    assert_eq!(l.platform, "来源: 未知");
    assert_eq!(selected(&state), (false, true, false));
}

#[test]
fn update_sets_labels() {
    let mut state = TrayState::new();
    let l = update_tray_state(
        &mut state,
        true,
        "random",
        Some("Song A".to_string()),
        Some("cloud".to_string()),
    );
    assert_eq!(l.play, "暂停");
    assert_eq!(l.song_info, "Song A");
    assert_eq!(l.platform, "来源: cloud");
    assert_eq!((l.single_selected, l.list_selected, l.random_selected), (false, false, true));
}

#[test]
fn absent_title_and_platform_keep_labels() {
    let mut state = TrayState::new();
    update_tray_state(&mut state, true, "list", Some("Song A".to_string()), Some("cloud".to_string()));
    let l = update_tray_state(&mut state, false, "list", None, None);
    assert_eq!(l.play, "播放");
    assert_eq!(l.song_info, "Song A");
    assert_eq!(l.platform, "来源: cloud");
}

#[test]
fn update_is_idempotent() {
    let mut state = TrayState::new();
    let a = update_tray_state(&mut state, true, "single", Some("T".to_string()), Some("P".to_string()));
    let b = update_tray_state(&mut state, true, "single", Some("T".to_string()), Some("P".to_string()));
    assert_eq!(a.play, b.play);
    assert_eq!(a.song_info, b.song_info);
    assert_eq!(a.platform, b.platform);
    assert_eq!(
        (a.single_selected, a.list_selected, a.random_selected),
        (b.single_selected, b.list_selected, b.random_selected)
    );
}

#[test]
fn repeat_selection_is_exclusive() {
    let mut state = TrayState::new();
    state.update(true, "single", None, None);
    assert_eq!(selected(&state), (true, false, false));
    state.update(true, "list", None, None);
    assert_eq!(selected(&state), (false, true, false));
}

#[test]
fn unknown_repeat_tag_keeps_selection() {
    let mut state = TrayState::new();
    state.update(false, "random", None, None);
    state.update(true, "shuffle-all", None, None);
    assert_eq!(state.repeat_mode, RepeatMode::Random);
    assert!(state.play_state);
}

#[test]
fn repeat_click_selects_at_once() {
    let mut state = TrayState::new();
    let a = handle_tray_event(&mut state, TrayEvent::MenuItemClick("singleLoop".to_string()));
    assert_eq!(a, TrayAction::PlaybackMode(RepeatMode::Single));
    assert_eq!(selected(&state), (true, false, false));
    let a = state.click("random");
    assert_eq!(a, TrayAction::PlaybackMode(RepeatMode::Random));
    assert_eq!(selected(&state), (false, false, true));
    let a = state.click("listLoop");
    assert_eq!(a, TrayAction::PlaybackMode(RepeatMode::List));
    assert_eq!(selected(&state), (false, true, false));
}

#[test]
fn playback_click_waits_for_the_shell() {
    let mut state = TrayState::new();
    let a = state.click("play");
    assert_eq!(a, TrayAction::Playback(PlaybackControl::Toggle));
    assert!(!state.play_state);
    assert_eq!(state.render().play, "播放");
    assert_eq!(state.click("prev"), TrayAction::Playback(PlaybackControl::Prev));
    assert_eq!(state.click("next"), TrayAction::Playback(PlaybackControl::Next));
}

#[test]
fn other_clicks_map_to_requests() {
    let mut state = TrayState::new();
    assert_eq!(state.click("songInfo"), TrayAction::ShowLyricView);
    assert_eq!(state.click("settings"), TrayAction::OpenSettings);
    assert_eq!(state.click("quit"), TrayAction::Quit);
    assert_eq!(state.click("desktopLyric"), TrayAction::Lyric(LyricControl::Toggle));
    assert_eq!(state.click("lockLyric"), TrayAction::Lyric(LyricControl::Lock));
    assert_eq!(state.click("platform"), TrayAction::Nothing);
    assert_eq!(state.click("nope"), TrayAction::Nothing);
    assert_eq!(handle_tray_event(&mut state, TrayEvent::LeftClick), TrayAction::Nothing);
    assert_eq!(handle_tray_event(&mut state, TrayEvent::Other), TrayAction::Nothing);
    assert_eq!(selected(&state), (false, true, false));
}

#[test]
fn tags_and_ids() {
    assert_eq!(RepeatMode::Single.tag(), "single");
    assert_eq!(RepeatMode::from_tag("list"), Some(RepeatMode::List));
    assert_eq!(RepeatMode::from_tag("List"), None);
    assert_eq!(PlaybackControl::Toggle.tag(), "toggle");
    assert_eq!(LyricControl::Lock.tag(), "lock");
    assert_eq!(TrayItem::SingleLoop.id(), "singleLoop");
    assert_eq!(TrayItem::from_id("lockLyric"), Some(TrayItem::LockLyric));
    assert_eq!(TrayItem::from_id(TrayItem::Quit.id()), Some(TrayItem::Quit));
}
