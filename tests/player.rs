use remu_playback::events::PlayerEvent;
use remu_playback::player::{PlayerAction, PlayerState};
use std::time::Duration;

fn names(actions: &[PlayerAction]) -> Vec<String> {
    actions.iter().map(|a| format!("{:?}", a)).collect()
}

fn emitted(actions: &[PlayerAction]) -> Vec<String> {
    actions
        .iter()
        .filter_map(|a| match a {
            PlayerAction::Emit(e) => Some(format!("{:?}", e)),
            _ => None,
        })
        .collect()
}

fn load_file(p: &mut PlayerState, total: Option<Duration>) -> Vec<PlayerAction> {
    let mut a = p.begin_load(false);
    a.extend(p.finish_load(total, false));
    a
}

#[test]
fn local_round_trip_events() {
    let mut p = PlayerState::new();
    assert!(p.empty());
    let a = load_file(&mut p, Some(Duration::from_secs(10)));
    assert_eq!(emitted(&a), vec!["DurationChange", "LoadedMetadata", "LoadedData"]);
    assert_eq!(
        names(&a)[3..].to_vec(),
        vec!["AppendSource".to_string(), "AppendEndedCallback".to_string()]
    );
    assert_eq!(p.duration(), Some(Duration::from_secs(10)));
    assert!(!p.empty());
    assert_eq!(emitted(&p.play()), vec!["Play"]);
    assert!(!p.ended());
    assert_eq!(emitted(&p.source_ended()), vec!["Ended"]);
    assert!(p.ended());
}

#[test]
fn load_twice_clears_once() {
    let mut p = PlayerState::new();
    let mut all = load_file(&mut p, Some(Duration::from_secs(3)));
    all.extend(load_file(&mut p, Some(Duration::from_secs(3))));
    let ev = emitted(&all);
    assert_eq!(ev.iter().filter(|e| *e == "Emptied").count(), 1);
    assert_eq!(ev.iter().filter(|e| *e == "LoadedMetadata").count(), 2);
    assert_eq!(
        ev,
        vec![
            "DurationChange",
            "LoadedMetadata",
            "LoadedData",
            "Emptied",
            "DurationChange",
            "DurationChange",
            "LoadedMetadata",
            "LoadedData"
        ]
    );
    assert!(!p.empty());
    assert_eq!(p.duration(), Some(Duration::from_secs(3)));
}

#[test]
fn autoplay_survives_reload() {
    let mut p = PlayerState::new();
    load_file(&mut p, None);
    p.play();
    let a = load_file(&mut p, None);
    assert!(names(&a).contains(&"NewSink { paused: false }".to_string()));
    assert!(!p.sink_paused());
    assert!(p.autoplay());
    p.pause();
    let b = load_file(&mut p, None);
    assert!(names(&b).contains(&"NewSink { paused: true }".to_string()));
    assert!(p.sink_paused());
    assert!(!p.autoplay());
}

#[test]
fn play_on_fresh_player_then_load_plays() {
    let mut p = PlayerState::new();
    assert!(p.sink_paused());
    p.play();
    load_file(&mut p, None);
    assert!(!p.sink_paused());
}

#[test]
fn pause_and_resume() {
    let mut p = PlayerState::new();
    load_file(&mut p, Some(Duration::from_secs(5)));
    assert_eq!(names(&p.play()), vec!["PlaySink", "Emit(Play)"]);
    assert_eq!(names(&p.pause()), vec!["PauseSink", "Emit(Pause)"]);
    assert!(p.sink_paused());
    p.play();
    assert!(!p.sink_paused());
}

#[test]
fn seek_events() {
    let p = PlayerState::new();
    assert_eq!(emitted(&p.seek_started()), vec!["Seeking"]);
    assert_eq!(emitted(&p.seek_finished(true)), vec!["Seeked"]);
    assert!(p.seek_finished(false).is_empty());
    assert_eq!(emitted(&p.volume_changed()), vec!["VolumeChange"]);
}

#[test]
fn source_switch_releases_stream() {
    let mut p = PlayerState::new();
    let mut a = p.begin_load(false);
    a.extend(p.finish_load(None, true));
    assert_eq!(names(&a).last().unwrap(), "KeepStreamHandles");
    assert!(p.streaming());
    p.play();
    let b = load_file(&mut p, Some(Duration::from_secs(1)));
    assert_eq!(
        names(&b),
        vec![
            "StopSink",
            "NewSink { paused: false }",
            "DropLoader",
            "CancelReader",
            "NotifyReaders",
            "Emit(Emptied)",
            "Emit(DurationChange)",
            "Emit(LoadedMetadata)",
            "Emit(LoadedData)",
            "AppendSource",
            "AppendEndedCallback"
        ]
    );
    assert!(!p.streaming());
}

#[test]
fn load_source_announces_start() {
    let mut p = PlayerState::new();
    load_file(&mut p, None);
    let a = p.begin_load(true);
    assert_eq!(emitted(&a), vec!["Emptied", "LoadStart"]);
}

#[test]
fn failed_load_reports_error() {
    let mut p = PlayerState::new();
    load_file(&mut p, None);
    let a = p.begin_load(false);
    assert_eq!(emitted(&a), vec!["Emptied"]);
    let e = p.load_failed("Failed to download URL".to_string());
    assert_eq!(emitted(&e), vec!["Error { message: \"Failed to download URL\" }"]);
    assert!(p.empty());
}

#[test]
fn stop_clears_and_ends_nothing() {
    let mut p = PlayerState::new();
    let a = p.clear();
    assert_eq!(names(&a), vec!["StopSink", "NewSink { paused: true }"]);
    load_file(&mut p, Some(Duration::from_secs(2)));
    p.source_ended();
    let b = p.clear();
    assert_eq!(emitted(&b), vec!["Emptied", "DurationChange"]);
    assert!(!p.ended());
    assert!(p.empty());
    assert_eq!(p.duration(), None);
    assert!(p.source_ended().is_empty());
    assert!(!p.ended());
}

#[test]
fn player_event_equality() {
    assert_eq!(PlayerEvent::Play, PlayerEvent::Play);
    assert_ne!(PlayerEvent::Play, PlayerEvent::Pause);
    let a = PlayerEvent::Error { message: "a".to_string() };
    assert_eq!(a, PlayerEvent::Error { message: "a".to_string() });
    assert_ne!(a, PlayerEvent::Error { message: "b".to_string() });
    assert_ne!(a, PlayerEvent::Emptied);
    assert_ne!(PlayerEvent::Emptied, a);
}
