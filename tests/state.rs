use server_events::state::{
    join_path, AppState, ConfigFile, ConfigRead, Error, LocalTime, MutableAppState, MuteState, Mutation,
};

fn toggle(s: MutableAppState) -> Result<(MutableAppState, ()), ()> {
    Ok((Mutation::ToggleMute.apply(s), ()))
}

#[test]
fn fresh_config_dir_loads_unmuted() {
    let state = AppState::new("/tmp/server-events".to_string(), ConfigRead::NotFound).unwrap();
    assert_eq!(state.config_dir(), "/tmp/server-events");
    assert_eq!(state.cache_dir(), "/tmp/server-events/cache");
    assert_eq!(state.config_path(), "/tmp/server-events/server_events.toml");
    assert_eq!(state.access(|s| s.muted), MuteState::Unmuted);
}

#[test]
fn toggling_twice_persists_manual_then_unmuted() {
    let state = AppState::new("cfg".to_string(), ConfigRead::NotFound).unwrap();
    let (_, first) = state.access_mut(toggle).unwrap();
    assert_eq!(first, ConfigFile { muted: MuteState::Manual });
    assert_eq!(state.access(|s| s.muted), MuteState::Manual);
    let (_, second) = state.access_mut(toggle).unwrap();
    assert_eq!(second, ConfigFile { muted: MuteState::Unmuted });
    assert_eq!(state.access(|s| s.muted), MuteState::Unmuted);
}

#[test]
fn mute_until_exit_persists_next_boot_and_restart_unmutes() {
    let state = AppState::new("cfg".to_string(), ConfigRead::NotFound).unwrap();
    let (_, doc) = state.access_mut(|s| Ok::<_, ()>((Mutation::MuteUntilExit.apply(s), ()))).unwrap();
    assert_eq!(doc, ConfigFile { muted: MuteState::NextBoot });
    assert_eq!(state.access(|s| s.muted), MuteState::NextBoot);
    let restarted = AppState::new("cfg".to_string(), ConfigRead::Found(doc)).unwrap();
    assert_eq!(restarted.access(|s| s.muted), MuteState::Unmuted);
}

#[test]
fn failing_update_keeps_state_and_returns_its_error() {
    let state = AppState::new("cfg".to_string(), ConfigRead::Found(ConfigFile { muted: MuteState::Manual })).unwrap();
    let r = state.access_mut(|_| Err::<(MutableAppState, u8), &str>("refused"));
    assert_eq!(r.unwrap_err(), "refused");
    assert_eq!(state.access(|s| s.muted), MuteState::Manual);
}

#[test]
fn access_mut_returns_value_of_update() {
    let state = AppState::new("cfg".to_string(), ConfigRead::NotFound).unwrap();
    let (v, doc) = state.access_mut(|s| Ok::<_, ()>((Mutation::ToggleMute.apply(s), 42u32))).unwrap();
    assert_eq!(v, 42);
    assert_eq!(doc.muted, MuteState::Manual);
}

#[test]
fn clones_share_the_mutable_state() {
    let state = AppState::new("cfg".to_string(), ConfigRead::NotFound).unwrap();
    let other = state.clone();
    state.access_mut(toggle).unwrap();
    assert_eq!(other.access(|s| s.muted), MuteState::Manual);
}

#[test]
fn reload_round_trip_reproduces_final_state() {
    let state = AppState::new("cfg".to_string(), ConfigRead::NotFound).unwrap();
    let mut last = ConfigFile::default();
    for _ in 0..3 {
        let (_, doc) = state.access_mut(toggle).unwrap();
        last = doc;
    }
    let reloaded = AppState::new("cfg".to_string(), ConfigRead::Found(last)).unwrap();
    assert_eq!(reloaded.access(|s| s.muted), MuteState::Manual);
    assert_eq!(reloaded.access(|s| s.muted), state.access(|s| s.muted));
}

#[test]
fn next_boot_loads_unmuted_and_stays_unmuted() {
    let first = MutableAppState::new("cfg", ConfigRead::Found(ConfigFile { muted: MuteState::NextBoot })).unwrap();
    assert_eq!(first.muted, MuteState::Unmuted);
    let second = MutableAppState::new("cfg", ConfigRead::Found(first.document())).unwrap();
    assert_eq!(second.muted, MuteState::Unmuted);
}

#[test]
fn after_state_survives_reload() {
    let t = LocalTime { secs: 1_712_841_215, nanos: 5, offset_secs: 7200 };
    let s = MutableAppState::new("cfg", ConfigRead::Found(ConfigFile { muted: MuteState::After(t) })).unwrap();
    assert_eq!(s.muted, MuteState::After(t));
    assert!(s.muted.is_muted());
    assert!(!s.muted.is_unmuted());
}

#[test]
fn failed_read_is_load_error_naming_document() {
    let r = MutableAppState::new("/home/u/.config/server-events", ConfigRead::Failed("bad toml".to_string()));
    let err = r.unwrap_err();
    assert_eq!(
        err,
        Error::ConfigLoad {
            path: "/home/u/.config/server-events/server_events.toml".to_string(),
            err: "bad toml".to_string(),
        }
    );
    assert_eq!(err.message(), "Failed to load config file '/home/u/.config/server-events/server_events.toml'");
    assert_eq!(err.cause(), "bad toml");
    let r = AppState::new("d".to_string(), ConfigRead::Failed("denied".to_string()));
    assert!(matches!(r, Err(Error::ConfigLoad { .. })));
}

#[test]
fn error_messages_name_the_path() {
    let e = Error::ConfigDirCreate { path: "a/b".to_string(), err: "x".to_string() };
    assert_eq!(e.message(), "Failed to create config directory 'a/b'");
    let e = Error::ConfigWrite { path: "a/b.toml".to_string(), err: "y".to_string() };
    assert_eq!(e.message(), "Failed to write config file to 'a/b.toml'");
    assert_eq!(e.cause(), "y");
}

#[test]
fn default_document_is_unmuted() {
    assert_eq!(ConfigFile::default().muted, MuteState::Unmuted);
}

#[test]
fn mute_predicates() {
    assert!(MuteState::Unmuted.is_unmuted());
    assert!(!MuteState::Unmuted.is_muted());
    assert!(MuteState::Manual.is_muted());
    assert!(MuteState::NextBoot.is_muted());
}

#[test]
fn mutations_apply() {
    let un = MutableAppState { muted: MuteState::Unmuted };
    assert_eq!(Mutation::ToggleMute.apply(un).muted, MuteState::Manual);
    let nb = MutableAppState { muted: MuteState::NextBoot };
    assert_eq!(Mutation::ToggleMute.apply(nb).muted, MuteState::Unmuted);
    assert_eq!(Mutation::MuteUntilExit.apply(un).muted, MuteState::NextBoot);
}

#[test]
fn join_path_places_one_separator() {
    assert_eq!(join_path("a", "b"), "a/b");
    assert_eq!(join_path("a/", "b"), "a/b");
    assert_eq!(join_path("", "b"), "b");
    assert_eq!(join_path("/", "cache"), "/cache");
}

#[test]
fn local_time_checks_its_ranges() {
    assert_eq!(LocalTime::new(10, 999_999_999, -3600), Some(LocalTime { secs: 10, nanos: 999_999_999, offset_secs: -3600 }));
    assert_eq!(LocalTime::new(10, 1_000_000_000, 0), None);
    assert_eq!(LocalTime::new(10, 0, 86_400), None);
    assert_eq!(LocalTime::new(10, 0, -86_400), None);
}

#[test]
fn access_mut_hands_back_document_of_committed_state() {
    let state = AppState::new("cfg".to_string(), ConfigRead::NotFound).unwrap();
    let t = LocalTime { secs: 100, nanos: 0, offset_secs: 0 };
    let (_, doc) = state
        .access_mut(|_| Ok::<_, ()>((MutableAppState { muted: MuteState::After(t) }, ())))
        .unwrap();
    assert_eq!(doc, ConfigFile { muted: MuteState::After(t) });
    assert_eq!(state.access(|s| s.muted), MuteState::After(t));
}
