use elixir_player::{
    first_located, first_play_step, launch_command, next_play_step, surface_target,
    toggle_pause, tracks_from_descriptors, DiscoveryEvent, DiscoveryRecord, DiscoverySession,
    EngineSlot, PlayStep, PlayerError, ProcessSlot, SurfaceHandle, SurfaceTarget, TrackDescriptor,
    DEFAULT_TIMEOUT_MS, NO_TITLE_FLAG, PLAYER_BINARIES, PLAY_AND_EXIT_FLAG, SERVICE_TYPE,
};

fn record(name: &str, host: &str, port: u16, addresses: &[&str]) -> DiscoveryRecord {
    DiscoveryRecord {
        name: name.to_string(),
        host: host.to_string(),
        port,
        addresses: addresses.iter().map(|a| a.to_string()).collect(),
    }
}

#[test]
fn xlib_zero_window_is_unavailable() {
    let r = surface_target(&SurfaceHandle::Xlib { window: 0 });
    assert_eq!(r, Err(PlayerError::SurfaceUnavailable));
}

#[test]
fn xlib_nonzero_window_binds_as_xwindow() {
    let r = surface_target(&SurfaceHandle::Xlib { window: 0x2a00007 });
    assert_eq!(r, Ok(SurfaceTarget::XWindow(0x2a00007)));
}

#[test]
fn view_handles_bind_as_native_objects() {
    assert_eq!(
        surface_target(&SurfaceHandle::AppKit { ns_view: 0x1000 }),
        Ok(SurfaceTarget::NsObject(0x1000))
    );
    assert_eq!(
        surface_target(&SurfaceHandle::UiKit { ui_view: 0x2000 }),
        Ok(SurfaceTarget::NsObject(0x2000))
    );
    assert_eq!(
        surface_target(&SurfaceHandle::Win32 { hwnd: 77 }),
        Ok(SurfaceTarget::Hwnd(77))
    );
}

#[test]
fn unknown_surface_is_unsupported() {
    assert_eq!(
        surface_target(&SurfaceHandle::Unsupported),
        Err(PlayerError::UnsupportedPlatform)
    );
}

#[test]
fn discovery_without_services_is_empty_and_bounded() {
    let mut s = DiscoverySession::new(Some(500));
    let mut elapsed: u64 = 0;
    while let Some(wait) = s.next_wait(elapsed) {
        assert!(elapsed + wait <= 500);
        s.on_event(DiscoveryEvent::Other);
        elapsed += wait;
    }
    assert_eq!(elapsed, 500);
    assert!(s.finish().is_empty());
}

#[test]
fn discovery_waits_are_capped() {
    let s = DiscoverySession::new(Some(500));
    assert_eq!(s.next_wait(0), Some(200));
    assert_eq!(s.next_wait(450), Some(50));
    assert_eq!(s.next_wait(500), None);
    assert_eq!(s.next_wait(900), None);
    let d = DiscoverySession::new(None);
    assert_eq!(DEFAULT_TIMEOUT_MS, 1200);
    assert_eq!(d.next_wait(1100), Some(100));
    assert_eq!(d.next_wait(1200), None);
}

#[test]
fn discovery_keeps_first_resolution_per_name() {
    let mut s = DiscoverySession::new(Some(1000));
    s.on_event(DiscoveryEvent::Resolved(record("a._elixir-media._tcp.local.", "first.local", 1, &["10.0.0.1"])));
    s.on_event(DiscoveryEvent::Other);
    s.on_event(DiscoveryEvent::Resolved(record("a._elixir-media._tcp.local.", "second.local", 2, &["10.0.0.2"])));
    s.on_event(DiscoveryEvent::Resolved(record("b._elixir-media._tcp.local.", "b.local", 3, &[])));
    let found = s.finish();
    assert_eq!(found.len(), 2);
    let a: Vec<&DiscoveryRecord> = found.iter().filter(|r| r.name == "a._elixir-media._tcp.local.").collect();
    assert_eq!(a.len(), 1);
    assert_eq!(a[0].host, "first.local");
    assert_eq!(a[0].port, 1);
    assert_eq!(a[0].addresses, vec!["10.0.0.1".to_string()]);
}

#[test]
fn discovery_stops_when_channel_closes() {
    let mut s = DiscoverySession::new(Some(1000));
    s.on_event(DiscoveryEvent::Resolved(record("x.local.", "x.local", 9, &[])));
    s.on_event(DiscoveryEvent::ChannelClosed);
    assert_eq!(s.next_wait(0), None);
    s.on_event(DiscoveryEvent::Resolved(record("y.local.", "y.local", 9, &[])));
    let found = s.finish();
    assert_eq!(found.len(), 1);
    assert_eq!(found[0].name, "x.local.");
}

#[test]
fn discovery_end_to_end_single_service() {
    assert_eq!(SERVICE_TYPE, "_elixir-media._tcp.local.");
    let mut s = DiscoverySession::new(Some(500));
    let mut elapsed: u64 = 0;
    let mut announced = false;
    while let Some(wait) = s.next_wait(elapsed) {
        if !announced {
            s.on_event(DiscoveryEvent::Resolved(record(
                "media._elixir-media._tcp.local.",
                "host.local",
                8080,
                &["192.168.1.10"],
            )));
            announced = true;
        } else {
            s.on_event(DiscoveryEvent::Other);
        }
        elapsed += wait;
    }
    assert!(elapsed <= 500);
    let found = s.finish();
    assert_eq!(found.len(), 1);
    assert_eq!(found[0].name, "media._elixir-media._tcp.local.");
    assert_eq!(found[0].host, "host.local");
    assert_eq!(found[0].port, 8080);
    assert_eq!(found[0].addresses, vec!["192.168.1.10".to_string()]);
}

#[test]
fn every_descriptor_becomes_a_track() {
    let descriptors = vec![
        TrackDescriptor { id: -1, name: Some("Disable".to_string()) },
        TrackDescriptor { id: 3, name: Some("English".to_string()) },
        TrackDescriptor { id: 4, name: None },
    ];
    let tracks = tracks_from_descriptors(descriptors);
    assert_eq!(tracks.len(), 3);
    assert_eq!(tracks[0].id, -1);
    assert_eq!(tracks[0].name, "Disable");
    assert_eq!(tracks[1].id, 3);
    assert_eq!(tracks[1].name, "English");
    assert_eq!(tracks[2].id, 4);
    assert_eq!(tracks[2].name, "Unknown");
}

#[test]
fn empty_descriptor_list_gives_no_tracks() {
    assert!(tracks_from_descriptors(Vec::new()).is_empty());
}

#[test]
fn toggle_pauses_playing_and_resumes_paused() {
    let t = toggle_pause(true);
    assert!(t.set_paused);
    assert!(!t.now_playing);
    let t = toggle_pause(false);
    assert!(!t.set_paused);
    assert!(t.now_playing);
}

#[test]
fn slot_constructs_once() {
    let mut slot: EngineSlot<u32> = EngineSlot::new();
    assert_eq!(slot.engine().err(), Some(PlayerError::EngineUnavailable));
    assert!(slot.ensure(|| Ok(7)));
    assert!(slot.ensure(|| -> Result<u32, PlayerError> { panic!("constructed twice") }));
    assert_eq!(slot.engine().ok(), Some(&7));
}

#[test]
fn slot_retries_after_failed_construction() {
    let mut slot: EngineSlot<u32> = EngineSlot::new();
    let mut attempts = 0;
    assert!(!slot.ensure(|| {
        attempts += 1;
        Err(PlayerError::Init)
    }));
    assert!(!slot.ensure(|| {
        attempts += 1;
        Err(PlayerError::Init)
    }));
    assert_eq!(attempts, 2);
    assert!(slot.ensure(|| Ok(11)));
    assert_eq!(slot.engine().ok(), Some(&11));
}

#[test]
fn play_sequence_in_order() {
    let surface = SurfaceHandle::Xlib { window: 5 };
    let mut step = first_play_step();
    assert_eq!(step, PlayStep::CreateMedia);
    step = next_play_step(step, &surface, true);
    assert_eq!(step, PlayStep::AttachMedia);
    step = next_play_step(step, &surface, true);
    assert_eq!(step, PlayStep::BindSurface(SurfaceTarget::XWindow(5)));
    step = next_play_step(step, &surface, true);
    assert_eq!(step, PlayStep::StartPlayback);
    step = next_play_step(step, &surface, true);
    assert_eq!(step, PlayStep::Started);
}

#[test]
fn play_sequence_failures() {
    let good = SurfaceHandle::Win32 { hwnd: 1 };
    assert_eq!(
        next_play_step(PlayStep::CreateMedia, &good, false),
        PlayStep::Failed(PlayerError::MediaCreation)
    );
    assert_eq!(
        next_play_step(PlayStep::StartPlayback, &good, false),
        PlayStep::Failed(PlayerError::PlaybackStart)
    );
    assert_eq!(
        next_play_step(PlayStep::AttachMedia, &SurfaceHandle::Xlib { window: 0 }, true),
        PlayStep::Failed(PlayerError::SurfaceUnavailable)
    );
    assert_eq!(
        next_play_step(PlayStep::AttachMedia, &SurfaceHandle::Unsupported, true),
        PlayStep::Failed(PlayerError::UnsupportedPlatform)
    );
}

#[test]
fn first_found_binary_wins() {
    assert_eq!(PLAYER_BINARIES, ["vlc", "cvlc"]);
    let r = first_located(vec![None, Some("/usr/bin/cvlc".to_string())]);
    assert_eq!(r, Ok("/usr/bin/cvlc".to_string()));
    let r = first_located(vec![Some("/usr/bin/vlc".to_string()), Some("/usr/bin/cvlc".to_string())]);
    assert_eq!(r, Ok("/usr/bin/vlc".to_string()));
    assert_eq!(first_located(vec![None, None]), Err(PlayerError::BinaryNotFound));
}

#[test]
fn launch_command_has_flags_then_url() {
    let c = launch_command("/usr/bin/vlc".to_string(), "http://host.local:8080/a.mkv");
    assert_eq!(c.program, "/usr/bin/vlc");
    assert_eq!(
        c.args,
        vec![
            PLAY_AND_EXIT_FLAG.to_string(),
            NO_TITLE_FLAG.to_string(),
            "http://host.local:8080/a.mkv".to_string()
        ]
    );
    assert_eq!(PLAY_AND_EXIT_FLAG, "--play-and-exit");
    assert_eq!(NO_TITLE_FLAG, "--no-video-title-show");
}

#[test]
fn replacing_process_releases_old_first() {
    let mut slot: ProcessSlot<u32> = ProcessSlot::new();
    assert_eq!(slot.release_for_replacement(), None);
    assert_eq!(slot.track(100), None);
    assert_eq!(slot.release_for_replacement(), Some(100));
    assert_eq!(slot.track(200), None);
    assert_eq!(slot.track(300), Some(200));
    assert_eq!(slot.stop(), Some(300));
    assert_eq!(slot.stop(), None);
}
