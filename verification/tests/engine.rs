use pds::catalog::{Catalog, Track};
use pds::display::Point;
use pds::engine::{
    load_track, Action, Controls, Engine, PlaybackCursor, TransportSignal, CHUNK_SIZE,
    FEED_DELAY_MS, HIGH_WATER_MARK, PAUSE_DELAY_MS, PROGRESS_INTERVAL_MICROS, RESTART_THRESHOLD,
};
use pds::gain::apply_gain;
use pds::state::PlaybackState;

fn ramp(len: usize, seed: u8) -> Vec<u8> {
    (0..len).map(|i| (i as u8).wrapping_mul(31).wrapping_add(seed)).collect()
}

fn catalog_with(lengths: &[usize]) -> Catalog<'static> {
    let tracks: Vec<Track> = lengths
        .iter()
        .enumerate()
        .map(|(i, len)| Track {
            index: i as u8,
            title: Box::leak(format!("track {}", i).into_boxed_str()),
            title_layout: Point { x: 0, y: 10 },
            pcm: Box::leak(ramp(*len, i as u8).into_boxed_slice()),
        })
        .collect();
    Catalog::new(tracks).unwrap()
}

fn fired(signal: TransportSignal) -> Controls {
    let mut controls = Controls::none();
    controls.signal(signal);
    controls
}

fn chunk_of(action: Action) -> Vec<u8> {
    match action {
        Action::Feed { chunk } => chunk,
        other => panic!("expected a chunk, got {:?}", other),
    }
}

#[test]
fn constants_of_the_feed_loop() {
    assert_eq!(CHUNK_SIZE, 512);
    assert_eq!(HIGH_WATER_MARK, 1024);
    assert_eq!(RESTART_THRESHOLD, 10);
    assert_eq!(FEED_DELAY_MS, 5);
    assert_eq!(PAUSE_DELAY_MS, 10);
    assert_eq!(PROGRESS_INTERVAL_MICROS, 1_000_000);
}

#[test]
fn signal_slots_hold_one_signal_per_kind() {
    let mut controls = Controls::none();
    assert_eq!(controls, Controls { toggle: false, next: false, previous: false });
    controls.signal(TransportSignal::Next);
    controls.signal(TransportSignal::Next);
    assert_eq!(controls, Controls { toggle: false, next: true, previous: false });
    assert!(!controls.try_take(TransportSignal::Previous));
    assert!(controls.try_take(TransportSignal::Next));
    assert!(!controls.try_take(TransportSignal::Next));
    controls.signal(TransportSignal::TogglePlayPause);
    controls.signal(TransportSignal::Previous);
    assert_eq!(controls, Controls { toggle: true, next: false, previous: true });
    assert!(controls.try_take(TransportSignal::TogglePlayPause));
    assert!(controls.try_take(TransportSignal::Previous));
    assert_eq!(controls, Controls::none());
}

#[test]
fn load_track_resets_cursor_and_publishes() {
    let catalog = catalog_with(&[100, 300]);
    let mut cursor = PlaybackCursor { track_index: 0, byte_offset: 40, total_len: 100 };
    let mut state = PlaybackState {
        volume: 35,
        playing: true,
        progress_percent: 40,
        current_track_index: 0,
    };
    load_track(&mut cursor, &mut state, &catalog.from_index(1));
    assert_eq!(cursor, PlaybackCursor { track_index: 1, byte_offset: 0, total_len: 300 });
    assert_eq!(
        state,
        PlaybackState { volume: 35, playing: true, progress_percent: 0, current_track_index: 1 }
    );
}

#[test]
fn progress_is_rounded_down() {
    let at = |byte_offset: usize, total_len: usize| {
        PlaybackCursor { track_index: 0, byte_offset, total_len }.progress_percent()
    };
    assert_eq!(at(0, 1000), 0);
    assert_eq!(at(9, 1000), 0);
    assert_eq!(at(10, 1000), 1);
    assert_eq!(at(109, 1000), 10);
    assert_eq!(at(999, 1000), 99);
    assert_eq!(at(1000, 1000), 100);
    assert_eq!(at(1, 3), 33);
    assert_eq!(at(usize::MAX - 1, usize::MAX), 99);
    assert_eq!(at(usize::MAX, usize::MAX), 100);
}

#[test]
fn engine_starts_where_the_state_says() {
    let catalog = catalog_with(&[100, 300]);
    let mut state = PlaybackState::new();
    state.current_track_index = 1;
    state.playing = true;
    let engine = Engine::new(&catalog, &state, 77);
    assert_eq!(
        engine,
        Engine {
            cursor: PlaybackCursor { track_index: 1, byte_offset: 0, total_len: 300 },
            playing: true,
            last_publish: 77,
        }
    );
}

#[test]
fn engine_starts_at_default_track_for_unknown_index() {
    let catalog = catalog_with(&[100, 300]);
    let mut state = PlaybackState::new();
    state.current_track_index = 9;
    let engine = Engine::new(&catalog, &state, 0);
    assert_eq!(engine.cursor, PlaybackCursor { track_index: 0, byte_offset: 0, total_len: 100 });
    assert!(!engine.playing);
    assert_eq!(state.current_track_index, 9);
}

#[test]
fn intake_without_signals_only_publishes_playing() {
    let catalog = catalog_with(&[100, 300]);
    let mut state = PlaybackState::new();
    let mut engine = Engine::new(&catalog, &state, 0);
    engine.playing = true;
    engine.cursor.byte_offset = 50;
    state.progress_percent = 50;
    let before = engine;
    let mut controls = Controls::none();
    engine.intake(&catalog, &mut state, &mut controls);
    assert_eq!(engine, before);
    assert_eq!(
        state,
        PlaybackState { volume: 50, playing: true, progress_percent: 50, current_track_index: 0 }
    );
}

#[test]
fn toggle_flips_between_playing_and_paused() {
    let catalog = catalog_with(&[100]);
    let mut state = PlaybackState::new();
    let mut engine = Engine::new(&catalog, &state, 0);
    let mut controls = fired(TransportSignal::TogglePlayPause);
    engine.intake(&catalog, &mut state, &mut controls);
    assert!(engine.playing);
    assert!(state.playing);
    assert_eq!(controls, Controls::none());
    engine.intake(&catalog, &mut state, &mut controls);
    assert!(engine.playing);
    let mut controls = fired(TransportSignal::TogglePlayPause);
    engine.intake(&catalog, &mut state, &mut controls);
    assert!(!engine.playing);
    assert!(!state.playing);
}

#[test]
fn next_while_paused_selects_following_track_and_plays() {
    let catalog = catalog_with(&[100, 300]);
    let mut state = PlaybackState::new();
    let mut engine = Engine::new(&catalog, &state, 0);
    assert!(!engine.playing);
    let mut controls = fired(TransportSignal::Next);
    engine.intake(&catalog, &mut state, &mut controls);
    assert_eq!(state.current_track_index, 1);
    assert!(state.playing);
    assert!(engine.playing);
    assert_eq!(engine.cursor, PlaybackCursor { track_index: 1, byte_offset: 0, total_len: 300 });
    assert_eq!(state.progress_percent, 0);
    assert_eq!(state.volume, 50);
}

#[test]
fn next_while_playing_keeps_playing_and_wraps() {
    let catalog = catalog_with(&[100, 300]);
    let mut state = PlaybackState::new();
    state.current_track_index = 1;
    state.playing = true;
    state.progress_percent = 42;
    let mut engine = Engine::new(&catalog, &state, 0);
    engine.cursor.byte_offset = 126;
    let mut controls = fired(TransportSignal::Next);
    engine.intake(&catalog, &mut state, &mut controls);
    assert_eq!(state.current_track_index, 0);
    assert!(state.playing);
    assert_eq!(state.progress_percent, 0);
    assert_eq!(engine.cursor, PlaybackCursor { track_index: 0, byte_offset: 0, total_len: 100 });
}

#[test]
fn previous_at_exactly_ten_percent_switches_track() {
    let catalog = catalog_with(&[500, 1000, 700]);
    let mut state = PlaybackState::new();
    state.current_track_index = 1;
    let mut engine = Engine::new(&catalog, &state, 0);
    engine.cursor.byte_offset = 100;
    assert_eq!(engine.cursor.progress_percent(), 10);
    state.progress_percent = 10;
    let mut controls = fired(TransportSignal::Previous);
    engine.intake(&catalog, &mut state, &mut controls);
    assert_eq!(engine.cursor, PlaybackCursor { track_index: 0, byte_offset: 0, total_len: 500 });
    assert_eq!(state.current_track_index, 0);
    assert_eq!(state.progress_percent, 0);
    assert!(engine.playing);
    assert!(state.playing);
}

#[test]
fn previous_just_below_eleven_percent_switches_track() {
    let catalog = catalog_with(&[500, 1000, 700]);
    let mut state = PlaybackState::new();
    state.current_track_index = 1;
    let mut engine = Engine::new(&catalog, &state, 0);
    engine.cursor.byte_offset = 109;
    let mut controls = fired(TransportSignal::Previous);
    engine.intake(&catalog, &mut state, &mut controls);
    assert_eq!(engine.cursor.track_index, 0);
    assert!(engine.playing);
}

#[test]
fn previous_at_eleven_percent_restarts_track() {
    let catalog = catalog_with(&[500, 1000, 700]);
    let mut state = PlaybackState::new();
    state.current_track_index = 1;
    state.playing = true;
    let mut engine = Engine::new(&catalog, &state, 0);
    engine.cursor.byte_offset = 110;
    assert_eq!(engine.cursor.progress_percent(), 11);
    state.progress_percent = 11;
    let mut controls = fired(TransportSignal::Previous);
    engine.intake(&catalog, &mut state, &mut controls);
    assert_eq!(engine.cursor, PlaybackCursor { track_index: 1, byte_offset: 0, total_len: 1000 });
    assert_eq!(state.current_track_index, 1);
    assert_eq!(state.progress_percent, 0);
    assert!(engine.playing);
    assert!(state.playing);
}

#[test]
fn restart_keeps_a_paused_engine_paused() {
    let catalog = catalog_with(&[500, 1000]);
    let mut state = PlaybackState::new();
    state.current_track_index = 1;
    state.progress_percent = 60;
    let mut engine = Engine::new(&catalog, &state, 0);
    engine.cursor.byte_offset = 600;
    let mut controls = fired(TransportSignal::Previous);
    engine.intake(&catalog, &mut state, &mut controls);
    assert_eq!(engine.cursor, PlaybackCursor { track_index: 1, byte_offset: 0, total_len: 1000 });
    assert!(!engine.playing);
    assert!(!state.playing);
    assert_eq!(state.progress_percent, 0);
}

#[test]
fn previous_from_first_track_wraps_to_last() {
    let catalog = catalog_with(&[500, 1000, 700]);
    let mut state = PlaybackState::new();
    let mut engine = Engine::new(&catalog, &state, 0);
    let mut controls = fired(TransportSignal::Previous);
    engine.intake(&catalog, &mut state, &mut controls);
    assert_eq!(engine.cursor, PlaybackCursor { track_index: 2, byte_offset: 0, total_len: 700 });
    assert_eq!(state.current_track_index, 2);
    assert!(state.playing);
}

#[test]
fn next_and_previous_in_one_cycle_return_to_the_start_of_the_track() {
    let catalog = catalog_with(&[500, 1000, 700]);
    let mut state = PlaybackState::new();
    state.current_track_index = 1;
    state.progress_percent = 80;
    let mut engine = Engine::new(&catalog, &state, 0);
    engine.cursor.byte_offset = 800;
    let mut controls = Controls { toggle: false, next: true, previous: true };
    engine.intake(&catalog, &mut state, &mut controls);
    assert_eq!(engine.cursor, PlaybackCursor { track_index: 1, byte_offset: 0, total_len: 1000 });
    assert_eq!(state.current_track_index, 1);
    assert_eq!(state.progress_percent, 0);
    assert!(state.playing);
}

#[test]
fn toggle_then_next_in_one_cycle_plays() {
    let catalog = catalog_with(&[500, 1000]);
    let mut state = PlaybackState::new();
    state.playing = true;
    let mut engine = Engine::new(&catalog, &state, 0);
    let mut controls = Controls { toggle: true, next: true, previous: false };
    engine.intake(&catalog, &mut state, &mut controls);
    assert!(engine.playing);
    assert_eq!(engine.cursor.track_index, 1);
}

#[test]
fn paused_engine_feeds_silence() {
    let catalog = catalog_with(&[5000]);
    let mut state = PlaybackState::new();
    let mut engine = Engine::new(&catalog, &state, 0);
    let before = (engine, state);
    let cases = [(0usize, 0usize), (1, 1), (511, 511), (512, 512), (513, 512), (16368, 512)];
    for (available, len) in cases {
        let action = engine.feed(&catalog, &mut state, available, 5_000_000);
        assert_eq!(action.delay_ms(), 10);
        assert!(matches!(action, Action::Silence { len: l } if l == len));
        assert_eq!((engine, state), before);
    }
}

#[test]
fn playing_engine_waits_for_room_above_the_high_water_mark() {
    let catalog = catalog_with(&[5000]);
    let mut state = PlaybackState::new();
    state.playing = true;
    let mut engine = Engine::new(&catalog, &state, 0);
    let before = (engine, state);
    for available in [0usize, 1, 512, 1023, 1024] {
        let action = engine.feed(&catalog, &mut state, available, 5_000_000);
        assert!(matches!(action, Action::Idle));
        assert_eq!(action.delay_ms(), 5);
        assert_eq!((engine, state), before);
    }
    let action = engine.feed(&catalog, &mut state, 1025, 0);
    assert_eq!(action.delay_ms(), 5);
    assert_eq!(chunk_of(action).len(), 512);
    assert_eq!(engine.cursor.byte_offset, 512);
}

#[test]
fn chunk_is_the_track_scaled_by_the_volume() {
    let catalog = catalog_with(&[5000]);
    let mut state = PlaybackState::new();
    state.playing = true;
    state.volume = 35;
    let mut engine = Engine::new(&catalog, &state, 0);
    let first = chunk_of(engine.feed(&catalog, &mut state, 4000, 0));
    assert_eq!(first, apply_gain(&catalog.tracks[0].pcm[0..512], 35));
    assert_ne!(first, catalog.tracks[0].pcm[0..512].to_vec());
    state.volume = 100;
    let second = chunk_of(engine.feed(&catalog, &mut state, 4000, 0));
    assert_eq!(second, catalog.tracks[0].pcm[512..1024].to_vec());
    state.volume = 0;
    let third = chunk_of(engine.feed(&catalog, &mut state, 4000, 0));
    assert_eq!(third, vec![0u8; 512]);
    assert_eq!(engine.cursor.byte_offset, 1536);
}

#[test]
fn progress_is_published_at_most_once_per_interval() {
    let catalog = catalog_with(&[10240]);
    let mut state = PlaybackState::new();
    state.playing = true;
    let mut engine = Engine::new(&catalog, &state, 1_000);
    engine.feed(&catalog, &mut state, 4000, 1_000_000);
    assert_eq!(state.progress_percent, 0);
    assert_eq!(engine.last_publish, 1_000);
    engine.feed(&catalog, &mut state, 4000, 1_001_000);
    assert_eq!(state.progress_percent, 0);
    assert_eq!(engine.last_publish, 1_000);
    engine.feed(&catalog, &mut state, 4000, 1_001_001);
    assert_eq!(engine.cursor.byte_offset, 1536);
    assert_eq!(state.progress_percent, 15);
    assert_eq!(engine.last_publish, 1_001_001);
    engine.feed(&catalog, &mut state, 4000, 2_001_001);
    assert_eq!(state.progress_percent, 15);
    engine.feed(&catalog, &mut state, 4000, 2_001_002);
    assert_eq!(engine.cursor.byte_offset, 2560);
    assert_eq!(state.progress_percent, 25);
    assert_eq!(engine.last_publish, 2_001_002);
}

#[test]
fn clock_that_runs_backwards_publishes_nothing() {
    let catalog = catalog_with(&[10240]);
    let mut state = PlaybackState::new();
    state.playing = true;
    let mut engine = Engine::new(&catalog, &state, 9_000_000);
    engine.feed(&catalog, &mut state, 4000, 0);
    assert_eq!(state.progress_percent, 0);
    assert_eq!(engine.last_publish, 9_000_000);
    assert_eq!(engine.cursor.byte_offset, 512);
}

#[test]
fn idle_and_paused_cycles_do_not_publish_progress() {
    let catalog = catalog_with(&[10240]);
    let mut state = PlaybackState::new();
    state.playing = true;
    let mut engine = Engine::new(&catalog, &state, 0);
    engine.cursor.byte_offset = 5120;
    engine.feed(&catalog, &mut state, 100, 5_000_000);
    assert_eq!(state.progress_percent, 0);
    assert_eq!(engine.last_publish, 0);
    engine.playing = false;
    engine.feed(&catalog, &mut state, 4000, 5_000_000);
    assert_eq!(state.progress_percent, 0);
    assert_eq!(engine.last_publish, 0);
}

#[test]
fn short_track_ends_paused_at_its_start() {
    let catalog = catalog_with(&[700, 300]);
    let mut state = PlaybackState::new();
    let mut engine = Engine::new(&catalog, &state, 0);
    let mut controls = fired(TransportSignal::TogglePlayPause);
    engine.intake(&catalog, &mut state, &mut controls);
    let first = chunk_of(engine.feed(&catalog, &mut state, 2048, 10));
    assert_eq!(first.len(), 512);
    assert!(engine.playing);
    assert_eq!(engine.cursor.byte_offset, 512);
    let last = chunk_of(engine.feed(&catalog, &mut state, 2048, 2_000_000));
    assert_eq!(last.len(), 188);
    assert_eq!(last, apply_gain(&catalog.tracks[0].pcm[512..700], 50));
    assert!(!engine.playing);
    assert_eq!(engine.cursor, PlaybackCursor { track_index: 0, byte_offset: 0, total_len: 700 });
    assert_eq!(engine.last_publish, 2_000_000);
    assert_eq!(
        state,
        PlaybackState { volume: 50, playing: false, progress_percent: 0, current_track_index: 0 }
    );
    let action = engine.feed(&catalog, &mut state, 2048, 2_000_010);
    assert!(matches!(action, Action::Silence { len: 512 }));
}

#[test]
fn track_of_ten_thousand_bytes_at_half_volume_plays_to_the_end() {
    let catalog = catalog_with(&[300, 10000]);
    let mut state = PlaybackState::new();
    state.current_track_index = 1;
    state.playing = true;
    assert_eq!(state.volume, 50);
    let mut engine = Engine::new(&catalog, &state, 0);
    let mut controls = Controls::none();
    let mut fed: Vec<u8> = Vec::new();
    let mut cycles = 0;
    let mut now = 0u64;
    while engine.playing {
        engine.intake(&catalog, &mut state, &mut controls);
        let offset = engine.cursor.byte_offset;
        let chunk = chunk_of(engine.feed(&catalog, &mut state, 8192, now));
        let expected_len = (10000 - offset).min(512);
        assert_eq!(chunk.len(), expected_len);
        fed.extend_from_slice(&chunk);
        cycles += 1;
        now += 5_000;
        assert!(state.progress_percent <= 100);
        assert!(cycles <= 20);
    }
    assert_eq!(cycles, 20);
    assert_eq!(fed, apply_gain(catalog.tracks[1].pcm, 50));
    assert!(!state.playing);
    assert_eq!(state.progress_percent, 0);
    assert_eq!(state.current_track_index, 1);
    assert_eq!(engine.cursor.byte_offset, 0);
}

#[test]
fn track_of_odd_length_ends_with_a_zeroed_half_sample() {
    let catalog = catalog_with(&[5]);
    let mut state = PlaybackState::new();
    state.playing = true;
    state.volume = 100;
    let mut engine = Engine::new(&catalog, &state, 0);
    let chunk = chunk_of(engine.feed(&catalog, &mut state, 2000, 0));
    let pcm = catalog.tracks[0].pcm;
    assert_eq!(chunk, vec![pcm[0], pcm[1], pcm[2], pcm[3], 0]);
    assert!(!engine.playing);
}
