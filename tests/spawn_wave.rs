use bevy_bobs::random::RandomSource;
use bevy_bobs::spawn_wave::{OnWavesExhausted, WaveInfo, WavePhase, WaveResource};

const SECOND: u64 = 1_000_000;

fn wave(pool: &[&str], count: u32) -> WaveInfo {
    WaveInfo {
        spawn_pool: pool.iter().map(|s| s.to_string()).collect(),
        spawn_count: count,
    }
}

fn ids(events: &[bevy_bobs::spawn_wave::SpawnEvent]) -> Vec<String> {
    events.iter().map(|e| e.spawn_id.clone()).collect()
}

#[test]
fn grunt_wave_scenario() {
    let mut rng = RandomSource::from_seed(7);
    let mut w = WaveResource::new(vec![wave(&["grunt"], 3)], 5 * SECOND, SECOND, OnWavesExhausted::RepeatLast);
    let first = w.advance(5 * SECOND + SECOND / 10, &mut rng);
    assert!(first.is_empty());
    assert_eq!(w.wave_number(), 0);
    for k in 0..3 {
        let out = w.advance(SECOND + SECOND / 10, &mut rng);
        assert_eq!(ids(&out), vec!["grunt".to_string()]);
        assert_eq!(w.wave_number(), 1);
        if k < 2 {
            assert_eq!(
                w.phase(),
                WavePhase::Active { spawns_left: 2 - k, spawn_elapsed: 0 }
            );
        }
    }
    assert_eq!(w.phase(), WavePhase::Idle { cooldown_elapsed: 0 });
    // cooldown resumes on the next frame
    let out = w.advance(SECOND, &mut rng);
    assert!(out.is_empty());
    assert_eq!(w.phase(), WavePhase::Idle { cooldown_elapsed: SECOND });
}

#[test]
fn fresh_scheduler_has_no_wave() {
    let w = WaveResource::new(vec![wave(&["a"], 1)], SECOND, SECOND, OnWavesExhausted::RepeatLast);
    assert_eq!(w.current_wave_number(), None);
    assert_eq!(w.wave_number(), 0);
    assert!(w.current_wave().is_none());
    assert_eq!(w.total_waves(), 1);
}

#[test]
fn no_waves_defined_is_not_fatal() {
    let mut rng = RandomSource::from_seed(1);
    let mut w = WaveResource::default();
    assert_eq!(w.total_waves(), 0);
    assert!(w.current_wave().is_none());
    assert!(w.advance(21 * SECOND, &mut rng).is_empty());
    assert!(w.advance(SECOND, &mut rng).is_empty());
    assert_eq!(w.current_wave_number(), Some(1));
    assert!(w.current_wave().is_none());
    assert_eq!(w.phase(), WavePhase::Idle { cooldown_elapsed: 0 });
}

#[test]
fn single_wave_emits_its_count() {
    let mut rng = RandomSource::from_seed(99);
    let n = 5u32;
    let mut w = WaveResource::new(vec![wave(&["a", "b"], n)], 2 * SECOND, SECOND, OnWavesExhausted::RepeatLast);
    let mut total = 0;
    let mut frames = 0;
    // small frames: spawns come only once the interval is passed
    w.advance(3 * SECOND, &mut rng);
    loop {
        let out = w.advance(SECOND / 4, &mut rng);
        for id in ids(&out) {
            assert!(id == "a" || id == "b");
        }
        total += out.len();
        frames += 1;
        if let WavePhase::Idle { .. } = w.phase() {
            break;
        }
        assert!(frames < 1000);
    }
    assert_eq!(total, n as usize);
}

#[test]
fn pausing_freezes_and_resumes() {
    let mut rng = RandomSource::from_seed(3);
    let mut w = WaveResource::new(vec![wave(&["x"], 2)], SECOND, SECOND, OnWavesExhausted::RepeatLast);
    w.advance(2 * SECOND, &mut rng);
    w.advance(SECOND / 2, &mut rng);
    let before = w.phase();
    assert_eq!(before, WavePhase::Active { spawns_left: 2, spawn_elapsed: SECOND / 2 });
    w.pause();
    assert!(w.is_paused());
    for _ in 0..10 {
        assert!(w.advance(10 * SECOND, &mut rng).is_empty());
    }
    assert_eq!(w.phase(), before);
    assert_eq!(w.wave_number(), 1);
    w.unpause();
    let out = w.advance(SECOND / 2 + 1, &mut rng);
    assert_eq!(ids(&out), vec!["x".to_string()]);
}

#[test]
fn phase_stays_consistent() {
    let mut rng = RandomSource::from_seed(11);
    let mut w = WaveResource::new(vec![wave(&["a"], 2), wave(&[], 1), wave(&["b"], 0)], SECOND, SECOND, OnWavesExhausted::RepeatLast);
    let dts = [0, 5, SECOND, 2 * SECOND, 3, SECOND + 1, 7 * SECOND, 0, SECOND * 2];
    for i in 0..200 {
        w.advance(dts[i % dts.len()], &mut rng);
        match w.phase() {
            WavePhase::Active { spawns_left, .. } => assert!(spawns_left > 0),
            WavePhase::Idle { .. } => {}
        }
    }
}

#[test]
fn empty_pool_spends_count_without_requests() {
    let mut rng = RandomSource::from_seed(5);
    let mut w = WaveResource::new(vec![wave(&[], 2)], 0, 0, OnWavesExhausted::RepeatLast);
    assert!(w.advance(1, &mut rng).is_empty());
    assert!(w.advance(1, &mut rng).is_empty());
    assert_eq!(w.phase(), WavePhase::Active { spawns_left: 1, spawn_elapsed: 0 });
    assert!(w.advance(1, &mut rng).is_empty());
    assert_eq!(w.phase(), WavePhase::Idle { cooldown_elapsed: 0 });
}

#[test]
fn last_wave_repeats_once_waves_run_out() {
    let mut rng = RandomSource::from_seed(8);
    let mut w = WaveResource::new(vec![wave(&["a"], 1), wave(&["b"], 1)], 0, 0, OnWavesExhausted::RepeatLast);
    let mut seen = Vec::new();
    for _ in 0..12 {
        seen.extend(ids(&w.advance(1, &mut rng)));
    }
    // each wave takes two frames: one to pass the cooldown, one to spawn
    assert_eq!(seen, vec!["a", "b", "b", "b", "b", "b"]);
    assert_eq!(w.wave_number(), 6);
    assert_eq!(w.current_wave().unwrap().spawn_pool, vec!["b".to_string()]);
}

#[test]
fn default_scheduler_timings() {
    let mut rng = RandomSource::from_seed(2);
    let mut w = WaveResource::default();
    w.advance(20 * SECOND, &mut rng);
    assert_eq!(w.wave_number(), 0);
    assert_eq!(w.phase(), WavePhase::Idle { cooldown_elapsed: 20 * SECOND });
}

#[test]
fn stop_policy_starts_no_wave_after_the_last() {
    let mut rng = RandomSource::from_seed(8);
    let mut w = WaveResource::new(vec![wave(&["a"], 1), wave(&["b"], 1)], 0, 0, OnWavesExhausted::Stop);
    assert_eq!(w.on_exhausted(), OnWavesExhausted::Stop);
    let mut seen = Vec::new();
    for _ in 0..12 {
        seen.extend(ids(&w.advance(1, &mut rng)));
    }
    assert_eq!(seen, vec!["a", "b"]);
    assert_eq!(w.wave_number(), 2);
    assert_eq!(w.total_waves(), 2);
}
