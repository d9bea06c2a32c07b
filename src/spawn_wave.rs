//! A wave scheduler: it decides when units spawn, in waves separated by
//! cooldowns, and which spawn identifier each unit gets.
//!
//! Time is counted in whole microseconds and handed in by the caller once
//! per frame.

use crate::random::{select_uniform, RandomSource};
use vstd::prelude::*;

verus! {

/// The cooldown between waves of a default scheduler: twenty seconds.
pub const DEFAULT_COOLDOWN_PERIOD: u64 = 20_000_000;

/// The time between spawns of a default scheduler: one second.
pub const DEFAULT_SPAWN_INTERVAL: u64 = 1_000_000;

/// A request to spawn one unit of the named kind.
pub struct SpawnEvent {
    pub spawn_id: String,
}

/// One wave: the identifiers it draws from and how many units it spawns.
pub struct WaveInfo {
    pub spawn_pool: Vec<String>,
    pub spawn_count: u32,
}

/// The two phases of the scheduler. While idle it counts the cooldown; while
/// active it counts the time since the last spawn and the spawns still owed.
#[derive(Clone, Copy, PartialEq, Eq, Debug, Structural)]
pub enum WavePhase {
    Idle { cooldown_elapsed: u64 },
    Active { spawns_left: u32, spawn_elapsed: u64 },
}

/// What the scheduler does once every defined wave has started.
#[derive(Clone, Copy, PartialEq, Eq, Debug, Structural)]
pub enum OnWavesExhausted {
    /// Keep starting waves, each a repeat of the last one defined.
    RepeatLast,
    /// Start no further wave.
    Stop,
}

/// The abstract state of a scheduler.
pub struct WaveModel {
    /// How many waves have started; zero before the first.
    pub wave_number: u32,
    pub phase: WavePhase,
    pub paused: bool,
    pub cooldown_period: u64,
    pub spawn_interval: u64,
    pub waves: Seq<WaveInfo>,
    pub on_exhausted: OnWavesExhausted,
}

/// Addition that stops at the largest `u64`.
pub open spec fn sat_add(a: u64, b: u64) -> u64 {
    if a + b > u64::MAX {
        u64::MAX
    } else {
        (a + b) as u64
    }
}

/// The index of the wave that wave number `n` uses: the waves are numbered
/// from one, and once they run out the last one repeats.
pub open spec fn wave_index(waves: Seq<WaveInfo>, n: u32) -> int {
    if n <= waves.len() {
        n - 1
    } else {
        waves.len() - 1
    }
}

/// Whether wave number `n` names a wave at all.
pub open spec fn has_wave(waves: Seq<WaveInfo>, n: u32) -> bool {
    n > 0 && waves.len() > 0
}

/// How many units wave number `n` spawns; none where it names no wave.
pub open spec fn wave_count(waves: Seq<WaveInfo>, n: u32) -> u32 {
    if has_wave(waves, n) {
        waves[wave_index(waves, n)].spawn_count
    } else {
        0
    }
}

/// The identifiers that wave number `n` draws from; none where it names no wave.
pub open spec fn wave_pool(waves: Seq<WaveInfo>, n: u32) -> Seq<String> {
    if has_wave(waves, n) {
        waves[wave_index(waves, n)].spawn_pool@
    } else {
        Seq::empty()
    }
}

/// A wave in progress always owes at least one spawn, and has a number.
pub open spec fn phase_consistent(m: WaveModel) -> bool {
    m.phase matches WavePhase::Active { spawns_left, .. } ==> spawns_left > 0 && m.wave_number > 0
}

/// The spawns still owed.
pub open spec fn spawns_owed(m: WaveModel) -> nat {
    match m.phase {
        WavePhase::Idle { .. } => 0,
        WavePhase::Active { spawns_left, .. } => spawns_left as nat,
    }
}

/// Whether the policy lets another wave start.
pub open spec fn may_start_wave(m: WaveModel) -> bool {
    m.on_exhausted == OnWavesExhausted::RepeatLast || m.wave_number < m.waves.len()
}

/// Whether a frame of `m` starts a new wave.
pub open spec fn starts_wave(m: WaveModel) -> bool {
    &&& !m.paused
    &&& m.phase matches WavePhase::Idle { cooldown_elapsed }
    &&& cooldown_elapsed > m.cooldown_period
    &&& may_start_wave(m)
}

/// The wave number after a frame of `m`.
pub open spec fn next_wave_number(m: WaveModel) -> u32 {
    if starts_wave(m) {
        if m.wave_number < u32::MAX {
            (m.wave_number + 1) as u32
        } else {
            m.wave_number
        }
    } else {
        m.wave_number
    }
}

/// One frame of `dt` microseconds: the next state, and whether a spawn is
/// due in this frame.
pub open spec fn step(m: WaveModel, dt: u64) -> (WaveModel, bool) {
    if m.paused {
        (m, false)
    } else {
        let number = next_wave_number(m);
        let phase = if starts_wave(m) {
            WavePhase::Active { spawns_left: wave_count(m.waves, number), spawn_elapsed: 0 }
        } else {
            m.phase
        };
        let (next, due) = match phase {
            WavePhase::Idle { cooldown_elapsed } => (
                WavePhase::Idle { cooldown_elapsed: sat_add(cooldown_elapsed, dt) },
                false,
            ),
            WavePhase::Active { spawns_left, spawn_elapsed } => {
                let elapsed = sat_add(spawn_elapsed, dt);
                if elapsed > m.spawn_interval && spawns_left > 0 {
                    if spawns_left == 1 {
                        (WavePhase::Idle { cooldown_elapsed: 0 }, true)
                    } else {
                        (
                            WavePhase::Active {
                                spawns_left: (spawns_left - 1) as u32,
                                spawn_elapsed: 0,
                            },
                            true,
                        )
                    }
                } else if spawns_left == 0 {
                    (WavePhase::Idle { cooldown_elapsed: 0 }, false)
                } else {
                    (WavePhase::Active { spawns_left, spawn_elapsed: elapsed }, false)
                }
            },
        };
        (WaveModel { wave_number: number, phase: next, ..m }, due)
    }
}

/// Whether a frame of `m` emits a spawn request: a spawn is due and the
/// current wave has something to draw from.
pub open spec fn emits(m: WaveModel, dt: u64) -> bool {
    step(m, dt).1 && wave_pool(m.waves, step(m, dt).0.wave_number).len() > 0
}

/// The state after a frame of each length in `dts`, in order.
pub open spec fn run(m: WaveModel, dts: Seq<u64>) -> WaveModel
    decreases dts.len(),
{
    if dts.len() == 0 {
        m
    } else {
        run(step(m, dts[0]).0, dts.drop_first())
    }
}

/// How many spawn requests the frames of `dts` emit, starting from `m`.
pub open spec fn run_requests(m: WaveModel, dts: Seq<u64>) -> nat
    decreases dts.len(),
{
    if dts.len() == 0 {
        0
    } else {
        (if emits(m, dts[0]) {
            1nat
        } else {
            0nat
        }) + run_requests(step(m, dts[0]).0, dts.drop_first())
    }
}

/// How many waves the frames of `dts` start, starting from `m`.
pub open spec fn run_waves_started(m: WaveModel, dts: Seq<u64>) -> nat
    decreases dts.len(),
{
    if dts.len() == 0 {
        0
    } else {
        (if starts_wave(m) {
            1nat
        } else {
            0nat
        }) + run_waves_started(step(m, dts[0]).0, dts.drop_first())
    }
}

/// After every frame, a wave in progress owes at least one spawn and an idle
/// scheduler owes none.
pub proof fn lemma_step_keeps_phase_consistent(m: WaveModel, dt: u64)
    requires
        phase_consistent(m),
    ensures
        phase_consistent(step(m, dt).0),
{
}

/// While paused, frames change nothing and emit nothing; once unpaused the
/// scheduler goes on exactly as if the paused frames had never happened.
pub proof fn lemma_pause_freezes(m: WaveModel, paused_dts: Seq<u64>, dts: Seq<u64>)
    requires
        !m.paused,
    ensures
        run(WaveModel { paused: true, ..m }, paused_dts) == (WaveModel { paused: true, ..m }),
        run_requests(WaveModel { paused: true, ..m }, paused_dts) == 0,
        run(WaveModel { paused: false, ..run(WaveModel { paused: true, ..m }, paused_dts) }, dts)
            == run(m, dts),
    decreases paused_dts.len(),
{
    let p = WaveModel { paused: true, ..m };
    if paused_dts.len() > 0 {
        lemma_pause_freezes(m, paused_dts.drop_first(), dts);
    }
    assert(WaveModel { paused: false, ..p } == m);
}

proof fn lemma_single_wave_step_balance(m: WaveModel, dt: u64)
    requires
        phase_consistent(m),
        m.waves.len() == 1,
        m.waves[0].spawn_pool@.len() > 0,
    ensures
        (if emits(m, dt) {
            1nat
        } else {
            0nat
        }) + spawns_owed(step(m, dt).0) == spawns_owed(m) + (if starts_wave(m) {
            m.waves[0].spawn_count as nat
        } else {
            0nat
        }),
{
    let next = step(m, dt).0;
    if !m.paused {
        let number = next_wave_number(m);
        if starts_wave(m) || m.phase is Active {
            assert(number > 0);
            assert(has_wave(m.waves, number));
            assert(wave_index(m.waves, number) == 0);
            assert(wave_pool(m.waves, number).len() > 0);
        }
        if starts_wave(m) {
            assert(wave_count(m.waves, number) == m.waves[0].spawn_count);
        }
    }
}

/// With a single wave defined whose pool is not empty, every spawn owed is
/// either emitted or still owed: requests emitted plus spawns owed at the end
/// equal spawns owed at the start plus the spawns of the waves started.
pub proof fn lemma_single_wave_requests_balance(m: WaveModel, dts: Seq<u64>)
    requires
        phase_consistent(m),
        m.waves.len() == 1,
        m.waves[0].spawn_pool@.len() > 0,
    ensures
        run_requests(m, dts) + spawns_owed(run(m, dts)) == spawns_owed(m) + run_waves_started(
            m,
            dts,
        ) * m.waves[0].spawn_count,
    decreases dts.len(),
{
    if dts.len() > 0 {
        let next = step(m, dts[0]).0;
        lemma_step_keeps_phase_consistent(m, dts[0]);
        lemma_single_wave_requests_balance(next, dts.drop_first());
        let a: nat = if starts_wave(m) {
            1nat
        } else {
            0nat
        };
        let b = run_waves_started(next, dts.drop_first());
        let c = m.waves[0].spawn_count as nat;
        assert(next.waves == m.waves);
        assert(run_waves_started(m, dts) == a + b);
        assert((a + b) * c == a * c + b * c) by (nonlinear_arith);
        lemma_single_wave_step_balance(m, dts[0]);
        assert(a * c == (if starts_wave(m) {
            c
        } else {
            0nat
        }));
        assert(run(m, dts) == run(next, dts.drop_first()));
        assert(run_requests(m, dts) == (if emits(m, dts[0]) {
            1nat
        } else {
            0nat
        }) + run_requests(next, dts.drop_first()));
        assert(run_waves_started(m, dts) * m.waves[0].spawn_count == (a + b) * c);
        assert(b * next.waves[0].spawn_count == b * c);
        assert(run_requests(m, dts) + spawns_owed(run(m, dts)) == spawns_owed(m) + (a + b) * c);
    } else {
        assert(run_waves_started(m, dts) == 0);
    }
}

/// A scheduler with a single wave of `n` spawns drawn from a non-empty pool,
/// idle at the start, that starts one wave and is idle again at the end,
/// has emitted exactly `n` spawn requests.
pub proof fn lemma_single_wave_emits_its_count(m: WaveModel, dts: Seq<u64>)
    requires
        phase_consistent(m),
        m.phase is Idle,
        m.waves.len() == 1,
        m.waves[0].spawn_pool@.len() > 0,
        run_waves_started(m, dts) == 1,
        run(m, dts).phase is Idle,
    ensures
        run_requests(m, dts) == m.waves[0].spawn_count,
{
    lemma_single_wave_requests_balance(m, dts);
}

/// Under the stop policy the wave number never passes the number of waves
/// defined.
pub proof fn lemma_stop_policy_bounds_wave_number(m: WaveModel, dt: u64)
    requires
        m.on_exhausted == OnWavesExhausted::Stop,
        m.wave_number <= m.waves.len(),
    ensures
        step(m, dt).0.wave_number <= m.waves.len(),
{
}

/// Schedules waves of spawns. Each wave starts once the cooldown has run
/// past its period (and, once the defined waves have all started, only
/// where the policy repeats the last), then emits one spawn each time the spawn interval has
/// been passed, until the wave's count is spent.
pub struct WaveResource {
    wave_number: u32,
    phase: WavePhase,
    cooldown_period: u64,
    spawn_speed: u64,
    waves: Vec<WaveInfo>,
    paused: bool,
    on_exhausted: OnWavesExhausted,
}

impl View for WaveResource {
    type V = WaveModel;

    closed spec fn view(&self) -> WaveModel {
        WaveModel {
            wave_number: self.wave_number,
            phase: self.phase,
            paused: self.paused,
            cooldown_period: self.cooldown_period,
            spawn_interval: self.spawn_speed,
            waves: self.waves@,
            on_exhausted: self.on_exhausted,
        }
    }
}

impl WaveResource {
    #[verifier::type_invariant]
    spec fn inv(self) -> bool {
        &&& phase_consistent(self@)
        &&& self.waves@.len() <= u32::MAX
    }

    /// A scheduler that has started no wave, with the given waves, cooldown
    /// period and spawn interval (both in microseconds), and what to do once
    /// the waves run out.
    pub fn new(
        waves: Vec<WaveInfo>,
        cooldown_period: u64,
        spawn_interval: u64,
        on_exhausted: OnWavesExhausted,
    ) -> (r: WaveResource)
        requires
            waves@.len() <= u32::MAX,
        ensures
            r@ == (WaveModel {
                wave_number: 0,
                phase: WavePhase::Idle { cooldown_elapsed: 0 },
                paused: false,
                cooldown_period,
                spawn_interval,
                waves: waves@,
                on_exhausted,
            }),
    {
        WaveResource {
            wave_number: 0,
            phase: WavePhase::Idle { cooldown_elapsed: 0 },
            cooldown_period,
            spawn_speed: spawn_interval,
            waves,
            paused: false,
            on_exhausted,
        }
    }

    /// The number of waves defined.
    pub fn total_waves(&self) -> (r: u32)
        ensures
            r == self@.waves.len(),
    {
        proof {
            use_type_invariant(self);
        }
        self.waves.len() as u32
    }

    /// The wave in effect: the latest started, or the last defined once they
    /// run out. Nothing before the first wave or when no wave is defined.
    pub fn current_wave(&self) -> (r: Option<&WaveInfo>)
        ensures
            r is None <==> !has_wave(self@.waves, self@.wave_number),
            r matches Some(w) ==> *w == self@.waves[wave_index(self@.waves, self@.wave_number)],
    {
        proof {
            use_type_invariant(self);
        }
        if self.wave_number == 0 || self.waves.len() == 0 {
            None
        } else {
            let total = self.waves.len() as u32;
            let n = if self.wave_number < total {
                self.wave_number
            } else {
                total
            };
            Some(&self.waves[(n - 1) as usize])
        }
    }

    /// Stops time for the scheduler.
    pub fn pause(&mut self)
        ensures
            final(self)@ == (WaveModel { paused: true, ..old(self)@ }),
    {
        proof {
            use_type_invariant(&*self);
        }
        self.paused = true;
    }

    /// Lets time run again for the scheduler.
    pub fn unpause(&mut self)
        ensures
            final(self)@ == (WaveModel { paused: false, ..old(self)@ }),
    {
        proof {
            use_type_invariant(&*self);
        }
        self.paused = false;
    }

    /// How many waves have started; zero before the first.
    pub fn wave_number(&self) -> (r: u32)
        ensures
            r == self@.wave_number,
    {
        self.wave_number
    }

    /// The number of the latest wave, or nothing before the first has started.
    pub fn current_wave_number(&self) -> (r: Option<u32>)
        ensures
            r is None <==> self@.wave_number == 0,
            r matches Some(n) ==> n == self@.wave_number,
    {
        if self.wave_number == 0 {
            None
        } else {
            Some(self.wave_number)
        }
    }

    /// Runs one frame of `dt` microseconds. Does nothing while paused.
    /// Otherwise, once idle past the cooldown period, starts the next wave
    /// unless the waves have run out and the policy is to stop;
    /// while a wave is on, counts `dt` towards the next spawn, and once the
    /// spawn interval is passed draws one identifier from the wave's pool
    /// (none from an empty pool) and counts the spawn; when the wave's count is
    /// spent it goes idle, and the cooldown counts from the next frame on.
    pub fn advance(&mut self, dt: u64, rng: &mut RandomSource) -> (r: Vec<SpawnEvent>)
        ensures
            final(self)@ == step(old(self)@, dt).0,
            r@.len() == (if emits(old(self)@, dt) { 1int } else { 0int }),
            r@.len() == 1 ==> exists|i: int|
                0 <= i < wave_pool(final(self)@.waves, final(self)@.wave_number).len()
                    && r@[0].spawn_id@ == wave_pool(
                    final(self)@.waves,
                    final(self)@.wave_number,
                )[i]@,
    {
        proof {
            use_type_invariant(&*self);
        }
        let mut out: Vec<SpawnEvent> = Vec::new();
        let ghost mut witness: int = 0;
        if self.paused {
            return out;
        }
        let mut phase = self.phase;
        if let WavePhase::Idle { cooldown_elapsed } = phase {
            if cooldown_elapsed > self.cooldown_period && (self.on_exhausted
                == OnWavesExhausted::RepeatLast || (self.wave_number as usize) < self.waves.len()) {
                self.wave_number = self.wave_number.saturating_add(1);
                let count = match self.current_wave() {
                    Some(w) => w.spawn_count,
                    None => 0,
                };
                phase = WavePhase::Active { spawns_left: count, spawn_elapsed: 0 };
            }
        }
        match phase {
            WavePhase::Idle { cooldown_elapsed } => {
                self.phase = WavePhase::Idle { cooldown_elapsed: cooldown_elapsed.saturating_add(dt) };
            },
            WavePhase::Active { spawns_left, spawn_elapsed } => {
                let elapsed = spawn_elapsed.saturating_add(dt);
                if elapsed > self.spawn_speed && spawns_left > 0 {
                    if let Some(wave) = self.current_wave() {
                        if let Some(id) = select_uniform(wave.spawn_pool.as_slice(), rng) {
                            let spawn_id = id.clone();
                            proof {
                                witness = choose|i: int|
                                    0 <= i < wave.spawn_pool@.len() && *id == wave.spawn_pool@[i];
                            }
                            out.push(SpawnEvent { spawn_id });
                        }
                    }
                    if spawns_left == 1 {
                        self.phase = WavePhase::Idle { cooldown_elapsed: 0 };
                    } else {
                        self.phase = WavePhase::Active { spawns_left: spawns_left - 1, spawn_elapsed: 0 };
                    }
                } else if spawns_left == 0 {
                    self.phase = WavePhase::Idle { cooldown_elapsed: 0 };
                } else {
                    self.phase = WavePhase::Active { spawns_left, spawn_elapsed: elapsed };
                }
            },
        }
        assert(out@.len() == 1 ==> 0 <= witness < wave_pool(self@.waves, self@.wave_number).len()
            && out@[0].spawn_id@ == wave_pool(self@.waves, self@.wave_number)[witness]@);
        out
    }

    /// What the scheduler does once every defined wave has started.
    pub fn on_exhausted(&self) -> (r: OnWavesExhausted)
        ensures
            r == self@.on_exhausted,
    {
        self.on_exhausted
    }

    /// Whether the scheduler is paused.
    pub fn is_paused(&self) -> (r: bool)
        ensures
            r == self@.paused,
    {
        self.paused
    }

    /// The current phase.
    pub fn phase(&self) -> (r: WavePhase)
        ensures
            r == self@.phase,
    {
        self.phase
    }
}

impl Default for WaveResource {
    /// No waves, a cooldown of twenty seconds and one second between spawns.
    fn default() -> (r: WaveResource)
        ensures
            r@ == (WaveModel {
                wave_number: 0,
                phase: WavePhase::Idle { cooldown_elapsed: 0 },
                paused: false,
                cooldown_period: DEFAULT_COOLDOWN_PERIOD,
                spawn_interval: DEFAULT_SPAWN_INTERVAL,
                waves: Seq::empty(),
                on_exhausted: OnWavesExhausted::RepeatLast,
            }),
    {
        WaveResource::new(
            Vec::new(),
            DEFAULT_COOLDOWN_PERIOD,
            DEFAULT_SPAWN_INTERVAL,
            OnWavesExhausted::RepeatLast,
        )
    }
}

} // verus!
