//! The breathing session: which technique is chosen, where in its cycle
//! the session stands, and what each tick does to it.
//!
//! The session keeps no clock of its own. Whoever drives it passes the
//! reading of a clock that does not run backwards, in microseconds.

use vstd::prelude::*;
use vstd::string::StringExecFns;
use ratatui::widgets::ListState;
use crate::animation::{
    breath_curve, damp_step, ease_breath, lemma_curves_end, lemma_curves_start, smooth_damp,
};
use crate::celebration::{is_burst, spark_views, CelebrationAnimation, SparkView, CELEBRATION_SECONDS};
use crate::fixed::{
    cosine, fx_add, fx_cos, fx_div, fx_mul, fx_seconds, fx_sin, fx_sub, fx_unit, minus, plus,
    seconds, sine, times, ONE,
};
use crate::particles::{life_share, phase_emitter, ParticleSystem};
use crate::techniques::{all_techniques, catalog, Phase, PhaseName, Technique};
use crate::theme::{
    blend_phase_colors, blend_vibrant_colors, dark_theme, default_theme, get_vibrant_colors,
    palette_between, vibrant, vibrant_between, Color, PhaseColors,
};

verus! {

/// The time, in seconds, in which the colors of a new phase blend in.
pub const TRANSITION_SMOOTH_TIME: i64 = 150_000;

/// How many particles the field of a session has room for.
pub const MAX_PARTICLES: usize = 150;

/// The fewest cycles a session can be set to.
pub const MIN_CYCLES: u32 = 1;

/// The most cycles a session can be set to.
pub const MAX_CYCLES: u32 = 99;

/// The cycles a session is set to before a technique is chosen.
pub const DEFAULT_CYCLES: u32 = 4;

/// Trusted: makes `ListState` of the terminal toolkit known as a type
/// whose inside is hidden. What it has selected goes by `list_selection`.
#[verifier::external_type_specification]
#[verifier::external_body]
pub struct ExListState(ListState);

/// The index that a list state has selected: what `ListState::selected`
/// of the terminal toolkit hands out for it.
pub uninterp spec fn list_selection(state: ListState) -> Option<usize>;

/// A list state as the terminal toolkit makes it by default.
///
/// Trusted: calls `ListState::default`. Nothing is claimed of the state;
/// what it selects is set right after.
#[verifier::external_body]
fn new_list_state() -> ListState {
    ListState::default()
}

/// Selects an index in a list state, or none.
///
/// Trusted: calls `ListState::select`, which stores the index as the
/// selected one.
#[verifier::external_body]
fn select_in_list(state: &mut ListState, index: Option<usize>)
    ensures
        list_selection(*final(state)) == index,
{
    state.select(index)
}

/// The index that is selected in a list state, if any.
///
/// Trusted: calls `ListState::selected`, which hands out the stored index.
#[verifier::external_body]
fn selected_in_list(state: &ListState) -> (index: Option<usize>)
    ensures
        index == list_selection(*state),
{
    state.selected()
}

/// Where a session stands.
#[derive(Debug, Clone, Copy, PartialEq, Eq, Structural)]
pub enum AppState {
    /// Choosing a technique.
    Selecting,
    /// A technique is chosen; the session has not begun.
    Ready,
    /// The session runs.
    Breathing,
    /// The session is halted and can go on.
    Paused,
    /// Every cycle is done.
    Complete,
}

/// The time from `start` to `now`; zero where `now` is the earlier.
pub open spec fn span(start: u64, now: u64) -> u64 {
    if now >= start {
        (now - start) as u64
    } else {
        0
    }
}

/// The share of `duration` that `elapsed` is, at most one. A phase of no
/// duration is over at once.
pub open spec fn progress_of(elapsed: u64, duration: u64) -> i64 {
    if duration == 0 || elapsed >= duration {
        ONE
    } else {
        ((elapsed * ONE) / (duration as int)) as i64
    }
}

/// How full the breathing circle is: it grows while inhaling, stays full
/// while holding, shrinks while exhaling and stays empty while resting.
pub open spec fn scale_of(phase: PhaseName, progress: i64) -> i64 {
    match phase {
        PhaseName::Inhale => breath_curve(progress),
        PhaseName::Hold => ONE,
        PhaseName::Exhale => minus(ONE, breath_curve(progress)),
        PhaseName::HoldAfterExhale => 0,
    }
}

/// A number of cycles changed by `delta` and held between one and
/// ninety-nine.
pub open spec fn cycles_after(target: u32, delta: i32) -> u32 {
    if target + delta < MIN_CYCLES {
        MIN_CYCLES
    } else if target + delta > MAX_CYCLES {
        MAX_CYCLES
    } else {
        (target + delta) as u32
    }
}

/// The character of a decimal digit.
pub open spec fn digit(d: int) -> char {
    if d == 0 {
        '0'
    } else if d == 1 {
        '1'
    } else if d == 2 {
        '2'
    } else if d == 3 {
        '3'
    } else if d == 4 {
        '4'
    } else if d == 5 {
        '5'
    } else if d == 6 {
        '6'
    } else if d == 7 {
        '7'
    } else if d == 8 {
        '8'
    } else {
        '9'
    }
}

/// The decimal digits of `n`.
pub open spec fn decimal(n: nat) -> Seq<char>
    decreases n,
{
    if n < 10 {
        seq![digit(n as int)]
    } else {
        decimal(n / 10).push(digit((n % 10) as int))
    }
}

/// The decimal digits of `n`, with a zero in front of a single one.
pub open spec fn two_digits(n: nat) -> Seq<char> {
    if n < 10 {
        seq!['0', digit(n as int)]
    } else {
        decimal(n)
    }
}

/// Minutes and seconds as they are shown: `MM:SS`.
pub open spec fn clock_text(mins: nat, secs: nat) -> Seq<char> {
    two_digits(mins) + seq![':'] + two_digits(secs)
}

/// The text of one decimal digit.
fn digit_text(d: u64) -> (text: &'static str)
    requires
        d < 10,
    ensures
        text@ == seq![digit(d as int)],
{
    proof {
        reveal_strlit("0");
        reveal_strlit("1");
        reveal_strlit("2");
        reveal_strlit("3");
        reveal_strlit("4");
        reveal_strlit("5");
        reveal_strlit("6");
        reveal_strlit("7");
        reveal_strlit("8");
        reveal_strlit("9");
    }
    let text = if d == 0 {
        "0"
    } else if d == 1 {
        "1"
    } else if d == 2 {
        "2"
    } else if d == 3 {
        "3"
    } else if d == 4 {
        "4"
    } else if d == 5 {
        "5"
    } else if d == 6 {
        "6"
    } else if d == 7 {
        "7"
    } else if d == 8 {
        "8"
    } else {
        "9"
    };
    assert(text@ =~= seq![digit(d as int)]);
    text
}

/// Writes the decimal digits of `n` behind `text`.
fn push_decimal(text: &mut String, n: u64)
    ensures
        final(text)@ == old(text)@ + decimal(n as nat),
    decreases n,
{
    if n >= 10 {
        push_decimal(text, n / 10);
    }
    text.append(digit_text(n % 10));
    proof {
        if n >= 10 {
            assert(final(text)@ =~= old(text)@ + decimal((n / 10) as nat).push(digit((n % 10) as int)));
        } else {
            assert(final(text)@ =~= old(text)@ + seq![digit(n as int)]);
        }
    }
}

/// Writes `n` behind `text` with at least two digits.
fn push_two_digits(text: &mut String, n: u64)
    ensures
        final(text)@ == old(text)@ + two_digits(n as nat),
{
    if n < 10 {
        text.append("0");
        proof {
            reveal_strlit("0");
        }
    }
    push_decimal(text, n);
    proof {
        if n < 10 {
            assert(final(text)@ =~= old(text)@ + seq!['0', digit(n as int)]);
        }
    }
}

/// A plain particle: no trail, one rule of motion.
#[derive(Debug, Clone, Copy, PartialEq, Eq, Structural)]
pub struct Particle {
    pub x: i64,
    pub y: i64,
    pub vx: i64,
    pub vy: i64,
    pub life: i64,
    pub max_life: i64,
    pub size: u8,
}

impl Particle {
    /// The particle `dt` microseconds later: it has moved by its
    /// velocity, its life is shorter by `dt`, and it has slowed down.
    pub open spec fn drifted(self, dt: u64) -> Particle {
        Particle {
            x: plus(self.x, times(self.vx, seconds(dt))),
            y: plus(self.y, times(self.vy, seconds(dt))),
            vx: times(self.vx, 980_000),
            vy: times(self.vy, 980_000),
            life: minus(self.life, seconds(dt)),
            max_life: self.max_life,
            size: self.size,
        }
    }

    /// A particle set off at `(x, y)` in the direction `angle`.
    pub fn new(x: i64, y: i64, angle: i64, speed: i64, life: i64) -> (p: Self)
        ensures
            p == (Particle {
                x,
                y,
                vx: times(cosine(angle), speed),
                vy: times(sine(angle), speed),
                life,
                max_life: life,
                size: 1,
            }),
    {
        Self {
            x,
            y,
            vx: fx_mul(fx_cos(angle), speed),
            vy: fx_mul(fx_sin(angle), speed),
            life,
            max_life: life,
            size: 1,
        }
    }

    /// Moves the particle on by `dt` microseconds.
    pub fn update(&mut self, dt: u64)
        ensures
            *final(self) == old(self).drifted(dt),
    {
        let step = fx_seconds(dt);
        self.x = fx_add(self.x, fx_mul(self.vx, step));
        self.y = fx_add(self.y, fx_mul(self.vy, step));
        self.life = fx_sub(self.life, step);
        self.vx = fx_mul(self.vx, 980_000);
        self.vy = fx_mul(self.vy, 980_000);
    }

    /// How opaque the particle is drawn: the share of its life it has left.
    pub fn opacity(&self) -> (share: i64)
        ensures
            share == life_share(self.life, self.max_life),
            0 <= share <= ONE,
    {
        if self.max_life == 0 {
            if self.life > 0 {
                ONE
            } else {
                0
            }
        } else {
            fx_unit(fx_div(self.life, self.max_life))
        }
    }
}

/// The state of the application.
#[derive(Debug)]
pub struct App {
    pub techniques: Vec<Technique>,
    pub selected_index: usize,
    pub list_state: ListState,
    pub technique: Option<Technique>,
    pub state: AppState,
    pub cycles_target: u32,
    pub cycles_completed: u32,
    pub current_phase_index: usize,
    /// The clock reading at which the current phase began.
    pub phase_start_time: u64,
    /// The clock reading at which the session began.
    pub session_start_time: u64,
    pub particle_system: ParticleSystem,
    /// How far the colors of the current phase have blended in.
    pub phase_transition_progress: i64,
    pub phase_transition_velocity: i64,
    pub previous_phase: Option<PhaseName>,
    pub celebration: Option<CelebrationAnimation>,
    pub show_help: bool,
    pub show_guide: bool,
    pub audio_enabled: bool,
    /// How long the phase had run when the session was paused.
    pub phase_elapsed_at_pause: u64,
    /// How long the session had run when it was paused or completed.
    pub session_elapsed_at_pause: u64,
}

/// A pause takes no time from a phase: of a phase that began at `start`,
/// was paused at `paused` and resumed at `resumed`, the time that has
/// passed at `now` is the time before the pause plus the time since the
/// resumption.
pub proof fn lemma_pause_keeps_elapsed(start: u64, paused: u64, resumed: u64, now: u64)
    requires
        start <= paused <= resumed <= now,
    ensures
        span(span(span(start, paused), resumed), now) == (paused - start) + (now - resumed),
{
}

/// Time stands still for a paused session, and a session that was paused
/// and resumed has run for as long as it ran before the pause and since
/// the resumption, whatever the time between: so the phase and the
/// session read the same as if there had been no pause.
pub proof fn lemma_pause_is_not_counted(
    running: App,
    paused: App,
    resumed: App,
    paused_at: u64,
    during: u64,
    resumed_at: u64,
    now: u64,
)
    requires
        running.state == AppState::Breathing,
        running.session_start_time <= running.phase_start_time <= paused_at <= resumed_at <= now,
        paused.toggled(running, paused_at),
        resumed.toggled(paused, resumed_at),
    ensures
        paused.phase_time(during) == running.phase_time(paused_at),
        paused.session_time(during) == running.session_time(paused_at),
        resumed.phase_time(now) == running.phase_time(paused_at) + (now - resumed_at),
        resumed.session_time(now) == running.session_time(paused_at) + (now - resumed_at),
{
}

/// The breathing circle is empty when inhaling begins and full when it
/// ends, full all through a hold, full when exhaling begins and empty
/// when it ends, and empty all through a rest.
pub proof fn lemma_scale_at_phase_ends(elapsed: u64, duration: u64)
    requires
        duration > 0,
    ensures
        scale_of(PhaseName::Inhale, progress_of(0, duration)) == 0,
        elapsed >= duration ==> scale_of(PhaseName::Inhale, progress_of(elapsed, duration)) == ONE,
        scale_of(PhaseName::Hold, progress_of(elapsed, duration)) == ONE,
        scale_of(PhaseName::Exhale, progress_of(0, duration)) == ONE,
        elapsed >= duration ==> scale_of(PhaseName::Exhale, progress_of(elapsed, duration)) == 0,
        scale_of(PhaseName::HoldAfterExhale, progress_of(elapsed, duration)) == 0,
{
    lemma_curves_start();
    lemma_curves_end();
    assert((0 * ONE) / (duration as int) == 0);
}

impl App {
    /// The list is not empty, the selection lies in it, a technique is
    /// chosen exactly when the session is past selecting, the phase index
    /// lies in the phases of the technique, and the particle field is
    /// within its bound.
    pub open spec fn well_formed(&self) -> bool {
        &&& self.techniques@.len() > 0
        &&& self.selected_index < self.techniques@.len()
        &&& forall|i: int|
            0 <= i < self.techniques@.len() ==> (#[trigger] self.techniques@[i]).well_formed()
        &&& list_selection(self.list_state) == Some(self.selected_index)
        &&& self.state != AppState::Selecting <==> self.technique is Some
        &&& self.technique is Some ==> {
            &&& self.technique->Some_0.well_formed()
            &&& self.current_phase_index < self.technique->Some_0.phases@.len()
        }
        &&& self.technique is None ==> self.current_phase_index == 0
        &&& (self.state == AppState::Breathing || self.state == AppState::Paused) ==> (
        self.cycles_completed < self.cycles_target || self.cycles_completed == 0)
        &&& self.particle_system.well_formed()
    }

    /// The phase the session is in.
    pub open spec fn phase(&self) -> Phase
        recommends
            self.technique is Some,
    {
        self.technique->Some_0.phases@[self.current_phase_index as int]
    }

    /// How long the current phase has run at the clock reading `now`.
    pub open spec fn phase_time(&self, now: u64) -> u64 {
        if self.state == AppState::Paused {
            self.phase_elapsed_at_pause
        } else {
            span(self.phase_start_time, now)
        }
    }

    /// How long the session has run at the clock reading `now`.
    pub open spec fn session_time(&self, now: u64) -> u64 {
        if self.state == AppState::Paused || self.state == AppState::Complete {
            self.session_elapsed_at_pause
        } else {
            span(self.session_start_time, now)
        }
    }

    /// The breathing scale of the current phase at the clock reading `now`.
    pub open spec fn scale(&self, now: u64) -> i64
        recommends
            self.technique is Some,
    {
        scale_of(self.phase().name, progress_of(self.phase_time(now), self.phase().duration_micros))
    }

    /// The current phase has run its time.
    pub open spec fn phase_due(&self, now: u64) -> bool {
        self.phase_time(now) >= self.phase().duration_micros
    }

    /// The current phase is the last of its cycle.
    pub open spec fn ends_cycle(&self) -> bool {
        self.current_phase_index + 1 >= self.technique->Some_0.phases@.len()
    }

    /// The current phase is the last of the session.
    pub open spec fn ends_session(&self) -> bool {
        self.ends_cycle() && self.cycles_completed + 1 >= self.cycles_target
    }

    /// `self` and `before` differ at most in what a tick or a phase
    /// change touches.
    pub open spec fn same_setup(&self, before: App) -> bool {
        &&& self.techniques == before.techniques
        &&& self.selected_index == before.selected_index
        &&& self.list_state == before.list_state
        &&& self.technique == before.technique
        &&& self.cycles_target == before.cycles_target
        &&& self.session_start_time == before.session_start_time
        &&& self.show_help == before.show_help
        &&& self.show_guide == before.show_guide
        &&& self.audio_enabled == before.audio_enabled
        &&& self.phase_elapsed_at_pause == before.phase_elapsed_at_pause
        &&& self.particle_system.max_particles == before.particle_system.max_particles
        &&& self.particle_system.center_x == before.particle_system.center_x
        &&& self.particle_system.center_y == before.particle_system.center_y
    }

    /// `self` is `before` after the change to the next phase at the clock
    /// reading `now`.
    ///
    /// The phase that ends is remembered for the blend. The index moves
    /// on and wraps at the end of the cycle, which counts the cycle.
    /// Where that was the last cycle the session is complete: its time is
    /// captured and a celebration is set off at the origin, and nothing
    /// else is reset. Otherwise the new phase begins now, its colors
    /// begin to blend in, and the particle field gets the emitter of the
    /// new phase.
    pub open spec fn advanced(&self, before: App, now: u64) -> bool {
        &&& self.same_setup(before)
        &&& self.previous_phase == Some(before.phase().name)
        &&& self.current_phase_index == if before.ends_cycle() {
            0
        } else {
            before.current_phase_index + 1
        }
        &&& self.cycles_completed == if before.ends_cycle() {
            before.cycles_completed + 1
        } else {
            before.cycles_completed as int
        }
        &&& self.particle_system.particles == before.particle_system.particles
        &&& if before.ends_session() {
            &&& self.state == AppState::Complete
            &&& self.session_elapsed_at_pause == span(before.session_start_time, now)
            &&& self.celebration is Some
            &&& is_burst(
                Seq::<SparkView>::empty(),
                spark_views(self.celebration->Some_0.particles@),
                0,
                0,
            )
            &&& self.celebration->Some_0.burst_complete
            &&& self.celebration->Some_0.progress == 0
            &&& self.celebration->Some_0.duration == CELEBRATION_SECONDS
            &&& self.celebration->Some_0.center_x == 0
            &&& self.celebration->Some_0.center_y == 0
            &&& self.phase_start_time == before.phase_start_time
            &&& self.phase_transition_progress == before.phase_transition_progress
            &&& self.phase_transition_velocity == before.phase_transition_velocity
            &&& self.particle_system.emitters == before.particle_system.emitters
        } else {
            &&& self.state == before.state
            &&& self.session_elapsed_at_pause == before.session_elapsed_at_pause
            &&& self.celebration == before.celebration
            &&& self.phase_start_time == now
            &&& self.phase_transition_progress == 0
            &&& self.phase_transition_velocity == 0
            &&& self.particle_system.emitters@ == seq![
                phase_emitter(
                    self.phase().name,
                    self.scale(now),
                    before.particle_system.center_x,
                    before.particle_system.center_y,
                ),
            ]
        }
    }

    /// The celebration `after` is what a tick of `dt` microseconds makes
    /// of `before`: it runs on, and it is dropped once it is over.
    pub open spec fn celebration_follows(
        before: Option<CelebrationAnimation>,
        after: Option<CelebrationAnimation>,
        dt: u64,
    ) -> bool {
        match before {
            None => after is None,
            Some(b) => match after {
                Some(a) => a.follows(b, dt) && !a.finished(),
                None => exists|a: CelebrationAnimation| #[trigger] a.follows(b, dt) && a.finished(),
            },
        }
    }

    /// `self` is `before` after the part of a tick of `dt` microseconds
    /// that changes no phase: the celebration runs on; and while the
    /// session runs, the blend moves toward one and the particle field
    /// is updated.
    pub open spec fn ticked_in_place(&self, before: App, dt: u64) -> bool {
        &&& self.same_setup(before)
        &&& Self::celebration_follows(before.celebration, self.celebration, dt)
        &&& self.state == before.state
        &&& self.cycles_completed == before.cycles_completed
        &&& self.current_phase_index == before.current_phase_index
        &&& self.phase_start_time == before.phase_start_time
        &&& self.previous_phase == before.previous_phase
        &&& self.session_elapsed_at_pause == before.session_elapsed_at_pause
        &&& if before.state == AppState::Breathing {
            &&& (self.phase_transition_progress, self.phase_transition_velocity) == if
                before.phase_transition_progress < ONE {
                damp_step(
                    before.phase_transition_progress,
                    ONE,
                    before.phase_transition_velocity,
                    TRANSITION_SMOOTH_TIME,
                    dt,
                )
            } else {
                (before.phase_transition_progress, before.phase_transition_velocity)
            }
            &&& self.particle_system.particles_follow(before.particle_system, dt)
            &&& self.particle_system.emitters_follow(before.particle_system, dt)
        } else {
            &&& self.phase_transition_progress == before.phase_transition_progress
            &&& self.phase_transition_velocity == before.phase_transition_velocity
            &&& self.particle_system == before.particle_system
        }
    }
}

impl App {
    fn with_setup(techniques: Vec<Technique>, technique: Option<Technique>, state: AppState, cycles_target: u32) -> (app:
        Self)
        requires
            techniques@.len() > 0,
        ensures
            app.techniques == techniques,
            app.selected_index == 0,
            list_selection(app.list_state) == Some(0usize),
            app.technique == technique,
            app.state == state,
            app.cycles_target == cycles_target,
            app.cycles_completed == 0,
            app.current_phase_index == 0,
            app.phase_start_time == 0,
            app.session_start_time == 0,
            app.particle_system.particles@.len() == 0,
            app.particle_system.emitters@.len() == 0,
            app.particle_system.max_particles == MAX_PARTICLES,
            app.particle_system.center_x == 0,
            app.particle_system.center_y == 0,
            app.phase_transition_progress == ONE,
            app.phase_transition_velocity == 0,
            app.previous_phase is None,
            app.celebration is None,
            !app.show_help,
            !app.show_guide,
            app.audio_enabled,
            app.phase_elapsed_at_pause == 0,
            app.session_elapsed_at_pause == 0,
    {
        let mut list_state = new_list_state();
        select_in_list(&mut list_state, Some(0));
        Self {
            techniques,
            selected_index: 0,
            list_state,
            technique,
            state,
            cycles_target,
            cycles_completed: 0,
            current_phase_index: 0,
            phase_start_time: 0,
            session_start_time: 0,
            particle_system: ParticleSystem::new(MAX_PARTICLES),
            phase_transition_progress: ONE,
            phase_transition_velocity: 0,
            previous_phase: None,
            celebration: None,
            show_help: false,
            show_guide: false,
            audio_enabled: true,
            phase_elapsed_at_pause: 0,
            session_elapsed_at_pause: 0,
        }
    }

    /// Tests whether the state is well formed. Whoever changes the fields
    /// by hand can ask before calling what needs a well-formed state.
    pub fn is_well_formed(&self) -> (ok: bool)
        ensures
            ok == self.well_formed(),
    {
        if self.techniques.len() == 0 || self.selected_index >= self.techniques.len() {
            return false;
        }
        let mut i: usize = 0;
        while i < self.techniques.len()
            invariant
                i <= self.techniques@.len(),
                forall|j: int| 0 <= j < i ==> (#[trigger] self.techniques@[j]).well_formed(),
            decreases self.techniques@.len() - i,
        {
            if self.techniques[i].phases.len() == 0 {
                return false;
            }
            i += 1;
        }
        let selected = selected_in_list(&self.list_state);
        let selection_ok = match selected {
            Some(index) => index == self.selected_index,
            None => false,
        };
        let technique_ok = match &self.technique {
            Some(technique) => self.state != AppState::Selecting && technique.phases.len() > 0
                && self.current_phase_index < technique.phases.len(),
            None => self.state == AppState::Selecting && self.current_phase_index == 0,
        };
        let running = self.state == AppState::Breathing || self.state == AppState::Paused;
        let cycles_ok = !running || self.cycles_completed < self.cycles_target
            || self.cycles_completed == 0;
        selection_ok && technique_ok && cycles_ok && self.particle_system.is_well_formed()
    }

    /// Nothing has happened yet: the whole catalog is listed and its first
    /// entry selected, no cycle is done, the clock readings are zero, the
    /// particle field is empty and has no emitters, no blend is under
    /// way, there is no celebration, and only the sound is switched on.
    pub open spec fn untouched(&self) -> bool {
        &&& self.techniques@.len() == catalog().len()
        &&& forall|i: int|
            0 <= i < self.techniques@.len() ==> (#[trigger] self.techniques@[i]).summary()
                == catalog()[i]
        &&& self.selected_index == 0
        &&& self.cycles_completed == 0
        &&& self.current_phase_index == 0
        &&& self.phase_start_time == 0
        &&& self.session_start_time == 0
        &&& self.particle_system.particles@.len() == 0
        &&& self.particle_system.emitters@.len() == 0
        &&& self.particle_system.max_particles == MAX_PARTICLES
        &&& self.particle_system.center_x == 0
        &&& self.particle_system.center_y == 0
        &&& self.phase_transition_progress == ONE
        &&& self.phase_transition_velocity == 0
        &&& self.previous_phase is None
        &&& self.celebration is None
        &&& !self.show_help
        &&& !self.show_guide
        &&& self.audio_enabled
        &&& self.phase_elapsed_at_pause == 0
        &&& self.session_elapsed_at_pause == 0
    }

    /// The application as it starts without a technique: the catalog to
    /// choose from, the first entry selected.
    pub fn new_interactive() -> (app: Self)
        ensures
            app.well_formed(),
            app.untouched(),
            app.state == AppState::Selecting,
            app.technique is None,
            app.cycles_target == DEFAULT_CYCLES,
    {
        let techniques = all_techniques();
        Self::with_setup(techniques, None, AppState::Selecting, DEFAULT_CYCLES)
    }

    /// The application as it starts with a technique given: ready to
    /// begin, for `cycles` cycles or, where that is zero, for as many as
    /// the technique calls for.
    pub fn new_with_technique(technique: Technique, cycles: u32) -> (app: Self)
        requires
            technique.well_formed(),
        ensures
            app.well_formed(),
            app.untouched(),
            app.state == AppState::Ready,
            app.technique == Some(technique),
            app.cycles_target == if cycles > 0 {
                cycles
            } else {
                technique.default_cycles
            },
    {
        let cycles_target = if cycles > 0 {
            cycles
        } else {
            technique.default_cycles
        };
        let techniques = all_techniques();
        Self::with_setup(techniques, Some(technique), AppState::Ready, cycles_target)
    }

    /// The technique that the selection points at.
    pub fn selected_technique(&self) -> (t: &Technique)
        requires
            self.selected_index < self.techniques@.len(),
        ensures
            *t == self.techniques@[self.selected_index as int],
    {
        &self.techniques[self.selected_index]
    }

    /// The technique of the session.
    pub fn current_technique(&self) -> (t: &Technique)
        requires
            self.technique is Some,
        ensures
            *t == self.technique->Some_0,
    {
        self.technique.as_ref().unwrap()
    }

    /// Moves the selection down by one, from the last entry to the first.
    /// Only while selecting.
    pub fn select_next(&mut self)
        requires
            old(self).well_formed(),
        ensures
            final(self).well_formed(),
            final(self).selected_index == if old(self).state == AppState::Selecting {
                if old(self).selected_index + 1 == old(self).techniques@.len() {
                    0
                } else {
                    old(self).selected_index + 1
                }
            } else {
                old(self).selected_index as int
            },
            final(self).unchanged_but_selection(*old(self)),
    {
        if self.state == AppState::Selecting {
            let listed = self.techniques.len();
            self.selected_index = if self.selected_index + 1 == listed {
                0
            } else {
                self.selected_index + 1
            };
            select_in_list(&mut self.list_state, Some(self.selected_index));
        }
    }

    /// Moves the selection up by one, from the first entry to the last.
    /// Only while selecting.
    pub fn select_prev(&mut self)
        requires
            old(self).well_formed(),
        ensures
            final(self).well_formed(),
            final(self).selected_index == if old(self).state == AppState::Selecting {
                if old(self).selected_index == 0 {
                    old(self).techniques@.len() - 1
                } else {
                    old(self).selected_index - 1
                }
            } else {
                old(self).selected_index as int
            },
            final(self).unchanged_but_selection(*old(self)),
    {
        if self.state == AppState::Selecting {
            if self.selected_index == 0 {
                self.selected_index = self.techniques.len() - 1;
            } else {
                self.selected_index -= 1;
            }
            select_in_list(&mut self.list_state, Some(self.selected_index));
        }
    }

    /// Everything but the selection is as in `before`.
    pub open spec fn unchanged_but_selection(&self, before: App) -> bool {
        &&& self.techniques == before.techniques
        &&& self.technique == before.technique
        &&& self.state == before.state
        &&& self.cycles_target == before.cycles_target
        &&& self.unchanged_run(before)
        &&& self.unchanged_switches(before)
    }

    /// The position in the session, its times, its particles and its
    /// celebration are as in `before`.
    pub open spec fn unchanged_run(&self, before: App) -> bool {
        &&& self.cycles_completed == before.cycles_completed
        &&& self.current_phase_index == before.current_phase_index
        &&& self.phase_start_time == before.phase_start_time
        &&& self.session_start_time == before.session_start_time
        &&& self.particle_system == before.particle_system
        &&& self.phase_transition_progress == before.phase_transition_progress
        &&& self.phase_transition_velocity == before.phase_transition_velocity
        &&& self.previous_phase == before.previous_phase
        &&& self.celebration == before.celebration
        &&& self.phase_elapsed_at_pause == before.phase_elapsed_at_pause
        &&& self.session_elapsed_at_pause == before.session_elapsed_at_pause
    }

    /// Help, guide and sound are switched as in `before`.
    pub open spec fn unchanged_switches(&self, before: App) -> bool {
        &&& self.show_help == before.show_help
        &&& self.show_guide == before.show_guide
        &&& self.audio_enabled == before.audio_enabled
    }

    /// The list and what is selected in it are as in `before`.
    pub open spec fn unchanged_list(&self, before: App) -> bool {
        &&& self.techniques == before.techniques
        &&& self.selected_index == before.selected_index
        &&& self.list_state == before.list_state
    }

    /// Takes the selected technique for the session, with the number of
    /// cycles it calls for. Only while selecting.
    pub fn confirm_selection(&mut self)
        requires
            old(self).well_formed(),
        ensures
            final(self).well_formed(),
            final(self).unchanged_list(*old(self)),
            final(self).unchanged_run(*old(self)),
            final(self).unchanged_switches(*old(self)),
            old(self).state == AppState::Selecting ==> {
                &&& final(self).state == AppState::Ready
                &&& final(self).technique is Some
                &&& final(self).technique->Some_0.same_as(
                    &old(self).techniques@[old(self).selected_index as int],
                )
                &&& final(self).cycles_target == old(self).techniques@[old(self).selected_index as int].default_cycles
            },
            old(self).state != AppState::Selecting ==> {
                &&& final(self).state == old(self).state
                &&& final(self).technique == old(self).technique
                &&& final(self).cycles_target == old(self).cycles_target
            },
    {
        if self.state == AppState::Selecting {
            let technique = self.techniques[self.selected_index].clone();
            self.cycles_target = technique.default_cycles;
            self.technique = Some(technique);
            self.state = AppState::Ready;
        }
    }

    /// Shows or hides the guide.
    pub fn toggle_guide(&mut self)
        ensures
            final(self).show_guide == !old(self).show_guide,
            final(self).show_help == old(self).show_help,
            final(self).audio_enabled == old(self).audio_enabled,
            final(self).unchanged_list(*old(self)),
            final(self).unchanged_run(*old(self)),
            final(self).technique == old(self).technique,
            final(self).state == old(self).state,
            final(self).cycles_target == old(self).cycles_target,
    {
        self.show_guide = !self.show_guide;
    }

    /// Switches the sound on or off.
    pub fn toggle_audio(&mut self)
        ensures
            final(self).audio_enabled == !old(self).audio_enabled,
            final(self).show_help == old(self).show_help,
            final(self).show_guide == old(self).show_guide,
            final(self).unchanged_list(*old(self)),
            final(self).unchanged_run(*old(self)),
            final(self).technique == old(self).technique,
            final(self).state == old(self).state,
            final(self).cycles_target == old(self).cycles_target,
    {
        self.audio_enabled = !self.audio_enabled;
    }

    /// Shows or hides the help.
    pub fn toggle_help(&mut self)
        ensures
            final(self).show_help == !old(self).show_help,
            final(self).show_guide == old(self).show_guide,
            final(self).audio_enabled == old(self).audio_enabled,
            final(self).unchanged_list(*old(self)),
            final(self).unchanged_run(*old(self)),
            final(self).technique == old(self).technique,
            final(self).state == old(self).state,
            final(self).cycles_target == old(self).cycles_target,
    {
        self.show_help = !self.show_help;
    }

    /// The run of a session brought back to its beginning: no cycle
    /// done, the first phase, no particles, no celebration, nothing
    /// carried from a pause, no blend under way.
    pub open spec fn run_cleared(&self, before: App) -> bool {
        &&& self.current_phase_index == 0
        &&& self.cycles_completed == 0
        &&& self.particle_system.particles@.len() == 0
        &&& self.particle_system.emitters == before.particle_system.emitters
        &&& self.particle_system.max_particles == before.particle_system.max_particles
        &&& self.particle_system.center_x == before.particle_system.center_x
        &&& self.particle_system.center_y == before.particle_system.center_y
        &&& self.celebration is None
        &&& self.phase_elapsed_at_pause == 0
        &&& self.session_elapsed_at_pause == 0
        &&& self.phase_transition_progress == ONE
        &&& self.phase_transition_velocity == before.phase_transition_velocity
        &&& self.previous_phase is None
        &&& self.phase_start_time == before.phase_start_time
        &&& self.session_start_time == before.session_start_time
    }

    /// Goes back to choosing a technique, from any state. The session
    /// that was under way is given up.
    pub fn back_to_selection(&mut self)
        ensures
            final(self).state == AppState::Selecting,
            final(self).technique is None,
            final(self).run_cleared(*old(self)),
            final(self).unchanged_list(*old(self)),
            final(self).unchanged_switches(*old(self)),
            final(self).cycles_target == old(self).cycles_target,
            old(self).well_formed() ==> final(self).well_formed(),
    {
        self.state = AppState::Selecting;
        self.technique = None;
        self.current_phase_index = 0;
        self.cycles_completed = 0;
        self.particle_system.clear();
        self.celebration = None;
        self.phase_elapsed_at_pause = 0;
        self.session_elapsed_at_pause = 0;
        self.phase_transition_progress = ONE;
        self.previous_phase = None;
    }

    /// Changes the number of cycles by `delta`, held between one and
    /// ninety-nine. Only while ready.
    pub fn adjust_cycles(&mut self, delta: i32)
        ensures
            final(self).cycles_target == if old(self).state == AppState::Ready {
                cycles_after(old(self).cycles_target, delta)
            } else {
                old(self).cycles_target
            },
            old(self).state == AppState::Ready ==> MIN_CYCLES <= final(self).cycles_target
                <= MAX_CYCLES,
            final(self).unchanged_list(*old(self)),
            final(self).unchanged_run(*old(self)),
            final(self).unchanged_switches(*old(self)),
            final(self).technique == old(self).technique,
            final(self).state == old(self).state,
            old(self).well_formed() ==> final(self).well_formed(),
    {
        if self.state == AppState::Ready {
            let wanted: i64 = self.cycles_target as i64 + delta as i64;
            self.cycles_target = if wanted < 1 {
                1
            } else if wanted > 99 {
                99
            } else {
                wanted as u32
            };
        }
    }

    /// Begins the session at the clock reading `now`. Only while ready.
    pub fn start(&mut self, now: u64)
        requires
            old(self).well_formed(),
        ensures
            final(self).well_formed(),
            final(self).unchanged_list(*old(self)),
            final(self).unchanged_switches(*old(self)),
            final(self).technique == old(self).technique,
            final(self).cycles_target == old(self).cycles_target,
            old(self).state != AppState::Ready ==> {
                &&& final(self).state == old(self).state
                &&& final(self).unchanged_run(*old(self))
            },
            old(self).state == AppState::Ready ==> {
                &&& final(self).state == AppState::Breathing
                &&& final(self).session_start_time == now
                &&& final(self).phase_start_time == now
                &&& final(self).current_phase_index == 0
                &&& final(self).cycles_completed == 0
                &&& final(self).phase_elapsed_at_pause == 0
                &&& final(self).session_elapsed_at_pause == 0
                &&& final(self).phase_transition_progress == ONE
                &&& final(self).phase_transition_velocity == old(self).phase_transition_velocity
                &&& final(self).previous_phase == Some(final(self).phase().name)
                &&& final(self).celebration is None
                &&& final(self).particle_system.particles == old(self).particle_system.particles
                &&& final(self).particle_system.max_particles == old(self).particle_system.max_particles
                &&& final(self).particle_system.center_x == old(self).particle_system.center_x
                &&& final(self).particle_system.center_y == old(self).particle_system.center_y
                &&& final(self).particle_system.emitters@ == seq![
                    phase_emitter(
                        final(self).phase().name,
                        final(self).scale(now),
                        old(self).particle_system.center_x,
                        old(self).particle_system.center_y,
                    ),
                ]
            },
    {
        if self.state == AppState::Ready && self.technique.is_some() {
            self.state = AppState::Breathing;
            self.session_start_time = now;
            self.phase_start_time = now;
            self.current_phase_index = 0;
            self.cycles_completed = 0;
            self.phase_elapsed_at_pause = 0;
            self.session_elapsed_at_pause = 0;
            self.phase_transition_progress = ONE;
            self.previous_phase = Some(self.current_phase().name);
            self.celebration = None;

            let scale = self.breath_scale(now);
            let name = self.current_phase().name;
            self.particle_system.configure_for_phase(name, scale);
        }
    }

    /// `self` is `before` after the pause was toggled at the clock reading
    /// `now`. A running session is paused: how long the phase and the
    /// session have run is captured. A paused session is resumed: both
    /// starts move to that long before `now`. In any other state nothing
    /// changes.
    pub open spec fn toggled(&self, before: App, now: u64) -> bool {
        &&& self.unchanged_list(before)
        &&& self.unchanged_switches(before)
        &&& self.technique == before.technique
        &&& self.cycles_target == before.cycles_target
        &&& self.cycles_completed == before.cycles_completed
        &&& self.current_phase_index == before.current_phase_index
        &&& self.particle_system == before.particle_system
        &&& self.phase_transition_progress == before.phase_transition_progress
        &&& self.phase_transition_velocity == before.phase_transition_velocity
        &&& self.previous_phase == before.previous_phase
        &&& self.celebration == before.celebration
        &&& match before.state {
            AppState::Breathing => {
                &&& self.state == AppState::Paused
                &&& self.phase_elapsed_at_pause == span(before.phase_start_time, now)
                &&& self.session_elapsed_at_pause == span(before.session_start_time, now)
                &&& self.phase_start_time == before.phase_start_time
                &&& self.session_start_time == before.session_start_time
            },
            AppState::Paused => {
                &&& self.state == AppState::Breathing
                &&& self.phase_start_time == span(before.phase_elapsed_at_pause, now)
                &&& self.session_start_time == span(before.session_elapsed_at_pause, now)
                &&& self.phase_elapsed_at_pause == before.phase_elapsed_at_pause
                &&& self.session_elapsed_at_pause == before.session_elapsed_at_pause
            },
            _ => {
                &&& self.state == before.state
                &&& self.phase_start_time == before.phase_start_time
                &&& self.session_start_time == before.session_start_time
                &&& self.phase_elapsed_at_pause == before.phase_elapsed_at_pause
                &&& self.session_elapsed_at_pause == before.session_elapsed_at_pause
            },
        }
    }

    /// Pauses a running session or resumes a paused one, at the clock
    /// reading `now`. Pausing captures how long the phase and the session
    /// have run. Resuming moves both starts to that long before `now`, so
    /// that the pause does not count.
    pub fn toggle_pause(&mut self, now: u64)
        ensures
            final(self).toggled(*old(self), now),
            old(self).well_formed() ==> final(self).well_formed(),
    {
        match self.state {
            AppState::Breathing => {
                self.phase_elapsed_at_pause = now.saturating_sub(self.phase_start_time);
                self.session_elapsed_at_pause = now.saturating_sub(self.session_start_time);
                self.state = AppState::Paused;
            },
            AppState::Paused => {
                self.phase_start_time = now.saturating_sub(self.phase_elapsed_at_pause);
                self.session_start_time = now.saturating_sub(self.session_elapsed_at_pause);
                self.state = AppState::Breathing;
            },
            _ => {},
        }
    }

    /// Brings a session back to ready, to be started anew. Nothing
    /// happens while no technique is chosen.
    pub fn reset(&mut self)
        ensures
            final(self).unchanged_list(*old(self)),
            final(self).unchanged_switches(*old(self)),
            final(self).technique == old(self).technique,
            final(self).cycles_target == old(self).cycles_target,
            old(self).technique is Some ==> {
                &&& final(self).state == AppState::Ready
                &&& final(self).run_cleared(*old(self))
            },
            old(self).technique is None ==> {
                &&& final(self).state == old(self).state
                &&& final(self).unchanged_run(*old(self))
            },
            old(self).well_formed() ==> final(self).well_formed(),
    {
        if self.technique.is_some() {
            self.state = AppState::Ready;
            self.current_phase_index = 0;
            self.cycles_completed = 0;
            self.particle_system.clear();
            self.celebration = None;
            self.phase_elapsed_at_pause = 0;
            self.session_elapsed_at_pause = 0;
            self.phase_transition_progress = ONE;
            self.previous_phase = None;
        }
    }

    /// The phase the session is in.
    pub fn current_phase(&self) -> (phase: &Phase)
        requires
            self.technique is Some,
            self.current_phase_index < self.technique->Some_0.phases@.len(),
        ensures
            *phase == self.phase(),
    {
        &self.current_technique().phases[self.current_phase_index]
    }

    /// How long the current phase has run, in microseconds. A pause does
    /// not count.
    pub fn phase_elapsed(&self, now: u64) -> (elapsed: u64)
        requires
            self.technique is Some,
        ensures
            elapsed == self.phase_time(now),
    {
        if self.state == AppState::Paused {
            self.phase_elapsed_at_pause
        } else {
            now.saturating_sub(self.phase_start_time)
        }
    }

    /// How far the current phase has run, from zero to one.
    pub fn phase_progress(&self, now: u64) -> (progress: i64)
        requires
            self.technique is Some,
            self.current_phase_index < self.technique->Some_0.phases@.len(),
        ensures
            progress == progress_of(self.phase_time(now), self.phase().duration_micros),
            0 <= progress <= ONE,
    {
        let elapsed = self.phase_elapsed(now);
        let duration = self.current_phase().duration_micros;
        if duration == 0 || elapsed >= duration {
            ONE
        } else {
            proof {
                assert(elapsed * 1_000_000 < duration * 1_000_000);
                assert((elapsed * 1_000_000) / (duration as int) < 1_000_000) by (nonlinear_arith)
                    requires
                        0 <= elapsed < duration,
                ;
            }
            let wide: u128 = elapsed as u128 * 1_000_000;
            (wide / duration as u128) as i64
        }
    }

    /// How long the session has run, in microseconds. Pauses do not
    /// count, and the time of a completed session stands still.
    pub fn session_elapsed(&self, now: u64) -> (elapsed: u64)
        ensures
            elapsed == self.session_time(now),
    {
        if self.state == AppState::Paused || self.state == AppState::Complete {
            self.session_elapsed_at_pause
        } else {
            now.saturating_sub(self.session_start_time)
        }
    }

    /// The scale of the breathing circle, from zero to one. There is no
    /// scale while no technique is chosen.
    pub fn breath_scale(&self, now: u64) -> (scale: i64)
        requires
            self.technique is Some,
            self.current_phase_index < self.technique->Some_0.phases@.len(),
        ensures
            scale == self.scale(now),
            0 <= scale <= ONE,
    {
        let progress = self.phase_progress(now);
        let phase = self.current_phase().name;
        let eased = ease_breath(progress);
        match phase {
            PhaseName::Inhale => eased,
            PhaseName::Hold => ONE,
            PhaseName::Exhale => fx_sub(ONE, eased),
            PhaseName::HoldAfterExhale => 0,
        }
    }

    /// The colors to draw the current phase with: while the phase blends
    /// in, those of the phase before blended toward its own.
    pub open spec fn blended_colors(&self) -> PhaseColors {
        let current = dark_theme().palette(self.phase().name);
        match self.previous_phase {
            Some(previous) => if self.phase_transition_progress < ONE {
                palette_between(
                    dark_theme().palette(previous),
                    current,
                    self.phase_transition_progress,
                )
            } else {
                current
            },
            None => current,
        }
    }

    /// The colors to draw the current phase with.
    pub fn get_blended_phase_colors(&self) -> (colors: PhaseColors)
        requires
            self.technique is Some,
            self.current_phase_index < self.technique->Some_0.phases@.len(),
        ensures
            colors == self.blended_colors(),
    {
        let theme = default_theme();
        let current_colors = theme.get_phase_colors(self.current_phase().name);
        if let Some(prev_phase) = self.previous_phase {
            if self.phase_transition_progress < ONE {
                let prev_colors = theme.get_phase_colors(prev_phase);
                return blend_phase_colors(
                    prev_colors,
                    current_colors,
                    self.phase_transition_progress,
                );
            }
        }
        *current_colors
    }

    /// The phase that comes before the current one in the cycle: the last
    /// phase before the first.
    pub open spec fn phase_before(&self) -> PhaseName {
        let phases = self.technique->Some_0.phases@;
        if self.current_phase_index == 0 {
            phases.last().name
        } else {
            phases[self.current_phase_index - 1].name
        }
    }

    /// The phase that the visualizer blends from.
    pub fn get_previous_phase(&self) -> (previous: Option<PhaseName>)
        requires
            self.technique is Some,
            self.current_phase_index < self.technique->Some_0.phases@.len(),
        ensures
            previous == Some(self.phase_before()),
    {
        let technique = self.current_technique();
        if self.current_phase_index == 0 {
            Some(technique.phases[technique.phases.len() - 1].name)
        } else {
            Some(technique.phases[self.current_phase_index - 1].name)
        }
    }

    /// The bright colors to draw the current phase with: while the phase
    /// blends in, those of the phase before it in the cycle blended
    /// toward its own.
    pub fn vibrant_colors(&self) -> (colors: (Color, Color, Color))
        requires
            self.technique is Some,
            self.current_phase_index < self.technique->Some_0.phases@.len(),
        ensures
            colors == if self.phase_transition_progress < ONE {
                vibrant_between(
                    self.phase_before(),
                    self.phase().name,
                    self.phase_transition_progress,
                )
            } else {
                vibrant(self.phase().name)
            },
    {
        let phase = self.current_phase().name;
        if self.phase_transition_progress < ONE {
            match self.get_previous_phase() {
                Some(previous) => blend_vibrant_colors(
                    previous,
                    phase,
                    self.phase_transition_progress,
                ),
                None => get_vibrant_colors(phase),
            }
        } else {
            get_vibrant_colors(phase)
        }
    }

    /// One frame: `dt` microseconds have passed since the last one, and
    /// the clock reads `now`.
    ///
    /// A celebration runs on whatever the state. The rest happens only
    /// while the session runs: the blend moves on, the particle field is
    /// updated, and where the phase has run its time the next one begins.
    pub fn tick(&mut self, dt: u64, now: u64)
        requires
            old(self).well_formed(),
        ensures
            final(self).well_formed(),
            old(self).state == AppState::Breathing && old(self).phase_due(now) ==> exists|mid: App|
                mid.ticked_in_place(*old(self), dt) && #[trigger] final(self).advanced(mid, now),
            !(old(self).state == AppState::Breathing && old(self).phase_due(now)) ==> final(self).ticked_in_place(*old(self), dt),
    {
        let taken = self.celebration.take();
        match taken {
            Some(mut celebration) => {
                let ghost before = celebration;
                celebration.tick(dt);
                if !celebration.is_complete() {
                    self.celebration = Some(celebration);
                } else {
                    assert(celebration.follows(before, dt) && celebration.finished());
                }
            },
            None => {},
        }
        if self.state != AppState::Breathing {
            return;
        }
        if self.phase_transition_progress < ONE {
            let mut velocity = self.phase_transition_velocity;
            self.phase_transition_progress = smooth_damp(
                self.phase_transition_progress,
                ONE,
                &mut velocity,
                TRANSITION_SMOOTH_TIME,
                dt,
            );
            self.phase_transition_velocity = velocity;
        }
        self.particle_system.update(dt);
        if self.phase_elapsed(now) >= self.current_phase().duration_micros {
            let ghost mid = *self;
            assert(mid.ticked_in_place(*old(self), dt));
            self.advance_phase(now);
        }
    }

    /// Ends the current phase at the clock reading `now` and begins the
    /// next, or completes the session where there is none.
    pub fn advance_phase(&mut self, now: u64)
        requires
            old(self).well_formed(),
            old(self).state == AppState::Breathing,
        ensures
            final(self).well_formed(),
            final(self).advanced(*old(self), now),
    {
        self.previous_phase = Some(self.current_phase().name);
        let phases = self.current_technique().phases.len();
        self.current_phase_index += 1;
        if self.current_phase_index >= phases {
            self.current_phase_index = 0;
            self.cycles_completed += 1;
            if self.cycles_completed >= self.cycles_target {
                self.session_elapsed_at_pause = now.saturating_sub(self.session_start_time);
                self.state = AppState::Complete;
                let mut celebration = CelebrationAnimation::new();
                celebration.set_center(0, 0);
                assert(spark_views(celebration.particles@) =~= Seq::<SparkView>::empty());
                celebration.spawn_burst();
                self.celebration = Some(celebration);
                return;
            }
        }
        self.phase_start_time = now;
        self.phase_transition_progress = 0;
        self.phase_transition_velocity = 0;
        let scale = self.breath_scale(now);
        let name = self.current_phase().name;
        self.particle_system.configure_for_phase(name, scale);
    }

    /// A time in microseconds as minutes and seconds, `MM:SS`.
    pub fn format_time(duration: u64) -> (text: String)
        ensures
            text@ == clock_text(
                (duration / 1_000_000 / 60) as nat,
                (duration / 1_000_000 % 60) as nat,
            ),
    {
        let total_secs: u64 = duration / 1_000_000;
        let mins: u64 = total_secs / 60;
        let secs: u64 = total_secs % 60;
        let mut text = String::new();
        push_two_digits(&mut text, mins);
        text.append(":");
        push_two_digits(&mut text, secs);
        proof {
            reveal_strlit(":");
            assert(text@ =~= clock_text(mins as nat, secs as nat));
        }
        text
    }

    /// The particles of the field.
    pub fn particles(&self) -> (list: &[crate::particles::Particle])
        ensures
            list@ == self.particle_system.particles@,
    {
        self.particle_system.particles.as_slice()
    }
}

} // verus!
