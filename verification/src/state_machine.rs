use vstd::prelude::*;

verus! {

/// The nine states a fighter can be in.
#[derive(Debug, Clone, Copy, PartialEq, Eq, Structural)]
pub enum FighterState {
    Idle,
    Moving,
    Attacking,
    Blocking,
    Dashing,
    HitStun,
    Airborne,
    Knockdown,
    GettingUp,
}

/// The sub-phase of an attack in progress.
#[derive(Debug, Clone, Copy, PartialEq, Eq, Structural)]
pub enum AttackPhase {
    Startup,
    Active,
    Recovery,
}

/// Which attack is being performed while the state is `Attacking`.
#[derive(Debug, Clone, Copy, PartialEq, Eq, Structural)]
pub enum ActiveAttack {
    Light,
    Heavy,
    Special,
    MidKick,
    LowKick,
    Aerial,
    ComboFinisher,
    Super,
}

/// Frames a fighter spends getting up after a knockdown has run out.
pub const GETUP_FRAMES: u32 = 20;

/// Knockdown frames imposed when an airborne fighter lands.
pub const LANDING_KNOCKDOWN_FRAMES: u32 = 30;

/// A frame count, clamped to what a counter can hold.
pub open spec fn clamp_frames(n: int) -> u32 {
    if n > u32::MAX {
        u32::MAX
    } else if n < 0 {
        0u32
    } else {
        n as u32
    }
}

impl FighterState {
    pub open spec fn spec_name(self) -> Seq<char> {
        match self {
            FighterState::Idle => "Idle"@,
            FighterState::Moving => "Moving"@,
            FighterState::Attacking => "Attacking"@,
            FighterState::Blocking => "Blocking"@,
            FighterState::Dashing => "Dashing"@,
            FighterState::HitStun => "HitStun"@,
            FighterState::Airborne => "Airborne"@,
            FighterState::Knockdown => "Knockdown"@,
            FighterState::GettingUp => "Getting Up"@,
        }
    }

    /// The state's display name.
    pub fn name(self) -> (s: &'static str)
        ensures
            s@ == self.spec_name(),
    {
        match self {
            FighterState::Idle => "Idle",
            FighterState::Moving => "Moving",
            FighterState::Attacking => "Attacking",
            FighterState::Blocking => "Blocking",
            FighterState::Dashing => "Dashing",
            FighterState::HitStun => "HitStun",
            FighterState::Airborne => "Airborne",
            FighterState::Knockdown => "Knockdown",
            FighterState::GettingUp => "Getting Up",
        }
    }
}

/// Per-fighter finite-state machine, driven by frame counters.
///
/// `total_frames` is the length of the current state; 0 means that the state
/// lasts until it is released from outside (`Blocking`, `Airborne`).
#[derive(Debug, Clone)]
pub struct StateMachine {
    pub state: FighterState,
    pub frame_counter: u32,
    pub total_frames: u32,
    pub attack: Option<ActiveAttack>,
    pub attack_phase: Option<AttackPhase>,
    pub attack_startup: u32,
    pub attack_active: u32,
    pub attack_recovery: u32,
    /// Set once the current attack has hit; one attack hits at most once.
    pub hit_connected: bool,
}

impl StateMachine {
    /// The machine every fighter starts a round with.
    pub open spec fn initial() -> StateMachine {
        StateMachine {
            state: FighterState::Idle,
            frame_counter: 0,
            total_frames: 0,
            attack: None,
            attack_phase: None,
            attack_startup: 0,
            attack_active: 0,
            attack_recovery: 0,
            hit_connected: false,
        }
    }

    /// An attack and its phase are recorded exactly while the state is
    /// `Attacking`.
    pub open spec fn wf(&self) -> bool {
        &&& self.attack.is_some() <==> self.state == FighterState::Attacking
        &&& self.attack_phase.is_some() <==> self.state == FighterState::Attacking
    }

    pub open spec fn spec_can_act(&self) -> bool {
        self.state == FighterState::Idle || self.state == FighterState::Moving
    }

    pub open spec fn spec_is_vulnerable(&self) -> bool {
        self.state != FighterState::Dashing && self.state != FighterState::GettingUp && self.state
            != FighterState::Knockdown
    }

    pub open spec fn spec_is_attack_active(&self) -> bool {
        self.state == FighterState::Attacking && self.attack_phase == Some(AttackPhase::Active)
    }

    /// Last frame of the startup phase.
    pub open spec fn startup_end(&self) -> u32 {
        self.attack_startup
    }

    /// Last frame of the active phase.
    pub open spec fn active_end(&self) -> u32 {
        clamp_frames(self.attack_startup + self.attack_active)
    }

    /// Last frame of the recovery phase.
    pub open spec fn recovery_end(&self) -> u32 {
        clamp_frames(self.attack_startup + self.attack_active + self.attack_recovery)
    }

    /// The phase that frame `frame` of the current attack lies in, if any.
    pub open spec fn phase_of_frame(&self, frame: u32) -> Option<AttackPhase> {
        if frame <= self.startup_end() {
            Some(AttackPhase::Startup)
        } else if frame <= self.active_end() {
            Some(AttackPhase::Active)
        } else if frame <= self.recovery_end() {
            Some(AttackPhase::Recovery)
        } else {
            None
        }
    }

    /// The machine after an accepted `start_attack`.
    pub open spec fn attacking(
        self,
        attack: ActiveAttack,
        startup: u32,
        active: u32,
        recovery: u32,
    ) -> StateMachine {
        StateMachine {
            state: FighterState::Attacking,
            frame_counter: 0,
            total_frames: clamp_frames(startup + active + recovery),
            attack: Some(attack),
            attack_phase: Some(AttackPhase::Startup),
            attack_startup: startup,
            attack_active: active,
            attack_recovery: recovery,
            hit_connected: false,
        }
    }

    /// The machine after passing into `state` for `frames` frames, by a
    /// transition that leaves the attack fields alone.
    pub open spec fn timed(self, state: FighterState, frames: u32) -> StateMachine {
        StateMachine { state, frame_counter: 0, total_frames: frames, ..self }
    }

    /// The machine after being put into `state` for `frames` frames by a hit,
    /// which ends any attack in progress.
    pub open spec fn struck(self, state: FighterState, frames: u32) -> StateMachine {
        StateMachine {
            state,
            frame_counter: 0,
            total_frames: frames,
            attack: None,
            attack_phase: None,
            ..self
        }
    }

    /// The machine after `start_attack`: attacking if it could act, else as
    /// it was.
    pub open spec fn after_start_attack(
        self,
        attack: ActiveAttack,
        startup: u32,
        active: u32,
        recovery: u32,
    ) -> StateMachine {
        if self.spec_can_act() {
            self.attacking(attack, startup, active, recovery)
        } else {
            self
        }
    }

    /// The machine after `start_dash`: dashing if it could act, else as it
    /// was.
    pub open spec fn after_start_dash(self, dash_frames: u32) -> StateMachine {
        if self.spec_can_act() {
            self.timed(FighterState::Dashing, dash_frames)
        } else {
            self
        }
    }

    /// The machine after `start_block`: blocking if it could act, else as it
    /// was.
    pub open spec fn after_start_block(self) -> StateMachine {
        if self.spec_can_act() {
            self.timed(FighterState::Blocking, 0)
        } else {
            self
        }
    }

    /// The machine one frame later.
    pub open spec fn after_tick(self) -> StateMachine {
        let frame = clamp_frames(self.frame_counter + 1);
        let counted = StateMachine { frame_counter: frame, ..self };
        match self.state {
            FighterState::Idle | FighterState::Moving | FighterState::Blocking => self,
            FighterState::Attacking => {
                let phase = self.phase_of_frame(frame);
                if phase.is_some() && phase != self.attack_phase {
                    StateMachine { attack_phase: phase, ..counted }
                } else if frame >= self.total_frames {
                    StateMachine {
                        state: FighterState::Idle,
                        frame_counter: 0,
                        attack: None,
                        attack_phase: None,
                        ..self
                    }
                } else {
                    counted
                }
            },
            FighterState::Dashing | FighterState::HitStun | FighterState::GettingUp => {
                if frame >= self.total_frames {
                    StateMachine { state: FighterState::Idle, frame_counter: 0, ..self }
                } else {
                    counted
                }
            },
            FighterState::Airborne => counted,
            FighterState::Knockdown => {
                if frame >= self.total_frames {
                    self.timed(FighterState::GettingUp, GETUP_FRAMES)
                } else {
                    counted
                }
            },
        }
    }

    /// Whether the next frame changes the state or the attack phase.
    pub open spec fn tick_changes(self) -> bool {
        self.after_tick().state != self.state || self.after_tick().attack_phase
            != self.attack_phase
    }

    /// The machine `n` frames later, when nothing but time acts on it.
    pub open spec fn after_ticks(self, n: nat) -> StateMachine
        decreases n,
    {
        if n == 0 {
            self
        } else {
            self.after_ticks((n - 1) as nat).after_tick()
        }
    }

    pub fn new() -> (sm: StateMachine)
        ensures
            sm == StateMachine::initial(),
            sm.wf(),
    {
        StateMachine {
            state: FighterState::Idle,
            frame_counter: 0,
            total_frames: 0,
            attack: None,
            attack_phase: None,
            attack_startup: 0,
            attack_active: 0,
            attack_recovery: 0,
            hit_connected: false,
        }
    }

    /// Whether the fighter can take a new command: only in `Idle` and `Moving`.
    pub fn can_act(&self) -> (b: bool)
        ensures
            b == self.spec_can_act(),
    {
        match self.state {
            FighterState::Idle | FighterState::Moving => true,
            _ => false,
        }
    }

    /// Whether the fighter can start blocking now.
    pub fn can_block(&self) -> (b: bool)
        ensures
            b == self.spec_can_act(),
    {
        self.can_act()
    }

    /// Whether the fighter can be hit: in every state but `Dashing`,
    /// `GettingUp` and `Knockdown`.
    pub fn is_vulnerable(&self) -> (b: bool)
        ensures
            b == self.spec_is_vulnerable(),
    {
        match self.state {
            FighterState::Dashing | FighterState::GettingUp | FighterState::Knockdown => false,
            _ => true,
        }
    }

    /// Whether the fighter is in the active frames of an attack.
    pub fn is_attack_active(&self) -> (b: bool)
        ensures
            b == self.spec_is_attack_active(),
    {
        self.state == FighterState::Attacking && match self.attack_phase {
            Some(AttackPhase::Active) => true,
            _ => false,
        }
    }

    /// Starts an attack of the given phase lengths. Accepted exactly when the
    /// fighter can act; a refusal changes nothing.
    pub fn start_attack(
        &mut self,
        attack: ActiveAttack,
        startup: u32,
        active: u32,
        recovery: u32,
    ) -> (started: bool)
        ensures
            started == old(self).spec_can_act(),
            *final(self) == old(self).after_start_attack(attack, startup, active, recovery),
            old(self).wf() ==> final(self).wf(),
    {
        if !self.can_act() {
            return false;
        }
        self.state = FighterState::Attacking;
        self.attack = Some(attack);
        self.attack_phase = Some(AttackPhase::Startup);
        self.attack_startup = startup;
        self.attack_active = active;
        self.attack_recovery = recovery;
        self.total_frames = startup.saturating_add(active).saturating_add(recovery);
        self.frame_counter = 0;
        self.hit_connected = false;
        true
    }

    /// Starts blocking, which lasts until `stop_block`. Accepted exactly when
    /// the fighter can act; a refusal changes nothing.
    pub fn start_block(&mut self) -> (started: bool)
        ensures
            started == old(self).spec_can_act(),
            *final(self) == old(self).after_start_block(),
            old(self).wf() ==> final(self).wf(),
    {
        if !self.can_block() {
            return false;
        }
        self.state = FighterState::Blocking;
        self.frame_counter = 0;
        self.total_frames = 0;
        true
    }

    /// Releases a block; does nothing in any other state.
    pub fn stop_block(&mut self)
        ensures
            old(self).state == FighterState::Blocking ==> *final(self) == (StateMachine {
                state: FighterState::Idle,
                frame_counter: 0,
                ..*old(self)
            }),
            old(self).state != FighterState::Blocking ==> *final(self) == *old(self),
            old(self).wf() ==> final(self).wf(),
    {
        if self.state == FighterState::Blocking {
            self.state = FighterState::Idle;
            self.frame_counter = 0;
        }
    }

    /// Starts a dash of `dash_frames` frames. Accepted exactly when the
    /// fighter can act; a refusal changes nothing.
    pub fn start_dash(&mut self, dash_frames: u32) -> (started: bool)
        ensures
            started == old(self).spec_can_act(),
            *final(self) == old(self).after_start_dash(dash_frames),
            old(self).wf() ==> final(self).wf(),
    {
        if !self.can_act() {
            return false;
        }
        self.state = FighterState::Dashing;
        self.frame_counter = 0;
        self.total_frames = dash_frames;
        true
    }

    /// Puts the fighter into hitstun, whatever it was doing.
    pub fn enter_hitstun(&mut self, stun_frames: u32)
        ensures
            *final(self) == old(self).struck(FighterState::HitStun, stun_frames),
            final(self).wf(),
    {
        self.state = FighterState::HitStun;
        self.frame_counter = 0;
        self.total_frames = stun_frames;
        self.attack = None;
        self.attack_phase = None;
    }

    /// Launches the fighter, whatever it was doing; the state lasts until
    /// `land`.
    pub fn enter_airborne(&mut self)
        ensures
            *final(self) == old(self).struck(FighterState::Airborne, 0),
            final(self).wf(),
    {
        self.state = FighterState::Airborne;
        self.frame_counter = 0;
        self.total_frames = 0;
        self.attack = None;
        self.attack_phase = None;
    }

    /// Knocks the fighter down, whatever it was doing.
    pub fn enter_knockdown(&mut self, down_frames: u32)
        ensures
            *final(self) == old(self).struck(FighterState::Knockdown, down_frames),
            final(self).wf(),
    {
        self.state = FighterState::Knockdown;
        self.frame_counter = 0;
        self.total_frames = down_frames;
        self.attack = None;
        self.attack_phase = None;
    }

    /// `Idle` becomes `Moving`; every other state stays.
    pub fn set_moving(&mut self)
        ensures
            *final(self) == (StateMachine {
                state: if old(self).spec_can_act() {
                    FighterState::Moving
                } else {
                    old(self).state
                },
                ..*old(self)
            }),
            old(self).wf() ==> final(self).wf(),
    {
        if self.can_act() {
            self.state = FighterState::Moving;
        }
    }

    /// `Moving` becomes `Idle`; every other state stays.
    pub fn set_idle(&mut self)
        ensures
            *final(self) == (StateMachine {
                state: if old(self).state == FighterState::Moving {
                    FighterState::Idle
                } else {
                    old(self).state
                },
                ..*old(self)
            }),
            old(self).wf() ==> final(self).wf(),
    {
        if self.state == FighterState::Moving {
            self.state = FighterState::Idle;
        }
    }

    /// Advances the machine by one frame and reports whether the state or the
    /// attack phase changed.
    ///
    /// `Idle`, `Moving` and `Blocking` do not move with time, and `Airborne`
    /// only counts. A timed state counts one frame and leaves once the count
    /// has reached its length: `Dashing`, `HitStun` and `GettingUp` for
    /// `Idle`, `Knockdown` for `GettingUp`. An attack passes from startup to
    /// active to recovery at its cumulative thresholds; a frame that crosses
    /// into another phase does only that, and the attack ends with the first
    /// frame at or past its length that crosses none.
    pub fn tick(&mut self) -> (changed: bool)
        ensures
            *final(self) == old(self).after_tick(),
            changed == old(self).tick_changes(),
            old(self).wf() ==> final(self).wf(),
    {
        match self.state {
            FighterState::Idle | FighterState::Moving | FighterState::Blocking => false,
            FighterState::Attacking => {
                self.frame_counter = self.frame_counter.saturating_add(1);
                let active_end: u32 = self.attack_startup.saturating_add(self.attack_active);
                let recovery_end: u32 = active_end.saturating_add(self.attack_recovery);
                let phase = if self.frame_counter <= self.attack_startup {
                    Some(AttackPhase::Startup)
                } else if self.frame_counter <= active_end {
                    Some(AttackPhase::Active)
                } else if self.frame_counter <= recovery_end {
                    Some(AttackPhase::Recovery)
                } else {
                    None
                };
                if phase.is_some() && !same_phase(phase, self.attack_phase) {
                    self.attack_phase = phase;
                    return true;
                }
                if self.frame_counter >= self.total_frames {
                    self.state = FighterState::Idle;
                    self.attack = None;
                    self.attack_phase = None;
                    self.frame_counter = 0;
                    return true;
                }
                false
            },
            FighterState::Dashing | FighterState::HitStun | FighterState::GettingUp => {
                self.frame_counter = self.frame_counter.saturating_add(1);
                if self.frame_counter >= self.total_frames {
                    self.state = FighterState::Idle;
                    self.frame_counter = 0;
                    return true;
                }
                false
            },
            FighterState::Airborne => {
                self.frame_counter = self.frame_counter.saturating_add(1);
                false
            },
            FighterState::Knockdown => {
                self.frame_counter = self.frame_counter.saturating_add(1);
                if self.frame_counter >= self.total_frames {
                    self.state = FighterState::GettingUp;
                    self.frame_counter = 0;
                    self.total_frames = GETUP_FRAMES;
                    return true;
                }
                false
            },
        }
    }

    /// Reports a landing: an airborne fighter is knocked down; in any other
    /// state nothing happens.
    pub fn land(&mut self)
        ensures
            old(self).state == FighterState::Airborne ==> *final(self) == old(self).struck(
                FighterState::Knockdown,
                LANDING_KNOCKDOWN_FRAMES,
            ),
            old(self).state != FighterState::Airborne ==> *final(self) == *old(self),
            old(self).wf() ==> final(self).wf(),
    {
        if self.state == FighterState::Airborne {
            self.enter_knockdown(LANDING_KNOCKDOWN_FRAMES);
        }
    }
}

/// Whether two optional phases are the same.
fn same_phase(a: Option<AttackPhase>, b: Option<AttackPhase>) -> (same: bool)
    ensures
        same == (a == b),
{
    match (a, b) {
        (None, None) => true,
        (Some(x), Some(y)) => x == y,
        _ => false,
    }
}

/// The frames a timed state of length `frames` lasts: a state of length 0
/// still takes the one frame that ends it.
pub open spec fn frames_spent(frames: u32) -> nat {
    if frames == 0 {
        1
    } else {
        frames as nat
    }
}

/// The phase an attack shows after `k` frames, by its cumulative thresholds.
pub open spec fn phase_after(k: nat, startup: u32, active: u32) -> AttackPhase {
    if k <= startup {
        AttackPhase::Startup
    } else if k <= startup + active {
        AttackPhase::Active
    } else {
        AttackPhase::Recovery
    }
}

/// A fighter that is attacking can start neither a second attack nor a dash
/// nor a block: each request is refused and leaves the machine as it was. The
/// same holds in every state but `Idle` and `Moving`.
pub proof fn lemma_busy_refuses_actions(
    sm: StateMachine,
    attack: ActiveAttack,
    startup: u32,
    active: u32,
    recovery: u32,
    dash_frames: u32,
)
    requires
        sm.state != FighterState::Idle,
        sm.state != FighterState::Moving,
    ensures
        !sm.spec_can_act(),
        sm.after_start_attack(attack, startup, active, recovery) == sm,
        sm.after_start_dash(dash_frames) == sm,
        sm.after_start_block() == sm,
{
}

/// Time adds up: `m + n` frames are `m` frames and then `n` more.
pub proof fn lemma_after_ticks_add(sm: StateMachine, m: nat, n: nat)
    ensures
        sm.after_ticks(m + n) == sm.after_ticks(m).after_ticks(n),
    decreases n,
{
    if n > 0 {
        lemma_after_ticks_add(sm, m, (n - 1) as nat);
        assert((m + n - 1) as nat == m + (n - 1) as nat);
    }
}

/// Time alone never ends `Idle`, `Moving`, `Blocking` or `Airborne`: the
/// first three do not change at all, and an airborne fighter stays in the air
/// until it lands.
pub proof fn lemma_untimed_states_persist(sm: StateMachine, n: nat)
    requires
        sm.state == FighterState::Idle || sm.state == FighterState::Moving || sm.state
            == FighterState::Blocking || sm.state == FighterState::Airborne,
    ensures
        sm.after_ticks(n).state == sm.state,
        sm.state != FighterState::Airborne ==> sm.after_ticks(n) == sm,
    decreases n,
{
    if n > 0 {
        lemma_untimed_states_persist(sm, (n - 1) as nat);
    }
}

/// The frames an attack lasts, from its start to the frame that leaves the
/// fighter idle. That is the sum of its three phases, and one frame more where
/// the sum is reached by a frame that crosses into the last phase: a frame
/// that changes the phase does nothing else, so the attack ends with the next.
pub open spec fn attack_length(startup: u32, active: u32, recovery: u32) -> nat {
    let total = startup + active + recovery;
    if recovery == 1 || (recovery == 0 && active == 1) {
        (total + 1) as nat
    } else if total == 0 {
        1
    } else {
        total as nat
    }
}

/// Frame-exact course of an attack, from the frame it starts: after `k`
/// frames it is in the phase that the thresholds `startup` and
/// `startup + active` give, and after `attack_length` frames, not before, the
/// fighter is idle again with no attack recorded.
pub proof fn lemma_attack_timeline(
    sm: StateMachine,
    attack: ActiveAttack,
    startup: u32,
    active: u32,
    recovery: u32,
    k: nat,
)
    requires
        sm.spec_can_act(),
        startup + active + recovery < u32::MAX,
        k <= attack_length(startup, active, recovery),
    ensures
        k < attack_length(startup, active, recovery) ==> sm.after_start_attack(
            attack,
            startup,
            active,
            recovery,
        ).after_ticks(k) == (StateMachine {
            frame_counter: k as u32,
            attack_phase: Some(phase_after(k, startup, active)),
            ..sm.attacking(attack, startup, active, recovery)
        }),
        k == attack_length(startup, active, recovery) ==> sm.after_start_attack(
            attack,
            startup,
            active,
            recovery,
        ).after_ticks(k) == (StateMachine {
            state: FighterState::Idle,
            attack: None,
            attack_phase: None,
            ..sm.attacking(attack, startup, active, recovery)
        }),
    decreases k,
{
    if k > 0 {
        lemma_attack_timeline(sm, attack, startup, active, recovery, (k - 1) as nat);
    }
}

/// An attack with at least two recovery frames lasts exactly as long as its
/// three phases together, and is active exactly in the frames after its
/// startup and up to `startup + active`.
pub proof fn lemma_attack_active_window(
    sm: StateMachine,
    attack: ActiveAttack,
    startup: u32,
    active: u32,
    recovery: u32,
    k: nat,
)
    requires
        sm.spec_can_act(),
        recovery >= 2,
        startup + active + recovery < u32::MAX,
        k <= startup + active + recovery,
    ensures
        attack_length(startup, active, recovery) == startup + active + recovery,
        sm.after_start_attack(attack, startup, active, recovery).after_ticks(
            k,
        ).spec_is_attack_active() == (startup < k <= startup + active),
        sm.after_start_attack(attack, startup, active, recovery).after_ticks(k).spec_can_act()
            == (k == startup + active + recovery),
{
    lemma_attack_timeline(sm, attack, startup, active, recovery, k);
}

/// Frame-exact course of a dash, a hitstun or a getting-up of `total_frames`
/// frames, from the frame it starts: the state holds, counting, for
/// `frames_spent(total_frames)` frames, and with the last of them the fighter
/// is idle.
pub proof fn lemma_timed_state_timeline(sm: StateMachine, k: nat)
    requires
        sm.state == FighterState::Dashing || sm.state == FighterState::HitStun || sm.state
            == FighterState::GettingUp,
        sm.frame_counter == 0,
        k <= frames_spent(sm.total_frames),
    ensures
        k < frames_spent(sm.total_frames) ==> sm.after_ticks(k) == (StateMachine {
            frame_counter: k as u32,
            ..sm
        }),
        k == frames_spent(sm.total_frames) ==> sm.after_ticks(k) == (StateMachine {
            state: FighterState::Idle,
            ..sm
        }),
    decreases k,
{
    if k > 0 {
        lemma_timed_state_timeline(sm, (k - 1) as nat);
    }
}

/// A knockdown always passes through getting up: from the frame it starts
/// the fighter is down for `frames_spent(total_frames)` frames, then getting
/// up for exactly `GETUP_FRAMES` frames, and idle with the last of them.
pub proof fn lemma_knockdown_timeline(sm: StateMachine, k: nat)
    requires
        sm.state == FighterState::Knockdown,
        sm.frame_counter == 0,
        k <= frames_spent(sm.total_frames) + GETUP_FRAMES,
    ensures
        k < frames_spent(sm.total_frames) ==> sm.after_ticks(k) == (StateMachine {
            frame_counter: k as u32,
            ..sm
        }),
        frames_spent(sm.total_frames) <= k < frames_spent(sm.total_frames) + GETUP_FRAMES
            ==> sm.after_ticks(k) == (StateMachine {
            frame_counter: (k - frames_spent(sm.total_frames)) as u32,
            ..sm.timed(FighterState::GettingUp, GETUP_FRAMES)
        }),
        k == frames_spent(sm.total_frames) + GETUP_FRAMES ==> sm.after_ticks(k) == (StateMachine {
            state: FighterState::Idle,
            ..sm.timed(FighterState::GettingUp, GETUP_FRAMES)
        }),
    decreases k,
{
    if k > 0 {
        lemma_knockdown_timeline(sm, (k - 1) as nat);
    }
}

} // verus!
