use crate::combat::{
    apply_reaction, hit_reaction, is_blocking, pending_attack, reacted, spec_hit_reaction,
    threatening_attack, HitReaction,
};
use crate::fighter::{FighterId, MoveFrames};
use crate::input::{
    detected_combo, pushed, without_expired_front, ComboType, InputAction, InputBuffer,
    InputEvent, InputState, MAX_BUFFER_SIZE,
};
use crate::state_machine::{
    clamp_frames, ActiveAttack, FighterState, StateMachine, LANDING_KNOCKDOWN_FRAMES,
};
use crate::types::Facing;
use vstd::prelude::*;

verus! {

/// Length of a round, in frames: one minute.
pub const ROUND_TIME_FRAMES: u32 = 3600;

/// Rounds a fighter has to win to win the match.
pub const ROUNDS_TO_WIN: u32 = 2;

/// Length of the countdown before a round, in frames.
pub const COUNTDOWN_FRAMES: u32 = 180;

/// Length of the pause after a round, in frames.
pub const ROUND_OVER_FRAMES: u32 = 120;

/// Stamina a dash costs.
pub const DASH_STAMINA_COST: u32 = 20;

/// Stamina a special attack costs.
pub const SPECIAL_STAMINA_COST: u32 = 30;

/// Stamina an aerial attack costs.
pub const AERIAL_STAMINA_COST: u32 = 15;

/// Stamina a super costs.
pub const SUPER_STAMINA_COST: u32 = 50;

/// What a fighter's stamina pays for this frame. The host compares the
/// stamina with each cost and hands in the answers.
#[derive(Debug, Clone, Copy, PartialEq, Eq, Structural)]
pub struct Affordable {
    pub dash: bool,
    pub special: bool,
    pub aerial: bool,
    pub super_attack: bool,
}

/// What a fighter does with one frame of input. The host moves the body and
/// charges the stamina accordingly.
#[derive(Debug, Clone, Copy, PartialEq, Eq, Structural)]
pub enum InputOutcome {
    /// The fighter could not act; its body is left alone.
    Busy,
    /// The fighter blocks and stands still.
    Blocked,
    /// A dash began: it moves the fighter forward at dash speed.
    Dashed,
    /// The given attack began; the fighter stands still.
    Attacked(ActiveAttack),
    /// The fighter walks as the held directions say.
    Moved,
    /// Nothing is held: the fighter stands still.
    Stopped,
}

impl InputOutcome {
    pub open spec fn spec_stamina_cost(self) -> u32 {
        match self {
            InputOutcome::Dashed => DASH_STAMINA_COST,
            InputOutcome::Attacked(ActiveAttack::Special) => SPECIAL_STAMINA_COST,
            InputOutcome::Attacked(ActiveAttack::Aerial) => AERIAL_STAMINA_COST,
            InputOutcome::Attacked(ActiveAttack::Super) => SUPER_STAMINA_COST,
            _ => 0,
        }
    }

    /// The stamina that the outcome costs: a dash, a special, an aerial and a
    /// super have a price, everything else is free.
    pub fn stamina_cost(self) -> (cost: u32)
        ensures
            cost == self.spec_stamina_cost(),
    {
        match self {
            InputOutcome::Dashed => DASH_STAMINA_COST,
            InputOutcome::Attacked(ActiveAttack::Special) => SPECIAL_STAMINA_COST,
            InputOutcome::Attacked(ActiveAttack::Aerial) => AERIAL_STAMINA_COST,
            InputOutcome::Attacked(ActiveAttack::Super) => SUPER_STAMINA_COST,
            _ => 0,
        }
    }
}

/// What the host reads off a fighter's body and catalog entry before a
/// fighting frame.
#[derive(Debug, Clone, Copy, PartialEq, Eq, Structural)]
pub struct FighterFacts {
    /// The fighter's frame data as armed.
    pub moves: MoveFrames,
    /// What its stamina pays for.
    pub afford: Affordable,
    /// Whether it stands at a smaller x than its opponent.
    pub left_of_opponent: bool,
}

/// What the host has to do to a fighter's body and stamina after the first
/// half of a fighting frame.
#[derive(Debug, Clone, Copy, PartialEq, Eq, Structural)]
pub struct FighterOrders {
    /// What the fighter did with its input.
    pub outcome: InputOutcome,
    /// Where the fighter looked while it did so; movement, dash and lunge go
    /// by this direction.
    pub heading: Facing,
    /// Whether an attack began this frame, which lunges the fighter forward.
    pub lunge: bool,
    /// Whether the fighter can act after this frame's step of the state
    /// machine, which regenerates stamina.
    pub regen: bool,
}

/// The discrete state of one fighter: who it is, what it is doing, what it
/// has pressed lately, where it looks, and the rounds it has won.
#[derive(Debug, Clone)]
pub struct Fighter {
    pub id: FighterId,
    pub state_machine: StateMachine,
    pub input_buffer: InputBuffer,
    pub facing: Facing,
    pub round_wins: u32,
}

/// A fighter as the contracts see it.
pub struct FighterView {
    pub id: FighterId,
    pub state_machine: StateMachine,
    /// The buffered inputs, oldest first.
    pub events: Seq<InputEvent>,
    /// The frame the input buffer stands at.
    pub now: u32,
    pub facing: Facing,
    pub round_wins: u32,
}

impl View for Fighter {
    type V = FighterView;

    open spec fn view(&self) -> FighterView {
        FighterView {
            id: self.id,
            state_machine: self.state_machine,
            events: self.input_buffer@,
            now: self.input_buffer.now(),
            facing: self.facing,
            round_wins: self.round_wins,
        }
    }
}

/// The attack that the held buttons ask for by themselves, in the order
/// light, heavy, special, mid kick, low kick, aerial; a special and an aerial
/// only when the stamina pays for them.
pub open spec fn single_attack(input: InputState, afford: Affordable) -> Option<ActiveAttack> {
    if input.light_attack {
        Some(ActiveAttack::Light)
    } else if input.heavy_attack {
        Some(ActiveAttack::Heavy)
    } else if input.special && afford.special {
        Some(ActiveAttack::Special)
    } else if input.mid_kick {
        Some(ActiveAttack::MidKick)
    } else if input.low_kick {
        Some(ActiveAttack::LowKick)
    } else if input.aerial && afford.aerial {
        Some(ActiveAttack::Aerial)
    } else {
        None
    }
}

/// The attack that a detected combo turns into: a three-hit into the combo
/// finisher, a super into the super attack if the stamina pays for it.
pub open spec fn combo_attack(combo: Option<ComboType>, afford: Affordable) -> Option<
    ActiveAttack,
> {
    match combo {
        Some(ComboType::ThreeHit) => Some(ActiveAttack::ComboFinisher),
        Some(ComboType::Super) => if afford.super_attack {
            Some(ActiveAttack::Super)
        } else {
            None
        },
        None => None,
    }
}

impl FighterView {
    /// A fighter at the start of a round.
    pub open spec fn fresh(id: FighterId, facing: Facing, round_wins: u32) -> FighterView {
        FighterView {
            id,
            state_machine: StateMachine::initial(),
            events: Seq::empty(),
            now: 0,
            facing,
            round_wins,
        }
    }

    /// The state machine and the input buffer are well-formed.
    pub open spec fn wf(self) -> bool {
        self.state_machine.wf() && self.events.len() <= MAX_BUFFER_SIZE
    }

    /// The buffer after this frame's attack buttons have been recorded, in
    /// the order light, heavy, special.
    pub open spec fn pressed(self, input: InputState) -> Seq<InputEvent> {
        let e0 = self.events;
        let e1 = if input.light_attack {
            pushed(e0, InputEvent { action: InputAction::LightAttack, frame: self.now })
        } else {
            e0
        };
        let e2 = if input.heavy_attack {
            pushed(e1, InputEvent { action: InputAction::HeavyAttack, frame: self.now })
        } else {
            e1
        };
        if input.special {
            pushed(e2, InputEvent { action: InputAction::Special, frame: self.now })
        } else {
            e2
        }
    }

    /// The attack that the combo in the buffer, this frame's presses
    /// included, turns into.
    pub open spec fn combo_now(self, input: InputState, afford: Affordable) -> Option<
        ActiveAttack,
    > {
        combo_attack(detected_combo(self.pressed(input), self.now), afford)
    }

    /// What the fighter does with this frame's input, by priority: a fighter
    /// that cannot act does nothing; a block comes first, then an affordable
    /// dash, then a combo, then a single attack, then movement.
    pub open spec fn input_outcome(self, input: InputState, afford: Affordable) -> InputOutcome {
        if !self.state_machine.spec_can_act() {
            InputOutcome::Busy
        } else if input.block {
            InputOutcome::Blocked
        } else if input.dash && afford.dash {
            InputOutcome::Dashed
        } else if self.combo_now(input, afford).is_some() {
            InputOutcome::Attacked(self.combo_now(input, afford).unwrap())
        } else if single_attack(input, afford).is_some() {
            InputOutcome::Attacked(single_attack(input, afford).unwrap())
        } else if input.spec_has_movement() {
            InputOutcome::Moved
        } else {
            InputOutcome::Stopped
        }
    }

    /// The fighter after this frame's input. A busy fighter only lets go of a
    /// block that is no longer held. A combo that starts its attack uses the
    /// buffer up; otherwise the buffer keeps this frame's presses.
    pub open spec fn after_input(
        self,
        input: InputState,
        moves: MoveFrames,
        afford: Affordable,
    ) -> FighterView {
        let sm = self.state_machine;
        match self.input_outcome(input, afford) {
            InputOutcome::Busy => FighterView {
                state_machine: if sm.state == FighterState::Blocking && !input.block {
                    StateMachine { state: FighterState::Idle, frame_counter: 0, ..sm }
                } else {
                    sm
                },
                ..self
            },
            InputOutcome::Blocked => FighterView {
                state_machine: sm.timed(FighterState::Blocking, 0),
                ..self
            },
            InputOutcome::Dashed => FighterView {
                state_machine: sm.timed(FighterState::Dashing, moves.dash_frames),
                ..self
            },
            InputOutcome::Attacked(attack) => FighterView {
                state_machine: sm.attacking(
                    attack,
                    moves.spec_get(attack).startup_frames,
                    moves.spec_get(attack).active_frames,
                    moves.spec_get(attack).recovery_frames,
                ),
                events: if self.combo_now(input, afford).is_some() {
                    Seq::empty()
                } else {
                    self.pressed(input)
                },
                ..self
            },
            InputOutcome::Moved => FighterView {
                state_machine: StateMachine { state: FighterState::Moving, ..sm },
                events: self.pressed(input),
                ..self
            },
            InputOutcome::Stopped => FighterView {
                state_machine: StateMachine { state: FighterState::Idle, ..sm },
                events: self.pressed(input),
                ..self
            },
        }
    }
}

impl FighterView {
    /// The fighter with the buffer's clock at `frame` and the expired inputs
    /// at its front dropped.
    pub open spec fn clocked(self, frame: u32) -> FighterView {
        FighterView { now: frame, events: without_expired_front(self.events, frame), ..self }
    }

    /// The fighter after the first half of fighting frame `frame`: buffer
    /// clock and expiry, input, one step of the state machine, and the turn
    /// toward the opponent of a fighter that can act.
    pub open spec fn after_frame_start(
        self,
        frame: u32,
        input: InputState,
        facts: FighterFacts,
    ) -> FighterView {
        let acted = self.clocked(frame).after_input(input, facts.moves, facts.afford);
        let stepped = acted.state_machine.after_tick();
        FighterView {
            state_machine: stepped,
            facing: if stepped.spec_can_act() {
                if facts.left_of_opponent {
                    Facing::Right
                } else {
                    Facing::Left
                }
            } else {
                self.facing
            },
            ..acted
        }
    }

    /// What the first half of fighting frame `frame` asks of the host.
    pub open spec fn frame_orders(
        self,
        frame: u32,
        input: InputState,
        facts: FighterFacts,
    ) -> FighterOrders {
        let acted = self.clocked(frame).after_input(input, facts.moves, facts.afford);
        FighterOrders {
            outcome: self.clocked(frame).input_outcome(input, facts.afford),
            heading: self.facing,
            lunge: acted.state_machine.state == FighterState::Attacking
                && acted.state_machine.frame_counter == 0,
            regen: acted.state_machine.after_tick().spec_can_act(),
        }
    }
}

impl Fighter {
    /// A fighter at the start of its first round.
    pub fn new(id: FighterId, facing: Facing) -> (fighter: Fighter)
        ensures
            fighter@ == FighterView::fresh(id, facing, 0),
            fighter@.wf(),
    {
        Fighter {
            id,
            state_machine: StateMachine::new(),
            input_buffer: InputBuffer::new(),
            facing,
            round_wins: 0,
        }
    }

    /// Makes the fighter ready for a new round; the rounds won stay.
    pub fn reset_round(&mut self, facing: Facing)
        ensures
            final(self)@ == FighterView::fresh(old(self).id, facing, old(self).round_wins),
            final(self)@.wf(),
    {
        self.state_machine = StateMachine::new();
        self.input_buffer = InputBuffer::new();
        self.facing = facing;
    }

    /// Runs the fighter's own part of a fighting frame, up to the combat
    /// check: moves the input buffer's clock to `frame` and drops expired
    /// inputs, processes the input, steps the state machine, and turns a
    /// fighter that can act toward its opponent.
    pub fn begin_frame(&mut self, frame: u32, input: &InputState, facts: &FighterFacts) -> (orders:
        FighterOrders)
        ensures
            final(self)@ == old(self)@.after_frame_start(frame, *input, *facts),
            orders == old(self)@.frame_orders(frame, *input, *facts),
            old(self)@.wf() ==> final(self)@.wf(),
    {
        let heading = self.facing;
        self.input_buffer.set_frame(frame);
        self.input_buffer.expire_old();
        let outcome = self.process_input(input, &facts.moves, &facts.afford);
        let lunge = self.state_machine.state == FighterState::Attacking
            && self.state_machine.frame_counter == 0;
        self.state_machine.tick();
        let regen = self.state_machine.can_act();
        if regen {
            self.facing = if facts.left_of_opponent {
                Facing::Right
            } else {
                Facing::Left
            };
        }
        FighterOrders { outcome, heading, lunge, regen }
    }

    /// Starts `attack` with the fighter's frame data; the fighter can act.
    fn launch_attack(&mut self, attack: ActiveAttack, moves: &MoveFrames)
        requires
            old(self).state_machine.spec_can_act(),
        ensures
            final(self).state_machine == old(self).state_machine.attacking(
                attack,
                moves.spec_get(attack).startup_frames,
                moves.spec_get(attack).active_frames,
                moves.spec_get(attack).recovery_frames,
            ),
            final(self).input_buffer == old(self).input_buffer,
            final(self).id == old(self).id,
            final(self).facing == old(self).facing,
            final(self).round_wins == old(self).round_wins,
    {
        let frames = moves.get(attack);
        self.state_machine.start_attack(
            attack,
            frames.startup_frames,
            frames.active_frames,
            frames.recovery_frames,
        );
    }

    /// Decides what the fighter does with one frame of input, and does the
    /// part of it that concerns the state machine and the input buffer.
    ///
    /// `moves` is the fighter's frame data and `afford` says what its stamina
    /// pays for. The outcome tells the host how to move the body and what to
    /// charge.
    pub fn process_input(
        &mut self,
        input: &InputState,
        moves: &MoveFrames,
        afford: &Affordable,
    ) -> (outcome: InputOutcome)
        ensures
            outcome == old(self)@.input_outcome(*input, *afford),
            final(self)@ == old(self)@.after_input(*input, *moves, *afford),
            old(self)@.wf() ==> final(self)@.wf(),
    {
        if !self.state_machine.can_act() {
            if self.state_machine.state == FighterState::Blocking && !input.block {
                self.state_machine.stop_block();
            }
            return InputOutcome::Busy;
        }
        if input.block {
            self.state_machine.start_block();
            return InputOutcome::Blocked;
        }
        if input.dash && afford.dash {
            self.state_machine.start_dash(moves.dash_frames);
            return InputOutcome::Dashed;
        }
        if input.light_attack {
            self.input_buffer.push(InputAction::LightAttack);
        }
        if input.heavy_attack {
            self.input_buffer.push(InputAction::HeavyAttack);
        }
        if input.special {
            self.input_buffer.push(InputAction::Special);
        }
        let combo = match self.input_buffer.detect_combo() {
            Some(ComboType::ThreeHit) => Some(ActiveAttack::ComboFinisher),
            Some(ComboType::Super) => if afford.super_attack {
                Some(ActiveAttack::Super)
            } else {
                None
            },
            None => None,
        };
        if let Some(attack) = combo {
            self.launch_attack(attack, moves);
            self.input_buffer.clear();
            return InputOutcome::Attacked(attack);
        }
        let single = if input.light_attack {
            Some(ActiveAttack::Light)
        } else if input.heavy_attack {
            Some(ActiveAttack::Heavy)
        } else if input.special && afford.special {
            Some(ActiveAttack::Special)
        } else if input.mid_kick {
            Some(ActiveAttack::MidKick)
        } else if input.low_kick {
            Some(ActiveAttack::LowKick)
        } else if input.aerial && afford.aerial {
            Some(ActiveAttack::Aerial)
        } else {
            None
        };
        if let Some(attack) = single {
            self.launch_attack(attack, moves);
            return InputOutcome::Attacked(attack);
        }
        if input.has_movement() {
            self.state_machine.set_moving();
            InputOutcome::Moved
        } else {
            self.state_machine.set_idle();
            InputOutcome::Stopped
        }
    }
}

/// The phases of a match.
#[derive(Debug, Clone, Copy, PartialEq, Eq, Structural)]
pub enum GamePhase {
    FighterSelect,
    /// The "3, 2, 1, FIGHT!" before a round.
    Countdown,
    Fighting,
    /// The pause after a round.
    RoundOver,
    MatchOver,
}

/// Which fighter has the larger share of its health left.
#[derive(Debug, Clone, Copy, PartialEq, Eq, Structural)]
pub enum HealthLead {
    PlayerOne,
    PlayerTwo,
    Level,
}

/// What the host reads off the two health bars at the end of a frame.
#[derive(Debug, Clone, Copy, PartialEq, Eq, Structural)]
pub struct Vitals {
    pub p1_alive: bool,
    pub p2_alive: bool,
    pub lead: HealthLead,
}

/// How a round ended.
#[derive(Debug, Clone, Copy, PartialEq, Eq, Structural)]
pub enum RoundResult {
    PlayerOneWins,
    PlayerTwoWins,
    Draw,
}

/// What a tick leaves for the host to do.
#[derive(Debug, Clone, Copy, PartialEq, Eq, Structural)]
pub enum TickOutcome {
    /// Nothing: the frame is complete.
    Settled,
    /// A new round was set up: the host puts both bodies back on their
    /// marks and refills health and stamina.
    NewRound,
    /// The first half of a fighting frame is done. The host carries out the
    /// orders of both fighters, resolves the attack of each against the
    /// other, integrates the bodies and then finishes the frame.
    Fight(FighterOrders, FighterOrders),
}

/// What the end of a fighting frame tells the host.
#[derive(Debug, Clone, Copy, PartialEq, Eq, Structural)]
pub struct FrameEnd {
    /// Player one landed from the air and was knocked down: it stops moving.
    pub p1_touched_down: bool,
    /// Player two landed from the air and was knocked down: it stops moving.
    pub p2_touched_down: bool,
    /// How the round ended, if it ended with this frame.
    pub result: Option<RoundResult>,
}

/// An attack that one fighter can land on the other this frame.
#[derive(Debug, Clone, Copy, PartialEq, Eq, Structural)]
pub struct Threat {
    pub attack: ActiveAttack,
    /// Where the attacker looks, which mirrors the hitbox.
    pub facing: Facing,
    /// Whether the defender blocks.
    pub blocked: bool,
}

/// What a hit is worth, as far as the rules go: whether the attack launches,
/// whether the hit uses the defender's health up, and its hitstun in frames.
#[derive(Debug, Clone, Copy, PartialEq, Eq, Structural)]
pub struct HitFacts {
    pub attack_launches: bool,
    pub lethal: bool,
    pub hitstun_frames: u32,
}

/// How a round ends, if it does: by knockout, or on time by the health that
/// is left. A double knockout is a draw, and so is level health on time.
pub open spec fn round_result(vitals: Vitals, time_up: bool) -> Option<RoundResult> {
    if vitals.p1_alive && vitals.p2_alive && !time_up {
        None
    } else if !vitals.p1_alive && !vitals.p2_alive {
        Some(RoundResult::Draw)
    } else if !vitals.p1_alive {
        Some(RoundResult::PlayerTwoWins)
    } else if !vitals.p2_alive {
        Some(RoundResult::PlayerOneWins)
    } else {
        Some(
            match vitals.lead {
                HealthLead::PlayerOne => RoundResult::PlayerOneWins,
                HealthLead::PlayerTwo => RoundResult::PlayerTwoWins,
                HealthLead::Level => RoundResult::Draw,
            },
        )
    }
}

/// The match: two fighters and the counters of rounds and frames.
#[derive(Debug, Clone)]
pub struct GameState {
    pub fighters: [Fighter; 2],
    pub phase: GamePhase,
    pub frame: u32,
    pub round_timer: u32,
    pub current_round: u32,
    pub countdown_timer: u32,
    pub round_over_timer: u32,
}

/// A match as the contracts see it.
pub struct GameView {
    pub p1: FighterView,
    pub p2: FighterView,
    pub phase: GamePhase,
    pub frame: u32,
    pub round_timer: u32,
    pub current_round: u32,
    pub countdown_timer: u32,
    pub round_over_timer: u32,
}

impl View for GameState {
    type V = GameView;

    open spec fn view(&self) -> GameView {
        GameView {
            p1: self.fighters[0]@,
            p2: self.fighters[1]@,
            phase: self.phase,
            frame: self.frame,
            round_timer: self.round_timer,
            current_round: self.current_round,
            countdown_timer: self.countdown_timer,
            round_over_timer: self.round_over_timer,
        }
    }
}

/// The steps that a match can take from one phase to the next: the choice of
/// fighters leads to the countdown, the countdown to the fight, the fight to
/// the pause after the round, and the pause to the next countdown or to the end
/// of the match. Staying in a phase is a step too.
pub open spec fn phase_follows(before: GamePhase, after: GamePhase) -> bool {
    before == after || match before {
        GamePhase::FighterSelect => after == GamePhase::Countdown,
        GamePhase::Countdown => after == GamePhase::Fighting,
        GamePhase::Fighting => after == GamePhase::RoundOver,
        GamePhase::RoundOver => after == GamePhase::Countdown || after == GamePhase::MatchOver,
        GamePhase::MatchOver => false,
    }
}

/// The text of the countdown with `timer` frames to go.
pub open spec fn countdown_text(timer: u32) -> Seq<char> {
    if timer > 120 {
        "3"@
    } else if timer > 60 {
        "2"@
    } else if timer > 0 {
        "1"@
    } else {
        "FIGHT!"@
    }
}

impl GameView {
    /// A match before its first round, in the given phase.
    pub open spec fn opening(p1: FighterId, p2: FighterId, phase: GamePhase) -> GameView {
        GameView {
            p1: FighterView::fresh(p1, Facing::Right, 0),
            p2: FighterView::fresh(p2, Facing::Left, 0),
            phase,
            frame: 0,
            round_timer: ROUND_TIME_FRAMES,
            current_round: 1,
            countdown_timer: COUNTDOWN_FRAMES,
            round_over_timer: 0,
        }
    }

    pub open spec fn wf(self) -> bool {
        self.p1.wf() && self.p2.wf()
    }

    /// Fighter 0 is player one, fighter 1 is player two.
    pub open spec fn fighter(self, index: int) -> FighterView {
        if index == 0 {
            self.p1
        } else {
            self.p2
        }
    }

    /// The index of the fighter that has won the match, player one first.
    pub open spec fn winner(self) -> Option<usize> {
        if self.p1.round_wins >= ROUNDS_TO_WIN {
            Some(0usize)
        } else if self.p2.round_wins >= ROUNDS_TO_WIN {
            Some(1usize)
        } else {
            None
        }
    }

    /// The match one frame later, for every phase but `Fighting`: the
    /// countdown runs down and gives way to the fight; the pause after a
    /// round runs down and gives way to the end of the match, if it has a
    /// winner, or else to the countdown of the next round, with both fighters
    /// fresh and their round wins kept. Nothing but the frame counter moves
    /// before the fighters are chosen and after the match.
    pub open spec fn after_idle_tick(self) -> GameView {
        let frame = clamp_frames(self.frame + 1);
        match self.phase {
            GamePhase::FighterSelect | GamePhase::MatchOver | GamePhase::Fighting => GameView {
                frame,
                ..self
            },
            GamePhase::Countdown => if self.countdown_timer > 0 {
                GameView { frame, countdown_timer: (self.countdown_timer - 1) as u32, ..self }
            } else {
                GameView { frame, phase: GamePhase::Fighting, ..self }
            },
            GamePhase::RoundOver => if self.round_over_timer > 0 {
                GameView { frame, round_over_timer: (self.round_over_timer - 1) as u32, ..self }
            } else if self.winner().is_some() {
                GameView { frame, phase: GamePhase::MatchOver, ..self }
            } else {
                GameView {
                    p1: FighterView::fresh(self.p1.id, Facing::Right, self.p1.round_wins),
                    p2: FighterView::fresh(self.p2.id, Facing::Left, self.p2.round_wins),
                    phase: GamePhase::Countdown,
                    frame,
                    round_timer: ROUND_TIME_FRAMES,
                    current_round: clamp_frames(self.current_round + 1),
                    countdown_timer: COUNTDOWN_FRAMES,
                    round_over_timer: self.round_over_timer,
                }
            },
        }
    }

    /// The match `n` frames later while it is not fighting.
    pub open spec fn after_idle_ticks(self, n: nat) -> GameView
        decreases n,
    {
        if n == 0 {
            self
        } else {
            self.after_idle_ticks((n - 1) as nat).after_idle_tick()
        }
    }

    /// The match after `tick`. While fighting, each fighter goes through the
    /// first half of its frame.
    pub open spec fn after_tick(
        self,
        p1_input: InputState,
        p2_input: InputState,
        p1_facts: FighterFacts,
        p2_facts: FighterFacts,
    ) -> GameView {
        if self.phase == GamePhase::Fighting {
            let frame = clamp_frames(self.frame + 1);
            GameView {
                p1: self.p1.after_frame_start(frame, p1_input, p1_facts),
                p2: self.p2.after_frame_start(frame, p2_input, p2_facts),
                frame,
                ..self
            }
        } else {
            self.after_idle_tick()
        }
    }

    /// What `tick` leaves for the host to do.
    pub open spec fn tick_outcome(
        self,
        p1_input: InputState,
        p2_input: InputState,
        p1_facts: FighterFacts,
        p2_facts: FighterFacts,
    ) -> TickOutcome {
        let frame = clamp_frames(self.frame + 1);
        if self.phase == GamePhase::Fighting {
            TickOutcome::Fight(
                self.p1.frame_orders(frame, p1_input, p1_facts),
                self.p2.frame_orders(frame, p2_input, p2_facts),
            )
        } else if self.phase == GamePhase::RoundOver && self.round_over_timer == 0
            && self.winner().is_none() {
            TickOutcome::NewRound
        } else {
            TickOutcome::Settled
        }
    }

    /// The attack that fighter `attacker` can land on the other this frame.
    /// There is none outside the fight.
    pub open spec fn threat(self, attacker: int) -> Option<Threat> {
        let a = self.fighter(attacker);
        let d = self.fighter(1 - attacker);
        match threatening_attack(a.state_machine, d.state_machine) {
            Some(attack) => if self.phase == GamePhase::Fighting {
                Some(
                    Threat {
                        attack,
                        facing: a.facing,
                        blocked: d.state_machine.state == FighterState::Blocking,
                    },
                )
            } else {
                None
            },
            None => None,
        }
    }

    /// The match with the state machines of the two fighters replaced.
    pub open spec fn with_machines(self, attacker: int, a: StateMachine, d: StateMachine) -> GameView {
        if attacker == 0 {
            GameView {
                p1: FighterView { state_machine: a, ..self.p1 },
                p2: FighterView { state_machine: d, ..self.p2 },
                ..self
            }
        } else {
            GameView {
                p1: FighterView { state_machine: d, ..self.p1 },
                p2: FighterView { state_machine: a, ..self.p2 },
                ..self
            }
        }
    }

    /// The match after the attack of fighter `attacker` has landed: the
    /// defender reacts, and the attack is marked as having hit, so that it does
    /// not hit again. Without a threat nothing changes.
    pub open spec fn after_hit(
        self,
        attacker: int,
        attack_launches: bool,
        lethal: bool,
        hitstun_frames: u32,
    ) -> GameView {
        match self.threat(attacker) {
            Some(t) => self.with_machines(
                attacker,
                StateMachine { hit_connected: true, ..self.fighter(attacker).state_machine },
                reacted(
                    self.fighter(1 - attacker).state_machine,
                    spec_hit_reaction(t.attack, attack_launches, t.blocked, lethal, hitstun_frames),
                ),
            ),
            None => self,
        }
    }

    /// The match after the hit of fighter `attacker`, if its attack reached.
    pub open spec fn after_reach(self, attacker: int, hit: Option<HitFacts>) -> GameView {
        match hit {
            Some(h) => self.after_hit(attacker, h.attack_launches, h.lethal, h.hitstun_frames),
            None => self,
        }
    }

    /// The defender's reaction to the hit of fighter `attacker`, if its
    /// attack reached and was still a threat.
    pub open spec fn reaction_to(self, attacker: int, hit: Option<HitFacts>) -> Option<
        HitReaction,
    > {
        match (hit, self.threat(attacker)) {
            (Some(h), Some(t)) => Some(
                spec_hit_reaction(
                    t.attack,
                    h.attack_launches,
                    t.blocked,
                    h.lethal,
                    h.hitstun_frames,
                ),
            ),
            _ => None,
        }
    }

    /// The match after the combat check: the attack of fighter 0 is resolved
    /// first, and that of fighter 1 against what the first has left.
    pub open spec fn after_combat(self, p1_hit: Option<HitFacts>, p2_hit: Option<HitFacts>) -> GameView {
        self.after_reach(0, p1_hit).after_reach(1, p2_hit)
    }

    /// A fighter after its body has reported whether it landed: an airborne
    /// fighter that landed is knocked down.
    pub open spec fn landed(fighter: FighterView, touched_ground: bool) -> FighterView {
        if touched_ground && fighter.state_machine.state == FighterState::Airborne {
            FighterView {
                state_machine: fighter.state_machine.struck(
                    FighterState::Knockdown,
                    LANDING_KNOCKDOWN_FRAMES,
                ),
                ..fighter
            }
        } else {
            fighter
        }
    }

    /// The round timer after this frame.
    pub open spec fn timer_after_frame(self) -> u32 {
        if self.round_timer > 0 {
            (self.round_timer - 1) as u32
        } else {
            0
        }
    }

    /// How the round ends with this frame, if it does.
    pub open spec fn frame_result(self, vitals: Vitals) -> Option<RoundResult> {
        if self.phase == GamePhase::Fighting {
            round_result(vitals, self.timer_after_frame() == 0)
        } else {
            None
        }
    }

    /// The match after the second half of a fighting frame: landings, the
    /// round timer, and the end of the round with its award. Outside the
    /// fight nothing changes.
    pub open spec fn after_frame_end(
        self,
        p1_landed: bool,
        p2_landed: bool,
        vitals: Vitals,
    ) -> GameView {
        if self.phase != GamePhase::Fighting {
            self
        } else {
            let p1 = Self::landed(self.p1, p1_landed);
            let p2 = Self::landed(self.p2, p2_landed);
            let round_timer = self.timer_after_frame();
            match self.frame_result(vitals) {
                None => GameView { p1, p2, round_timer, ..self },
                Some(result) => GameView {
                    p1: FighterView {
                        round_wins: if result == RoundResult::PlayerOneWins {
                            clamp_frames(p1.round_wins + 1)
                        } else {
                            p1.round_wins
                        },
                        ..p1
                    },
                    p2: FighterView {
                        round_wins: if result == RoundResult::PlayerTwoWins {
                            clamp_frames(p2.round_wins + 1)
                        } else {
                            p2.round_wins
                        },
                        ..p2
                    },
                    round_timer,
                    phase: GamePhase::RoundOver,
                    round_over_timer: ROUND_OVER_FRAMES,
                    ..self
                },
            }
        }
    }
}

impl GameState {
    /// A match between the two fighters, at the countdown of its first
    /// round: player one on the left looking right, player two on the right
    /// looking left.
    pub fn new(p1_fighter: FighterId, p2_fighter: FighterId) -> (game: GameState)
        ensures
            game@ == GameView::opening(p1_fighter, p2_fighter, GamePhase::Countdown),
            game@.wf(),
    {
        GameState {
            fighters: [
                Fighter::new(p1_fighter, Facing::Right),
                Fighter::new(p2_fighter, Facing::Left),
            ],
            phase: GamePhase::Countdown,
            frame: 0,
            round_timer: ROUND_TIME_FRAMES,
            current_round: 1,
            countdown_timer: COUNTDOWN_FRAMES,
            round_over_timer: 0,
        }
    }

    /// A match that waits for its fighters to be chosen; until then both
    /// places are held by the first fighter of the roster.
    pub fn new_in_select() -> (game: GameState)
        ensures
            game@ == GameView::opening(
                FighterId::Kenzo,
                FighterId::Kenzo,
                GamePhase::FighterSelect,
            ),
            game@.wf(),
    {
        GameState {
            fighters: [
                Fighter::new(FighterId::Kenzo, Facing::Right),
                Fighter::new(FighterId::Kenzo, Facing::Left),
            ],
            phase: GamePhase::FighterSelect,
            frame: 0,
            round_timer: ROUND_TIME_FRAMES,
            current_round: 1,
            countdown_timer: COUNTDOWN_FRAMES,
            round_over_timer: 0,
        }
    }

    /// Puts the chosen fighters on their marks and starts the countdown.
    pub fn select_fighters(&mut self, p1: FighterId, p2: FighterId)
        ensures
            final(self)@ == (GameView {
                p1: FighterView::fresh(p1, Facing::Right, 0),
                p2: FighterView::fresh(p2, Facing::Left, 0),
                phase: GamePhase::Countdown,
                countdown_timer: COUNTDOWN_FRAMES,
                ..old(self)@
            }),
            final(self)@.wf(),
    {
        self.fighters = [Fighter::new(p1, Facing::Right), Fighter::new(p2, Facing::Left)];
        self.phase = GamePhase::Countdown;
        self.countdown_timer = COUNTDOWN_FRAMES;
    }

    /// The index of the fighter that has won `ROUNDS_TO_WIN` rounds, if one
    /// has; player one if both have.
    pub fn winner(&self) -> (w: Option<usize>)
        ensures
            w == self@.winner(),
    {
        if self.fighters[0].round_wins >= ROUNDS_TO_WIN {
            Some(0)
        } else if self.fighters[1].round_wins >= ROUNDS_TO_WIN {
            Some(1)
        } else {
            None
        }
    }

    /// The text that the countdown shows: "3", "2", "1", each for a second,
    /// then "FIGHT!".
    pub fn countdown_display(&self) -> (text: &'static str)
        ensures
            text@ == countdown_text(self.countdown_timer),
    {
        if self.countdown_timer > 120 {
            "3"
        } else if self.countdown_timer > 60 {
            "2"
        } else if self.countdown_timer > 0 {
            "1"
        } else {
            "FIGHT!"
        }
    }

    /// Advances the match by one frame, as far as it goes without the
    /// fighters' bodies, and says what is left for the host to do.
    ///
    /// Outside the fight the frame is complete with this call. In the fight
    /// the call runs the first half of the frame for both fighters: input
    /// buffers, input, state machines, facing. These steps touch one fighter
    /// each, so they are run fighter by fighter. The host then carries out
    /// the orders, calls `check_combat` with what the attacks are worth,
    /// integrates the bodies and calls `finish_frame`.
    pub fn tick(
        &mut self,
        p1_input: &InputState,
        p2_input: &InputState,
        p1_facts: &FighterFacts,
        p2_facts: &FighterFacts,
    ) -> (outcome: TickOutcome)
        ensures
            final(self)@ == old(self)@.after_tick(*p1_input, *p2_input, *p1_facts, *p2_facts),
            outcome == old(self)@.tick_outcome(*p1_input, *p2_input, *p1_facts, *p2_facts),
            old(self)@.wf() ==> final(self)@.wf(),
    {
        self.frame = self.frame.saturating_add(1);
        match self.phase {
            GamePhase::FighterSelect | GamePhase::MatchOver => TickOutcome::Settled,
            GamePhase::Countdown => {
                if self.countdown_timer > 0 {
                    self.countdown_timer = self.countdown_timer - 1;
                } else {
                    self.phase = GamePhase::Fighting;
                }
                TickOutcome::Settled
            },
            GamePhase::Fighting => {
                let frame = self.frame;
                let p1_orders = self.fighters[0].begin_frame(frame, p1_input, p1_facts);
                let p2_orders = self.fighters[1].begin_frame(frame, p2_input, p2_facts);
                TickOutcome::Fight(p1_orders, p2_orders)
            },
            GamePhase::RoundOver => {
                if self.round_over_timer > 0 {
                    self.round_over_timer = self.round_over_timer - 1;
                    TickOutcome::Settled
                } else if self.winner().is_some() {
                    self.phase = GamePhase::MatchOver;
                    TickOutcome::Settled
                } else {
                    self.current_round = self.current_round.saturating_add(1);
                    self.fighters[0].reset_round(Facing::Right);
                    self.fighters[1].reset_round(Facing::Left);
                    self.round_timer = ROUND_TIME_FRAMES;
                    self.countdown_timer = COUNTDOWN_FRAMES;
                    self.phase = GamePhase::Countdown;
                    TickOutcome::NewRound
                }
            },
        }
    }

    /// The attack that fighter `attacker` can land on the other fighter now:
    /// it is in its active frames and has not hit yet, and the defender can be
    /// hit. The host tests the hitbox against the hurtbox for it.
    pub fn threat(&self, attacker: usize) -> (threat: Option<Threat>)
        requires
            attacker < 2,
        ensures
            threat == self@.threat(attacker as int),
    {
        let defender = 1 - attacker;
        if self.phase != GamePhase::Fighting {
            return None;
        }
        match pending_attack(
            &self.fighters[attacker].state_machine,
            &self.fighters[defender].state_machine,
        ) {
            Some(attack) => Some(
                Threat {
                    attack,
                    facing: self.fighters[attacker].facing,
                    blocked: is_blocking(&self.fighters[defender].state_machine),
                },
            ),
            None => None,
        }
    }

    /// Lands the attack of fighter `attacker` on the other fighter, after the
    /// host has found that it connects and has taken the damage off.
    ///
    /// `attack_launches` is the attack's launch flag, `lethal` says whether
    /// the defender's health is used up, and `hitstun_frames` is the hitstun
    /// that the hit was worth. Returns the defender's reaction, or `None`
    /// without a change if the fighter threatens no attack.
    pub fn resolve_hit(
        &mut self,
        attacker: usize,
        attack_launches: bool,
        lethal: bool,
        hitstun_frames: u32,
    ) -> (reaction: Option<HitReaction>)
        requires
            attacker < 2,
        ensures
            final(self)@ == old(self)@.after_hit(
                attacker as int,
                attack_launches,
                lethal,
                hitstun_frames,
            ),
            reaction == match old(self)@.threat(attacker as int) {
                Some(t) => Some(
                    spec_hit_reaction(t.attack, attack_launches, t.blocked, lethal, hitstun_frames),
                ),
                None => None,
            },
            old(self)@.wf() ==> final(self)@.wf(),
    {
        let defender = 1 - attacker;
        match self.threat(attacker) {
            Some(t) => {
                let reaction = hit_reaction(
                    t.attack,
                    attack_launches,
                    t.blocked,
                    lethal,
                    hitstun_frames,
                );
                apply_reaction(&mut self.fighters[defender].state_machine, reaction);
                self.fighters[attacker].state_machine.hit_connected = true;
                Some(reaction)
            },
            None => None,
        }
    }

    /// Runs the combat check of a frame in its order: the attack of fighter 0
    /// against fighter 1, then the attack of fighter 1 against fighter 0 as the
    /// first has left it, so that a fighter struck out of its attack lands
    /// nothing.
    ///
    /// `p1_hit` says what the attack that fighter 0 threatens is worth if its
    /// hitbox reaches, and is `None` if it does not reach; `p2_hit` likewise.
    /// Returns the reaction to each hit that landed; the host takes damage
    /// and knockback of those hits, and of no others.
    pub fn check_combat(&mut self, p1_hit: Option<HitFacts>, p2_hit: Option<HitFacts>) -> (landed: (
        Option<HitReaction>,
        Option<HitReaction>,
    ))
        ensures
            final(self)@ == old(self)@.after_combat(p1_hit, p2_hit),
            landed.0 == old(self)@.reaction_to(0, p1_hit),
            landed.1 == old(self)@.after_reach(0, p1_hit).reaction_to(1, p2_hit),
            old(self)@.wf() ==> final(self)@.wf(),
    {
        let first = match p1_hit {
            Some(h) => self.resolve_hit(0, h.attack_launches, h.lethal, h.hitstun_frames),
            None => None,
        };
        let second = match p2_hit {
            Some(h) => self.resolve_hit(1, h.attack_launches, h.lethal, h.hitstun_frames),
            None => None,
        };
        (first, second)
    }

    /// Runs the second half of a fighting frame, after the host has
    /// integrated the bodies: knocks down an airborne fighter whose body
    /// landed, runs the round timer down, and ends the round on a knockout or
    /// on time, with the award. Outside the fight nothing happens.
    pub fn finish_frame(&mut self, p1_landed: bool, p2_landed: bool, vitals: &Vitals) -> (end:
        FrameEnd)
        ensures
            final(self)@ == old(self)@.after_frame_end(p1_landed, p2_landed, *vitals),
            end.result == old(self)@.frame_result(*vitals),
            end.p1_touched_down == (old(self).phase == GamePhase::Fighting && p1_landed && old(
                self,
            )@.p1.state_machine.state == FighterState::Airborne),
            end.p2_touched_down == (old(self).phase == GamePhase::Fighting && p2_landed && old(
                self,
            )@.p2.state_machine.state == FighterState::Airborne),
            old(self)@.wf() ==> final(self)@.wf(),
    {
        if self.phase != GamePhase::Fighting {
            return FrameEnd { p1_touched_down: false, p2_touched_down: false, result: None };
        }
        let p1_touched_down = p1_landed && self.fighters[0].state_machine.state
            == FighterState::Airborne;
        if p1_touched_down {
            self.fighters[0].state_machine.land();
        }
        let p2_touched_down = p2_landed && self.fighters[1].state_machine.state
            == FighterState::Airborne;
        if p2_touched_down {
            self.fighters[1].state_machine.land();
        }
        if self.round_timer > 0 {
            self.round_timer = self.round_timer - 1;
        }
        let result = self.check_round_end(vitals);
        FrameEnd { p1_touched_down, p2_touched_down, result }
    }

    /// Ends the round if a fighter is out or the time is up, and awards it.
    fn check_round_end(&mut self, vitals: &Vitals) -> (result: Option<RoundResult>)
        ensures
            result == round_result(*vitals, old(self).round_timer == 0),
            result.is_none() ==> final(self)@ == old(self)@,
            result.is_some() ==> final(self)@ == (GameView {
                p1: FighterView {
                    round_wins: if result == Some(RoundResult::PlayerOneWins) {
                        clamp_frames(old(self)@.p1.round_wins + 1)
                    } else {
                        old(self)@.p1.round_wins
                    },
                    ..old(self)@.p1
                },
                p2: FighterView {
                    round_wins: if result == Some(RoundResult::PlayerTwoWins) {
                        clamp_frames(old(self)@.p2.round_wins + 1)
                    } else {
                        old(self)@.p2.round_wins
                    },
                    ..old(self)@.p2
                },
                phase: GamePhase::RoundOver,
                round_over_timer: ROUND_OVER_FRAMES,
                ..old(self)@
            }),
    {
        let p1_dead = !vitals.p1_alive;
        let p2_dead = !vitals.p2_alive;
        let time_up = self.round_timer == 0;
        if !(p1_dead || p2_dead || time_up) {
            return None;
        }
        let result = if p1_dead && !p2_dead {
            RoundResult::PlayerTwoWins
        } else if p2_dead && !p1_dead {
            RoundResult::PlayerOneWins
        } else if p1_dead {
            RoundResult::Draw
        } else {
            match vitals.lead {
                HealthLead::PlayerOne => RoundResult::PlayerOneWins,
                HealthLead::PlayerTwo => RoundResult::PlayerTwoWins,
                HealthLead::Level => RoundResult::Draw,
            }
        };
        match result {
            RoundResult::PlayerOneWins => {
                self.fighters[0].round_wins = self.fighters[0].round_wins.saturating_add(1);
            },
            RoundResult::PlayerTwoWins => {
                self.fighters[1].round_wins = self.fighters[1].round_wins.saturating_add(1);
            },
            RoundResult::Draw => {},
        }
        self.phase = GamePhase::RoundOver;
        self.round_over_timer = ROUND_OVER_FRAMES;
        Some(result)
    }
}

/// A fighter that cannot act, such as one in the middle of an attack, starts
/// nothing whatever is pressed: the outcome is `Busy`, the input buffer is
/// left alone, and the state changes only by letting go of a block.
pub proof fn lemma_busy_fighter_starts_nothing(
    fighter: FighterView,
    input: InputState,
    moves: MoveFrames,
    afford: Affordable,
)
    requires
        !fighter.state_machine.spec_can_act(),
    ensures
        fighter.input_outcome(input, afford) == InputOutcome::Busy,
        fighter.after_input(input, moves, afford).events == fighter.events,
        fighter.state_machine.state != FighterState::Blocking ==> fighter.after_input(
            input,
            moves,
            afford,
        ) == fighter,
{
}

/// One attack hits at most once: after its hit has been resolved the
/// attacker threatens nothing more.
pub proof fn lemma_attack_hits_once(
    game: GameView,
    attacker: int,
    attack_launches: bool,
    lethal: bool,
    hitstun_frames: u32,
)
    requires
        attacker == 0 || attacker == 1,
        game.threat(attacker).is_some(),
    ensures
        game.after_hit(attacker, attack_launches, lethal, hitstun_frames).threat(
            attacker,
        ).is_none(),
{
}

/// When both fighters have an attack that reaches in the same frame and the
/// first one's is not blocked, only the first one's lands: the second fighter
/// is struck out of its attack.
pub proof fn lemma_first_hit_cancels_second(game: GameView, p1_hit: HitFacts, p2_hit: HitFacts)
    requires
        game.threat(0).is_some(),
        !game.threat(0).unwrap().blocked,
    ensures
        game.reaction_to(0, Some(p1_hit)).is_some(),
        game.after_reach(0, Some(p1_hit)).reaction_to(1, Some(p2_hit)).is_none(),
        game.after_combat(Some(p1_hit), Some(p2_hit)) == game.after_reach(0, Some(p1_hit)),
{
}

/// A launching attack that connects unblocked sends the defender airborne,
/// or knocks it down if the hit was lethal.
pub proof fn lemma_unblocked_launch_lifts_defender(
    game: GameView,
    attacker: int,
    lethal: bool,
    hitstun_frames: u32,
)
    requires
        attacker == 0 || attacker == 1,
        game.threat(attacker).is_some(),
        !game.threat(attacker).unwrap().blocked,
    ensures
        game.after_hit(attacker, true, lethal, hitstun_frames).fighter(
            1 - attacker,
        ).state_machine.state == if lethal {
            FighterState::Knockdown
        } else {
            FighterState::Airborne
        },
{
}

/// Whatever the players press and whatever the bodies do, a frame moves the
/// match along the order of its phases or leaves it where it is, takes no
/// round win away, keeps both fighters who they are, and never leaves
/// `MatchOver`.
pub proof fn lemma_phases_in_order(
    game: GameView,
    p1_input: InputState,
    p2_input: InputState,
    p1_facts: FighterFacts,
    p2_facts: FighterFacts,
    p1_landed: bool,
    p2_landed: bool,
    vitals: Vitals,
)
    ensures
        ({
            let begun = game.after_tick(p1_input, p2_input, p1_facts, p2_facts);
            let ended = begun.after_frame_end(p1_landed, p2_landed, vitals);
            &&& phase_follows(game.phase, begun.phase)
            &&& phase_follows(begun.phase, ended.phase)
            &&& game.phase == GamePhase::MatchOver ==> ended.phase == GamePhase::MatchOver
            &&& begun.p1.round_wins == game.p1.round_wins
            &&& begun.p2.round_wins == game.p2.round_wins
            &&& ended.p1.round_wins >= game.p1.round_wins
            &&& ended.p2.round_wins >= game.p2.round_wins
            &&& game.winner().is_some() ==> ended.winner().is_some()
            &&& ended.p1.id == game.p1.id
            &&& ended.p2.id == game.p2.id
        }),
{
}

/// Resolving a hit changes the two state machines and nothing else: phase,
/// counters, round wins, facings and input buffers stay.
pub proof fn lemma_hit_touches_only_the_machines(
    game: GameView,
    attacker: int,
    attack_launches: bool,
    lethal: bool,
    hitstun_frames: u32,
)
    requires
        attacker == 0 || attacker == 1,
    ensures
        ({
            let after = game.after_hit(attacker, attack_launches, lethal, hitstun_frames);
            &&& after == game.with_machines(
                attacker,
                after.fighter(attacker).state_machine,
                after.fighter(1 - attacker).state_machine,
            )
            &&& after.fighter(attacker).state_machine.state == game.fighter(
                attacker,
            ).state_machine.state
        }),
{
}

/// When the round timer runs out with both fighters standing, the round is
/// over and goes to the fighter with the larger share of health left; with
/// level health nobody is awarded it.
pub proof fn lemma_timeout_awards_leader(
    game: GameView,
    p1_landed: bool,
    p2_landed: bool,
    lead: HealthLead,
)
    requires
        game.phase == GamePhase::Fighting,
        game.round_timer <= 1,
    ensures
        ({
            let vitals = Vitals { p1_alive: true, p2_alive: true, lead };
            let after = game.after_frame_end(p1_landed, p2_landed, vitals);
            &&& after.phase == GamePhase::RoundOver
            &&& after.round_over_timer == ROUND_OVER_FRAMES
            &&& after.p1.round_wins == if lead == HealthLead::PlayerOne {
                clamp_frames(game.p1.round_wins + 1)
            } else {
                game.p1.round_wins
            }
            &&& after.p2.round_wins == if lead == HealthLead::PlayerTwo {
                clamp_frames(game.p2.round_wins + 1)
            } else {
                game.p2.round_wins
            }
        }),
{
}

/// A fighter without health ends the round with the frame: the match is in
/// `RoundOver`, and the other fighter, if it still stands, has one round win
/// more. A double knockout awards nobody.
pub proof fn lemma_knockout_ends_round(
    game: GameView,
    p1_landed: bool,
    p2_landed: bool,
    vitals: Vitals,
)
    requires
        game.phase == GamePhase::Fighting,
        !vitals.p1_alive || !vitals.p2_alive,
    ensures
        ({
            let after = game.after_frame_end(p1_landed, p2_landed, vitals);
            &&& after.phase == GamePhase::RoundOver
            &&& after.round_over_timer == ROUND_OVER_FRAMES
            &&& after.p1.round_wins == if vitals.p1_alive {
                clamp_frames(game.p1.round_wins + 1)
            } else {
                game.p1.round_wins
            }
            &&& after.p2.round_wins == if vitals.p2_alive {
                clamp_frames(game.p2.round_wins + 1)
            } else {
                game.p2.round_wins
            }
        }),
{
}

/// While both fighters stand and time is left, the fight goes on and nobody
/// is awarded anything.
pub proof fn lemma_round_goes_on(
    game: GameView,
    p1_landed: bool,
    p2_landed: bool,
    lead: HealthLead,
)
    requires
        game.phase == GamePhase::Fighting,
        game.round_timer > 1,
    ensures
        ({
            let vitals = Vitals { p1_alive: true, p2_alive: true, lead };
            let after = game.after_frame_end(p1_landed, p2_landed, vitals);
            &&& after.phase == GamePhase::Fighting
            &&& after.round_timer == game.round_timer - 1
            &&& after.p1.round_wins == game.p1.round_wins
            &&& after.p2.round_wins == game.p2.round_wins
        }),
{
}

/// The countdown gives way to the fight with the frame after it has run
/// out, not before.
pub proof fn lemma_countdown_leads_to_fight(game: GameView, n: nat)
    requires
        game.phase == GamePhase::Countdown,
        n <= game.countdown_timer + 1,
    ensures
        n <= game.countdown_timer ==> game.after_idle_ticks(n).phase == GamePhase::Countdown
            && game.after_idle_ticks(n).countdown_timer == game.countdown_timer - n,
        n == game.countdown_timer + 1 ==> game.after_idle_ticks(n).phase == GamePhase::Fighting,
    decreases n,
{
    if n > 0 {
        lemma_countdown_leads_to_fight(game, (n - 1) as nat);
    }
}

/// A fighter with `ROUNDS_TO_WIN` round wins ends the match: when the pause
/// after the round has run out the match is in `MatchOver`, where it stays,
/// and `winner` names that fighter throughout.
pub proof fn lemma_match_ends_after_pause(game: GameView, n: nat)
    requires
        game.phase == GamePhase::RoundOver,
        game.winner().is_some(),
    ensures
        game.after_idle_ticks(n).winner() == game.winner(),
        n <= game.round_over_timer ==> game.after_idle_ticks(n).phase == GamePhase::RoundOver
            && game.after_idle_ticks(n).round_over_timer == game.round_over_timer - n,
        n > game.round_over_timer ==> game.after_idle_ticks(n).phase == GamePhase::MatchOver,
    decreases n,
{
    if n > 0 {
        lemma_match_ends_after_pause(game, (n - 1) as nat);
    }
}

/// Without a match winner the pause after a round leads into the countdown
/// of the next round: both fighters are fresh, on their sides, and keep their
/// round wins.
pub proof fn lemma_next_round_after_pause(game: GameView)
    requires
        game.phase == GamePhase::RoundOver,
        game.winner().is_none(),
    ensures
        ({
            let after = game.after_idle_ticks((game.round_over_timer + 1) as nat);
            &&& after.phase == GamePhase::Countdown
            &&& after.countdown_timer == COUNTDOWN_FRAMES
            &&& after.round_timer == ROUND_TIME_FRAMES
            &&& after.current_round == clamp_frames(game.current_round + 1)
            &&& after.p1 == FighterView::fresh(game.p1.id, Facing::Right, game.p1.round_wins)
            &&& after.p2 == FighterView::fresh(game.p2.id, Facing::Left, game.p2.round_wins)
        }),
{
    lemma_pause_runs_down(game, game.round_over_timer as nat);
}

/// During the pause after a round only the pause timer and the frame
/// counter move.
proof fn lemma_pause_runs_down(game: GameView, n: nat)
    requires
        game.phase == GamePhase::RoundOver,
        n <= game.round_over_timer,
    ensures
        game.after_idle_ticks(n) == (GameView {
            frame: game.after_idle_ticks(n).frame,
            round_over_timer: (game.round_over_timer - n) as u32,
            ..game
        }),
    decreases n,
{
    if n > 0 {
        lemma_pause_runs_down(game, (n - 1) as nat);
    }
}

} // verus!
