use crate::game::GamePhase;
use crate::state_machine::{ActiveAttack, AttackPhase, FighterState, StateMachine};
use crate::types::Facing;
use vstd::prelude::*;

verus! {

/// The attack in progress as a presentation layer sees it.
#[derive(Debug, Clone, Copy)]
pub struct AttackSnapshot {
    pub attack_type: &'static str,
    pub phase: &'static str,
    pub phase_num: u8,
    pub hit_connected: bool,
    pub frame_counter: u32,
    pub total_frames: u32,
}

pub open spec fn spec_phase_str(phase: GamePhase) -> Seq<char> {
    match phase {
        GamePhase::FighterSelect => "FighterSelect"@,
        GamePhase::Countdown => "Countdown"@,
        GamePhase::Fighting => "Fighting"@,
        GamePhase::RoundOver => "RoundOver"@,
        GamePhase::MatchOver => "MatchOver"@,
    }
}

pub open spec fn spec_state_num(state: FighterState) -> u8 {
    match state {
        FighterState::Idle => 0,
        FighterState::Moving => 1,
        FighterState::Attacking => 2,
        FighterState::Blocking => 3,
        FighterState::Dashing => 4,
        FighterState::HitStun => 5,
        FighterState::Airborne => 6,
        FighterState::Knockdown => 7,
        FighterState::GettingUp => 8,
    }
}

pub open spec fn spec_attack_type_str(attack: ActiveAttack) -> Seq<char> {
    match attack {
        ActiveAttack::Light => "Light"@,
        ActiveAttack::Heavy => "Heavy"@,
        ActiveAttack::Special => "Special"@,
        ActiveAttack::MidKick => "MidKick"@,
        ActiveAttack::LowKick => "LowKick"@,
        ActiveAttack::Aerial => "Aerial"@,
        ActiveAttack::ComboFinisher => "ComboFinisher"@,
        ActiveAttack::Super => "Super"@,
    }
}

pub open spec fn spec_attack_phase_str(phase: AttackPhase) -> Seq<char> {
    match phase {
        AttackPhase::Startup => "Startup"@,
        AttackPhase::Active => "Active"@,
        AttackPhase::Recovery => "Recovery"@,
    }
}

pub open spec fn spec_attack_phase_num(phase: AttackPhase) -> u8 {
    match phase {
        AttackPhase::Startup => 0,
        AttackPhase::Active => 1,
        AttackPhase::Recovery => 2,
    }
}

pub open spec fn spec_facing_str(facing: Facing) -> Seq<char> {
    match facing {
        Facing::Right => "Right"@,
        Facing::Left => "Left"@,
    }
}

/// The character that stands for a fighter in a text arena: a letter for
/// what it is doing, or `default` while it is idle, moving or airborne.
pub open spec fn spec_fighter_char(state: FighterState, default: char) -> char {
    match state {
        FighterState::Attacking => 'A',
        FighterState::Blocking => 'B',
        FighterState::Dashing => 'D',
        FighterState::HitStun => 'H',
        FighterState::Knockdown => '_',
        FighterState::GettingUp => '^',
        _ => default,
    }
}

/// The name of a match phase.
pub fn phase_str(phase: GamePhase) -> (s: &'static str)
    ensures
        s@ == spec_phase_str(phase),
{
    match phase {
        GamePhase::FighterSelect => "FighterSelect",
        GamePhase::Countdown => "Countdown",
        GamePhase::Fighting => "Fighting",
        GamePhase::RoundOver => "RoundOver",
        GamePhase::MatchOver => "MatchOver",
    }
}

/// The display name of a fighter state.
pub fn state_str(state: FighterState) -> (s: &'static str)
    ensures
        s@ == state.spec_name(),
{
    state.name()
}

/// The number of a fighter state, counting from `Idle` as 0.
pub fn state_num(state: FighterState) -> (n: u8)
    ensures
        n == spec_state_num(state),
{
    match state {
        FighterState::Idle => 0,
        FighterState::Moving => 1,
        FighterState::Attacking => 2,
        FighterState::Blocking => 3,
        FighterState::Dashing => 4,
        FighterState::HitStun => 5,
        FighterState::Airborne => 6,
        FighterState::Knockdown => 7,
        FighterState::GettingUp => 8,
    }
}

/// The name of an attack kind.
pub fn attack_type_str(attack: ActiveAttack) -> (s: &'static str)
    ensures
        s@ == spec_attack_type_str(attack),
{
    match attack {
        ActiveAttack::Light => "Light",
        ActiveAttack::Heavy => "Heavy",
        ActiveAttack::Special => "Special",
        ActiveAttack::MidKick => "MidKick",
        ActiveAttack::LowKick => "LowKick",
        ActiveAttack::Aerial => "Aerial",
        ActiveAttack::ComboFinisher => "ComboFinisher",
        ActiveAttack::Super => "Super",
    }
}

/// The name of an attack phase.
pub fn attack_phase_str(phase: AttackPhase) -> (s: &'static str)
    ensures
        s@ == spec_attack_phase_str(phase),
{
    match phase {
        AttackPhase::Startup => "Startup",
        AttackPhase::Active => "Active",
        AttackPhase::Recovery => "Recovery",
    }
}

/// The number of an attack phase, counting from `Startup` as 0.
pub fn attack_phase_num(phase: AttackPhase) -> (n: u8)
    ensures
        n == spec_attack_phase_num(phase),
{
    match phase {
        AttackPhase::Startup => 0,
        AttackPhase::Active => 1,
        AttackPhase::Recovery => 2,
    }
}

/// The name of a facing.
pub fn facing_str(facing: Facing) -> (s: &'static str)
    ensures
        s@ == spec_facing_str(facing),
{
    match facing {
        Facing::Right => "Right",
        Facing::Left => "Left",
    }
}

/// The character that stands for a fighter in a text arena.
pub fn fighter_char(state: FighterState, default: char) -> (c: char)
    ensures
        c == spec_fighter_char(state, default),
{
    match state {
        FighterState::Attacking => 'A',
        FighterState::Blocking => 'B',
        FighterState::Dashing => 'D',
        FighterState::HitStun => 'H',
        FighterState::Knockdown => '_',
        FighterState::GettingUp => '^',
        _ => default,
    }
}

/// The snapshot of the attack that the machine records, if it records one.
/// A recorded attack without a phase is shown in startup.
pub fn attack_snapshot(sm: &StateMachine) -> (snap: Option<AttackSnapshot>)
    ensures
        snap.is_some() == sm.attack.is_some(),
        snap.is_some() ==> ({
            let phase = if sm.attack_phase.is_some() {
                sm.attack_phase.unwrap()
            } else {
                AttackPhase::Startup
            };
            &&& snap.unwrap().attack_type@ == spec_attack_type_str(sm.attack.unwrap())
            &&& snap.unwrap().phase@ == spec_attack_phase_str(phase)
            &&& snap.unwrap().phase_num == spec_attack_phase_num(phase)
            &&& snap.unwrap().hit_connected == sm.hit_connected
            &&& snap.unwrap().frame_counter == sm.frame_counter
            &&& snap.unwrap().total_frames == sm.total_frames
        }),
{
    match sm.attack {
        Some(attack) => {
            let phase = match sm.attack_phase {
                Some(p) => p,
                None => AttackPhase::Startup,
            };
            Some(
                AttackSnapshot {
                    attack_type: attack_type_str(attack),
                    phase: attack_phase_str(phase),
                    phase_num: attack_phase_num(phase),
                    hit_connected: sm.hit_connected,
                    frame_counter: sm.frame_counter,
                    total_frames: sm.total_frames,
                },
            )
        },
        None => None,
    }
}

} // verus!
