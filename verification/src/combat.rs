use crate::state_machine::{clamp_frames, ActiveAttack, FighterState, StateMachine};
use vstd::prelude::*;

verus! {

/// Knockdown frames of a knockout: the fighter stays down for the rest of the
/// round.
pub const KNOCKOUT_FRAMES: u32 = 9999;

/// Knockdown frames of a hard knockdown.
pub const HARD_KNOCKDOWN_FRAMES: u32 = 40;

/// Hitstun frames of a hit before the attack's force and the combo count
/// come in.
pub const HITSTUN_BASE_FRAMES: u32 = 12;

/// The hitstun a hit is worth before combo scaling: half the base if it was
/// blocked, else the base and one frame for each unit of knockback force.
pub open spec fn base_hitstun(knockback_force: u32, blocked: bool) -> int {
    if blocked {
        HITSTUN_BASE_FRAMES as int / 2
    } else {
        HITSTUN_BASE_FRAMES + knockback_force
    }
}

/// The share of its hitstun, in percent, that a hit keeps when the defender
/// has already taken `combo_hits` hits in a row: 25 less for each, and never
/// under 30.
pub open spec fn combo_hitstun_percent(combo_hits: u32) -> int {
    if 100 - 25 * combo_hits < 30 {
        30
    } else {
        100 - 25 * combo_hits
    }
}

/// The hitstun of a hit in frames: the base hitstun scaled by the combo
/// share and rounded to the nearest frame, half a frame rounding up.
pub open spec fn spec_hitstun_frames(knockback_force: u32, blocked: bool, combo_hits: u32) -> int {
    (base_hitstun(knockback_force, blocked) * combo_hitstun_percent(combo_hits) + 50) / 100
}

/// What a hit does to the state of the fighter it lands on.
#[derive(Debug, Clone, Copy, PartialEq, Eq, Structural)]
pub enum HitReaction {
    /// The hit took the last health: a knockdown of `KNOCKOUT_FRAMES`.
    Knockout,
    /// The defender is sent airborne.
    Launch,
    /// A knockdown of `HARD_KNOCKDOWN_FRAMES`.
    HardKnockdown,
    /// Hitstun for the given number of frames.
    Stun(u32),
    /// The hit was blocked and changes nothing.
    Guarded,
}

/// The attacks that knock down when they land unblocked.
pub open spec fn causes_knockdown(attack: ActiveAttack) -> bool {
    attack == ActiveAttack::ComboFinisher || attack == ActiveAttack::Super || attack
        == ActiveAttack::LowKick
}

/// The attack that `attacker` threatens `defender` with this frame: the one in
/// its active frames that has not hit yet, provided the defender can be hit.
pub open spec fn threatening_attack(attacker: StateMachine, defender: StateMachine) -> Option<
    ActiveAttack,
> {
    if attacker.spec_is_attack_active() && !attacker.hit_connected
        && defender.spec_is_vulnerable() {
        attacker.attack
    } else {
        None
    }
}

/// The reaction to a hit, by priority: a lethal hit knocks out; else an
/// unblocked launching attack launches; else an unblocked combo finisher,
/// super or low kick knocks down; else an unblocked hit stuns; a blocked hit
/// that did none of these changes nothing.
pub open spec fn spec_hit_reaction(
    attack: ActiveAttack,
    attack_launches: bool,
    blocked: bool,
    lethal: bool,
    hitstun_frames: u32,
) -> HitReaction {
    if lethal {
        HitReaction::Knockout
    } else if attack_launches && !blocked {
        HitReaction::Launch
    } else if !blocked && causes_knockdown(attack) {
        HitReaction::HardKnockdown
    } else if !blocked {
        HitReaction::Stun(hitstun_frames)
    } else {
        HitReaction::Guarded
    }
}

/// The defender's machine after it has taken `reaction`.
pub open spec fn reacted(defender: StateMachine, reaction: HitReaction) -> StateMachine {
    match reaction {
        HitReaction::Knockout => defender.struck(FighterState::Knockdown, KNOCKOUT_FRAMES),
        HitReaction::Launch => defender.struck(FighterState::Airborne, 0),
        HitReaction::HardKnockdown => defender.struck(
            FighterState::Knockdown,
            HARD_KNOCKDOWN_FRAMES,
        ),
        HitReaction::Stun(frames) => defender.struck(FighterState::HitStun, frames),
        HitReaction::Guarded => defender,
    }
}

/// The attack that `attacker` can land on `defender` this frame, if any.
pub fn pending_attack(attacker: &StateMachine, defender: &StateMachine) -> (attack: Option<
    ActiveAttack,
>)
    ensures
        attack == threatening_attack(*attacker, *defender),
        attacker.wf() && attacker.spec_is_attack_active() && !attacker.hit_connected
            && defender.spec_is_vulnerable() ==> attack.is_some(),
{
    if !attacker.is_attack_active() {
        return None;
    }
    if attacker.hit_connected {
        return None;
    }
    if !defender.is_vulnerable() {
        return None;
    }
    attacker.attack
}

/// Whether a hit on this fighter now would be blocked.
pub fn is_blocking(defender: &StateMachine) -> (b: bool)
    ensures
        b == (defender.state == FighterState::Blocking),
{
    defender.state == FighterState::Blocking
}

/// The frames of hitstun that a hit is worth. `knockback_force` is the
/// attack's knockback force rounded to a whole number, and `combo_hits` the
/// hits that the defender has already taken in a row.
pub fn hitstun_frames(knockback_force: u32, blocked: bool, combo_hits: u32) -> (frames: u32)
    ensures
        frames == clamp_frames(spec_hitstun_frames(knockback_force, blocked, combo_hits)),
{
    let base: u64 = if blocked {
        6
    } else {
        12 + knockback_force as u64
    };
    let scaled: u64 = if combo_hits == 0 {
        base * 100
    } else if combo_hits == 1 {
        base * 75
    } else if combo_hits == 2 {
        base * 50
    } else {
        base * 30
    };
    proof {
        lemma_scaled_hitstun(base as int, combo_hits);
    }
    let frames: u64 = (scaled + 50) / 100;
    if frames > u32::MAX as u64 {
        u32::MAX
    } else {
        frames as u32
    }
}

/// Chooses the reaction to a hit that has landed.
pub fn hit_reaction(
    attack: ActiveAttack,
    attack_launches: bool,
    blocked: bool,
    lethal: bool,
    hitstun_frames: u32,
) -> (reaction: HitReaction)
    ensures
        reaction == spec_hit_reaction(attack, attack_launches, blocked, lethal, hitstun_frames),
{
    let knocks_down = match attack {
        ActiveAttack::ComboFinisher | ActiveAttack::Super | ActiveAttack::LowKick => true,
        _ => false,
    };
    if lethal {
        HitReaction::Knockout
    } else if attack_launches && !blocked {
        HitReaction::Launch
    } else if !blocked && knocks_down {
        HitReaction::HardKnockdown
    } else if !blocked {
        HitReaction::Stun(hitstun_frames)
    } else {
        HitReaction::Guarded
    }
}

/// Puts the defender into the state that `reaction` calls for.
pub fn apply_reaction(defender: &mut StateMachine, reaction: HitReaction)
    ensures
        *final(defender) == reacted(*old(defender), reaction),
        old(defender).wf() ==> final(defender).wf(),
{
    match reaction {
        HitReaction::Knockout => defender.enter_knockdown(KNOCKOUT_FRAMES),
        HitReaction::Launch => defender.enter_airborne(),
        HitReaction::HardKnockdown => defender.enter_knockdown(HARD_KNOCKDOWN_FRAMES),
        HitReaction::Stun(frames) => defender.enter_hitstun(frames),
        HitReaction::Guarded => {},
    }
}

/// A launching attack that lands unblocked always sends the defender
/// airborne, unless the hit was lethal, which knocks the defender down.
pub proof fn lemma_launch_sends_airborne(
    defender: StateMachine,
    attack: ActiveAttack,
    lethal: bool,
    hitstun_frames: u32,
)
    ensures
        reacted(
            defender,
            spec_hit_reaction(attack, true, false, lethal, hitstun_frames),
        ).state == if lethal {
            FighterState::Knockdown
        } else {
            FighterState::Airborne
        },
{
}

/// A blocked hit that is not lethal leaves the defender's machine as it was.
pub proof fn lemma_block_holds(
    defender: StateMachine,
    attack: ActiveAttack,
    attack_launches: bool,
    hitstun_frames: u32,
)
    ensures
        reacted(
            defender,
            spec_hit_reaction(attack, attack_launches, true, false, hitstun_frames),
        ) == defender,
{
}

/// The scaled hitstun for each combo count, with the share written out.
proof fn lemma_scaled_hitstun(base: int, combo_hits: u32)
    ensures
        base * combo_hitstun_percent(combo_hits) == if combo_hits == 0 {
            base * 100
        } else if combo_hits == 1 {
            base * 75
        } else if combo_hits == 2 {
            base * 50
        } else {
            base * 30
        },
{
    let percent = combo_hitstun_percent(combo_hits);
    if combo_hits == 0 {
        assert(base * percent == base * 100) by (nonlinear_arith)
            requires
                percent == 100,
        ;
    } else if combo_hits == 1 {
        assert(base * percent == base * 75) by (nonlinear_arith)
            requires
                percent == 75,
        ;
    } else if combo_hits == 2 {
        assert(base * percent == base * 50) by (nonlinear_arith)
            requires
                percent == 50,
        ;
    } else {
        assert(base * percent == base * 30) by (nonlinear_arith)
            requires
                percent == 30,
        ;
    }
}

/// Each further hit of a combo is worth strictly less hitstun than the one
/// before, until the share has reached its floor of 30 percent with the
/// fourth hit; from there on the hitstun stays.
pub proof fn lemma_combo_shortens_hitstun(knockback_force: u32, blocked: bool, combo_hits: u32)
    requires
        combo_hits < u32::MAX,
    ensures
        combo_hits < 3 ==> spec_hitstun_frames(
            knockback_force,
            blocked,
            (combo_hits + 1) as u32,
        ) < spec_hitstun_frames(knockback_force, blocked, combo_hits),
        combo_hits >= 3 ==> spec_hitstun_frames(knockback_force, blocked, (combo_hits + 1) as u32)
            == spec_hitstun_frames(knockback_force, blocked, combo_hits),
        combo_hits >= 3 ==> spec_hitstun_frames(knockback_force, blocked, combo_hits) == (
        base_hitstun(knockback_force, blocked) * 30 + 50) / 100,
{
    lemma_scaled_hitstun(base_hitstun(knockback_force, blocked), combo_hits);
    lemma_scaled_hitstun(base_hitstun(knockback_force, blocked), (combo_hits + 1) as u32);
}

/// A blocked hit is worth less hitstun than the same hit unblocked.
pub proof fn lemma_block_shortens_hitstun(knockback_force: u32, combo_hits: u32)
    ensures
        spec_hitstun_frames(knockback_force, true, combo_hits) < spec_hitstun_frames(
            knockback_force,
            false,
            combo_hits,
        ),
{
    lemma_scaled_hitstun(base_hitstun(knockback_force, true), combo_hits);
    lemma_scaled_hitstun(base_hitstun(knockback_force, false), combo_hits);
}

} // verus!
