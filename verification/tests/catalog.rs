use wv_core::combat::{hit_reaction, hitstun_frames, pending_attack, HitReaction};
use wv_core::fighter::{
    fighter_by_lowercase_name, parse_fighter_id, AttackFrames, FighterId, FighterStyle,
    MoveFrames, UnknownFighter,
};
use wv_core::game::GamePhase;
use wv_core::snapshot::{
    attack_phase_num, attack_phase_str, attack_snapshot, attack_type_str, facing_str,
    fighter_char, phase_str, state_num, state_str,
};
use wv_core::state_machine::{ActiveAttack, AttackPhase, FighterState, StateMachine};
use wv_core::types::Facing;
use wv_core::weapon::WeaponType;

#[test]
fn facing_sign() {
    assert_eq!(Facing::Right.sign(), 1);
    assert_eq!(Facing::Left.sign(), -1);
}

#[test]
fn fighter_names_in_any_case() {
    assert_eq!(parse_fighter_id("kenzo"), Ok(FighterId::Kenzo));
    assert_eq!(parse_fighter_id("Mira"), Ok(FighterId::Mira));
    assert_eq!(parse_fighter_id("THANE"), Ok(FighterId::Thane));
    assert_eq!(parse_fighter_id("yUkI"), Ok(FighterId::Yuki));
    assert_eq!(parse_fighter_id("Drago"), Ok(FighterId::Drago));
    assert_eq!(parse_fighter_id("Sage"), Ok(FighterId::Sage));
}

#[test]
fn unknown_fighter_is_an_error() {
    assert_eq!(parse_fighter_id("Ryu"), Err(UnknownFighter));
    assert_eq!(parse_fighter_id(""), Err(UnknownFighter));
    assert_eq!(parse_fighter_id(" kenzo"), Err(UnknownFighter));
    assert_eq!(parse_fighter_id("kenzoo"), Err(UnknownFighter));
}

#[test]
fn lowercase_names_are_taken_as_they_are() {
    assert_eq!(fighter_by_lowercase_name(&String::from("sage")), Some(FighterId::Sage));
    assert_eq!(fighter_by_lowercase_name(&String::from("Sage")), None);
}

#[test]
fn every_fighter_is_found_by_its_own_name() {
    for id in FighterId::ALL {
        assert_eq!(parse_fighter_id(id.name()), Ok(id));
    }
}

#[test]
fn roster() {
    assert_eq!(FighterId::ALL.len(), 6);
    assert_eq!(FighterId::ALL[0], FighterId::Kenzo);
    assert_eq!(FighterId::Kenzo.name(), "Kenzo");
    assert_eq!(FighterId::Kenzo.style(), FighterStyle::Balanced);
    assert_eq!(FighterId::Kenzo.default_weapon(), WeaponType::Katana);
    assert_eq!(FighterId::Mira.style(), FighterStyle::Speed);
    assert_eq!(FighterId::Mira.default_weapon(), WeaponType::DualDaggers);
    assert_eq!(FighterId::Thane.style(), FighterStyle::Defensive);
    assert_eq!(FighterId::Thane.default_weapon(), WeaponType::GreatSword);
    assert_eq!(FighterId::Yuki.style(), FighterStyle::Technical);
    assert_eq!(FighterId::Yuki.default_weapon(), WeaponType::Spear);
    assert_eq!(FighterId::Drago.style(), FighterStyle::Power);
    assert_eq!(FighterId::Drago.default_weapon(), WeaponType::WarHammer);
    assert_eq!(FighterId::Sage.style(), FighterStyle::Aggressive);
    assert_eq!(FighterId::Sage.default_weapon(), WeaponType::Staff);
}

#[test]
fn weapon_names() {
    assert_eq!(WeaponType::ALL.len(), 6);
    assert_eq!(WeaponType::Katana.name(), "Katana");
    assert_eq!(WeaponType::GreatSword.name(), "Great Sword");
    assert_eq!(WeaponType::DualDaggers.name(), "Dual Daggers");
    assert_eq!(WeaponType::Spear.name(), "Spear");
    assert_eq!(WeaponType::WarHammer.name(), "War Hammer");
    assert_eq!(WeaponType::Staff.name(), "Staff");
}

#[test]
fn attack_frames_total() {
    let f = AttackFrames { startup_frames: 4, active_frames: 3, recovery_frames: 6 };
    assert_eq!(f.total_frames(), 13);
    let f = AttackFrames { startup_frames: u32::MAX, active_frames: 3, recovery_frames: 6 };
    assert_eq!(f.total_frames(), u32::MAX);
}

#[test]
fn move_frames_by_attack() {
    let entry = |n: u32| AttackFrames { startup_frames: n, active_frames: n, recovery_frames: n };
    let moves = MoveFrames {
        light_attack: entry(1),
        heavy_attack: entry(2),
        special_attack: entry(3),
        mid_kick: entry(4),
        low_kick: entry(5),
        aerial: entry(6),
        combo_finisher: entry(7),
        super_attack: entry(8),
        dash_frames: 9,
    };
    assert_eq!(moves.get(ActiveAttack::Light), entry(1));
    assert_eq!(moves.get(ActiveAttack::Heavy), entry(2));
    assert_eq!(moves.get(ActiveAttack::Special), entry(3));
    assert_eq!(moves.get(ActiveAttack::MidKick), entry(4));
    assert_eq!(moves.get(ActiveAttack::LowKick), entry(5));
    assert_eq!(moves.get(ActiveAttack::Aerial), entry(6));
    assert_eq!(moves.get(ActiveAttack::ComboFinisher), entry(7));
    assert_eq!(moves.get(ActiveAttack::Super), entry(8));
}

#[test]
fn hitstun_values() {
    // unblocked, force 3: base 15, scaled by 100, 75, 50, 30 percent
    assert_eq!(hitstun_frames(3, false, 0), 15);
    assert_eq!(hitstun_frames(3, false, 1), 11);
    assert_eq!(hitstun_frames(3, false, 2), 8);
    assert_eq!(hitstun_frames(3, false, 3), 5);
    assert_eq!(hitstun_frames(3, false, 4), 5);
    assert_eq!(hitstun_frames(3, false, 1000), 5);
    // blocked: base 6, whatever the force
    assert_eq!(hitstun_frames(3, true, 0), 6);
    assert_eq!(hitstun_frames(18, true, 0), 6);
    assert_eq!(hitstun_frames(3, true, 1), 5);
    assert_eq!(hitstun_frames(3, true, 2), 3);
    assert_eq!(hitstun_frames(3, true, 3), 2);
    assert_eq!(hitstun_frames(0, false, 0), 12);
    assert_eq!(hitstun_frames(u32::MAX, false, 0), u32::MAX);
}

#[test]
fn combo_hits_shorten_hitstun_down_to_the_floor() {
    for force in [0u32, 3, 6, 10, 18] {
        for blocked in [false, true] {
            for hits in 0..3u32 {
                assert!(
                    hitstun_frames(force, blocked, hits + 1) < hitstun_frames(force, blocked, hits)
                );
            }
            assert_eq!(hitstun_frames(force, blocked, 4), hitstun_frames(force, blocked, 3));
        }
        assert!(hitstun_frames(force, true, 0) < hitstun_frames(force, false, 0));
    }
}

#[test]
fn launch_lifts_unless_lethal_or_blocked() {
    assert_eq!(hit_reaction(ActiveAttack::Special, true, false, false, 20), HitReaction::Launch);
    assert_eq!(hit_reaction(ActiveAttack::Special, true, false, true, 20), HitReaction::Knockout);
    assert_eq!(hit_reaction(ActiveAttack::Special, true, true, false, 20), HitReaction::Guarded);
    assert_eq!(hit_reaction(ActiveAttack::Light, false, false, false, 20), HitReaction::Stun(20));
    assert_eq!(
        hit_reaction(ActiveAttack::LowKick, false, false, false, 20),
        HitReaction::HardKnockdown
    );
    assert_eq!(hit_reaction(ActiveAttack::LowKick, true, false, false, 20), HitReaction::Launch);
}

#[test]
fn pending_attack_needs_active_frames() {
    let mut attacker = StateMachine::new();
    let defender = StateMachine::new();
    assert_eq!(pending_attack(&attacker, &defender), None);
    attacker.start_attack(ActiveAttack::Heavy, 2, 2, 4);
    attacker.tick();
    attacker.tick();
    assert_eq!(pending_attack(&attacker, &defender), None);
    attacker.tick();
    assert_eq!(pending_attack(&attacker, &defender), Some(ActiveAttack::Heavy));
    attacker.hit_connected = true;
    assert_eq!(pending_attack(&attacker, &defender), None);
    attacker.hit_connected = false;
    attacker.tick();
    assert_eq!(pending_attack(&attacker, &defender), Some(ActiveAttack::Heavy));
    attacker.tick();
    assert_eq!(attacker.attack_phase, Some(AttackPhase::Recovery));
    assert_eq!(pending_attack(&attacker, &defender), None);
}

#[test]
fn snapshot_names_and_numbers() {
    assert_eq!(phase_str(GamePhase::FighterSelect), "FighterSelect");
    assert_eq!(phase_str(GamePhase::Countdown), "Countdown");
    assert_eq!(phase_str(GamePhase::Fighting), "Fighting");
    assert_eq!(phase_str(GamePhase::RoundOver), "RoundOver");
    assert_eq!(phase_str(GamePhase::MatchOver), "MatchOver");
    assert_eq!(state_str(FighterState::GettingUp), "Getting Up");
    assert_eq!(state_str(FighterState::Attacking), "Attacking");
    let states = [
        FighterState::Idle,
        FighterState::Moving,
        FighterState::Attacking,
        FighterState::Blocking,
        FighterState::Dashing,
        FighterState::HitStun,
        FighterState::Airborne,
        FighterState::Knockdown,
        FighterState::GettingUp,
    ];
    for (i, s) in states.iter().enumerate() {
        assert_eq!(state_num(*s) as usize, i);
    }
    assert_eq!(attack_type_str(ActiveAttack::Light), "Light");
    assert_eq!(attack_type_str(ActiveAttack::MidKick), "MidKick");
    assert_eq!(attack_type_str(ActiveAttack::ComboFinisher), "ComboFinisher");
    assert_eq!(attack_type_str(ActiveAttack::Super), "Super");
    assert_eq!(attack_phase_str(AttackPhase::Startup), "Startup");
    assert_eq!(attack_phase_str(AttackPhase::Active), "Active");
    assert_eq!(attack_phase_str(AttackPhase::Recovery), "Recovery");
    assert_eq!(attack_phase_num(AttackPhase::Startup), 0);
    assert_eq!(attack_phase_num(AttackPhase::Active), 1);
    assert_eq!(attack_phase_num(AttackPhase::Recovery), 2);
    assert_eq!(facing_str(Facing::Right), "Right");
    assert_eq!(facing_str(Facing::Left), "Left");
}

#[test]
fn fighter_chars() {
    assert_eq!(fighter_char(FighterState::Attacking, '1'), 'A');
    assert_eq!(fighter_char(FighterState::Blocking, '1'), 'B');
    assert_eq!(fighter_char(FighterState::Dashing, '1'), 'D');
    assert_eq!(fighter_char(FighterState::HitStun, '1'), 'H');
    assert_eq!(fighter_char(FighterState::Knockdown, '1'), '_');
    assert_eq!(fighter_char(FighterState::GettingUp, '1'), '^');
    assert_eq!(fighter_char(FighterState::Idle, '1'), '1');
    assert_eq!(fighter_char(FighterState::Moving, '2'), '2');
    assert_eq!(fighter_char(FighterState::Airborne, '2'), '2');
}

#[test]
fn attack_snapshot_of_a_machine() {
    let mut sm = StateMachine::new();
    assert!(attack_snapshot(&sm).is_none());
    sm.start_attack(ActiveAttack::Aerial, 1, 2, 3);
    sm.tick();
    sm.tick();
    sm.hit_connected = true;
    let snap = attack_snapshot(&sm).unwrap();
    assert_eq!(snap.attack_type, "Aerial");
    assert_eq!(snap.phase, "Active");
    assert_eq!(snap.phase_num, 1);
    assert!(snap.hit_connected);
    assert_eq!(snap.frame_counter, 2);
    assert_eq!(snap.total_frames, 6);
}
