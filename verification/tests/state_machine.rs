use wv_core::state_machine::{ActiveAttack, AttackPhase, FighterState, StateMachine};

#[test]
fn idle_can_act() {
    let sm = StateMachine::new();
    assert!(sm.can_act());
    assert_eq!(sm.state, FighterState::Idle);
}

#[test]
fn attack_transitions() {
    let mut sm = StateMachine::new();
    assert!(sm.start_attack(ActiveAttack::Light, 4, 3, 6));
    assert_eq!(sm.state, FighterState::Attacking);
    assert!(!sm.can_act());

    for _ in 0..3 {
        sm.tick();
    }
    assert_eq!(sm.attack_phase, Some(AttackPhase::Startup));

    sm.tick();
    assert_eq!(sm.attack_phase, Some(AttackPhase::Startup));
    sm.tick();
    assert_eq!(sm.attack_phase, Some(AttackPhase::Active));

    sm.tick();
    sm.tick();
    assert_eq!(sm.attack_phase, Some(AttackPhase::Active));

    sm.tick();
    assert_eq!(sm.attack_phase, Some(AttackPhase::Recovery));

    for _ in 0..5 {
        sm.tick();
    }
    assert_eq!(sm.state, FighterState::Idle);
}

#[test]
fn dash_transitions() {
    let mut sm = StateMachine::new();
    assert!(sm.start_dash(10));
    assert_eq!(sm.state, FighterState::Dashing);

    for _ in 0..10 {
        sm.tick();
    }
    assert_eq!(sm.state, FighterState::Idle);
}

#[test]
fn hitstun_to_idle() {
    let mut sm = StateMachine::new();
    sm.enter_hitstun(15);
    assert_eq!(sm.state, FighterState::HitStun);

    for _ in 0..15 {
        sm.tick();
    }
    assert_eq!(sm.state, FighterState::Idle);
}

#[test]
fn knockdown_to_getup_to_idle() {
    let mut sm = StateMachine::new();
    sm.enter_knockdown(30);
    assert_eq!(sm.state, FighterState::Knockdown);

    for _ in 0..30 {
        sm.tick();
    }
    assert_eq!(sm.state, FighterState::GettingUp);

    for _ in 0..20 {
        sm.tick();
    }
    assert_eq!(sm.state, FighterState::Idle);
}

#[test]
fn airborne_land() {
    let mut sm = StateMachine::new();
    sm.enter_airborne();
    assert_eq!(sm.state, FighterState::Airborne);

    sm.land();
    assert_eq!(sm.state, FighterState::Knockdown);
}

#[test]
fn cannot_act_during_attack() {
    let mut sm = StateMachine::new();
    sm.start_attack(ActiveAttack::Light, 4, 3, 6);
    assert!(!sm.start_attack(ActiveAttack::Heavy, 10, 4, 12));
    assert!(!sm.start_dash(10));
}

#[test]
fn new_machine_is_blank() {
    let sm = StateMachine::new();
    assert_eq!(sm.frame_counter, 0);
    assert_eq!(sm.total_frames, 0);
    assert_eq!(sm.attack, None);
    assert_eq!(sm.attack_phase, None);
    assert!(!sm.hit_connected);
    assert!(sm.can_block());
    assert!(sm.is_vulnerable());
    assert!(!sm.is_attack_active());
}

#[test]
fn attack_frame_by_frame() {
    let mut sm = StateMachine::new();
    assert!(sm.start_attack(ActiveAttack::Light, 4, 3, 6));
    assert_eq!(sm.total_frames, 13);
    assert_eq!(sm.frame_counter, 0);
    assert_eq!(sm.attack, Some(ActiveAttack::Light));
    assert_eq!(sm.attack_phase, Some(AttackPhase::Startup));
    for tick in 1..=13u32 {
        let changed = sm.tick();
        let phase = if tick <= 4 {
            Some(AttackPhase::Startup)
        } else if tick <= 7 {
            Some(AttackPhase::Active)
        } else if tick <= 12 {
            Some(AttackPhase::Recovery)
        } else {
            None
        };
        assert_eq!(sm.attack_phase, phase, "tick {}", tick);
        assert_eq!(changed, tick == 5 || tick == 8 || tick == 13, "tick {}", tick);
        assert_eq!(sm.is_attack_active(), (5..=7).contains(&tick), "tick {}", tick);
        if tick < 13 {
            assert_eq!(sm.state, FighterState::Attacking);
            assert_eq!(sm.frame_counter, tick);
        }
    }
    assert_eq!(sm.state, FighterState::Idle);
    assert_eq!(sm.attack, None);
    assert_eq!(sm.frame_counter, 0);
    assert!(sm.can_act());
}

#[test]
fn refused_attack_changes_nothing() {
    let mut sm = StateMachine::new();
    sm.start_attack(ActiveAttack::Light, 4, 3, 6);
    sm.tick();
    sm.tick();
    assert!(!sm.start_attack(ActiveAttack::Heavy, 10, 4, 12));
    assert_eq!(sm.attack, Some(ActiveAttack::Light));
    assert_eq!(sm.frame_counter, 2);
    assert_eq!(sm.total_frames, 13);
    assert_eq!(sm.attack_startup, 4);
    assert!(!sm.start_dash(10));
    assert!(!sm.start_block());
    assert_eq!(sm.state, FighterState::Attacking);
    assert_eq!(sm.total_frames, 13);
}

#[test]
fn phase_crossing_on_the_last_frame_delays_the_end() {
    let mut sm = StateMachine::new();
    assert!(sm.start_attack(ActiveAttack::Light, 2, 1, 0));
    assert!(!sm.tick());
    assert!(!sm.tick());
    assert!(sm.tick());
    assert_eq!(sm.state, FighterState::Attacking);
    assert_eq!(sm.attack_phase, Some(AttackPhase::Active));
    assert!(sm.tick());
    assert_eq!(sm.state, FighterState::Idle);
}

#[test]
fn attack_without_frames_ends_with_the_first_tick() {
    let mut sm = StateMachine::new();
    assert!(sm.start_attack(ActiveAttack::MidKick, 0, 0, 0));
    assert!(sm.tick());
    assert_eq!(sm.state, FighterState::Idle);
    assert_eq!(sm.attack, None);
}

#[test]
fn attack_lengths_saturate() {
    let mut sm = StateMachine::new();
    assert!(sm.start_attack(ActiveAttack::Heavy, u32::MAX, 5, 7));
    assert_eq!(sm.total_frames, u32::MAX);
    sm.tick();
    assert_eq!(sm.attack_phase, Some(AttackPhase::Startup));
}

#[test]
fn airborne_counter_saturates() {
    let mut sm = StateMachine::new();
    sm.enter_airborne();
    sm.frame_counter = u32::MAX;
    assert!(!sm.tick());
    assert_eq!(sm.frame_counter, u32::MAX);
    assert_eq!(sm.state, FighterState::Airborne);
}

#[test]
fn block_lasts_until_released() {
    let mut sm = StateMachine::new();
    assert!(sm.start_block());
    assert_eq!(sm.state, FighterState::Blocking);
    assert_eq!(sm.total_frames, 0);
    for _ in 0..500 {
        assert!(!sm.tick());
    }
    assert_eq!(sm.state, FighterState::Blocking);
    assert!(sm.is_vulnerable());
    sm.stop_block();
    assert_eq!(sm.state, FighterState::Idle);
    sm.stop_block();
    assert_eq!(sm.state, FighterState::Idle);
}

#[test]
fn idle_and_moving_toggle() {
    let mut sm = StateMachine::new();
    assert!(!sm.tick());
    sm.set_moving();
    assert_eq!(sm.state, FighterState::Moving);
    assert!(sm.can_act());
    assert!(!sm.tick());
    sm.set_idle();
    assert_eq!(sm.state, FighterState::Idle);
    sm.enter_hitstun(5);
    sm.set_moving();
    assert_eq!(sm.state, FighterState::HitStun);
    sm.set_idle();
    assert_eq!(sm.state, FighterState::HitStun);
}

#[test]
fn vulnerability_by_state() {
    let mut sm = StateMachine::new();
    sm.start_dash(3);
    assert!(!sm.is_vulnerable());
    sm.enter_knockdown(2);
    assert!(!sm.is_vulnerable());
    sm.tick();
    sm.tick();
    assert_eq!(sm.state, FighterState::GettingUp);
    assert_eq!(sm.total_frames, 20);
    assert!(!sm.is_vulnerable());
    sm.enter_airborne();
    assert!(sm.is_vulnerable());
    sm.enter_hitstun(4);
    assert!(sm.is_vulnerable());
}

#[test]
fn knockdown_never_skips_getting_up() {
    for frames in [0u32, 1, 2, 40] {
        let mut sm = StateMachine::new();
        sm.enter_knockdown(frames);
        let down = if frames == 0 { 1 } else { frames };
        for _ in 0..down - 1 {
            assert!(!sm.tick());
            assert_eq!(sm.state, FighterState::Knockdown);
        }
        assert!(sm.tick());
        assert_eq!(sm.state, FighterState::GettingUp);
        for _ in 0..19 {
            assert!(!sm.tick());
            assert_eq!(sm.state, FighterState::GettingUp);
        }
        assert!(sm.tick());
        assert_eq!(sm.state, FighterState::Idle);
    }
}

#[test]
fn being_hit_ends_the_attack() {
    let mut sm = StateMachine::new();
    sm.start_attack(ActiveAttack::Special, 6, 5, 18);
    sm.enter_hitstun(12);
    assert_eq!(sm.attack, None);
    assert_eq!(sm.attack_phase, None);
    assert_eq!(sm.total_frames, 12);

    let mut sm = StateMachine::new();
    sm.start_attack(ActiveAttack::Special, 6, 5, 18);
    sm.enter_knockdown(40);
    assert_eq!(sm.attack, None);
    assert_eq!(sm.attack_phase, None);

    let mut sm = StateMachine::new();
    sm.start_attack(ActiveAttack::Special, 6, 5, 18);
    sm.enter_airborne();
    assert_eq!(sm.attack, None);
    assert_eq!(sm.total_frames, 0);
    sm.land();
    assert_eq!(sm.state, FighterState::Knockdown);
    assert_eq!(sm.total_frames, 30);
}

#[test]
fn land_only_concerns_the_airborne() {
    let mut sm = StateMachine::new();
    sm.land();
    assert_eq!(sm.state, FighterState::Idle);
    sm.enter_hitstun(3);
    sm.land();
    assert_eq!(sm.state, FighterState::HitStun);
}

#[test]
fn state_names() {
    assert_eq!(FighterState::Idle.name(), "Idle");
    assert_eq!(FighterState::HitStun.name(), "HitStun");
    assert_eq!(FighterState::GettingUp.name(), "Getting Up");
}

#[test]
fn attack_lengths_by_phase_lengths() {
    for startup in 0..5u32 {
        for active in 0..5u32 {
            for recovery in 0..5u32 {
                let total = startup + active + recovery;
                let expected = if recovery == 1 || (recovery == 0 && active == 1) {
                    total + 1
                } else if total == 0 {
                    1
                } else {
                    total
                };
                let mut sm = StateMachine::new();
                assert!(sm.start_attack(ActiveAttack::Light, startup, active, recovery));
                let mut ticks = 0;
                while sm.state == FighterState::Attacking {
                    sm.tick();
                    ticks += 1;
                    assert!(ticks <= total + 1);
                    if sm.state == FighterState::Attacking {
                        let phase = if ticks <= startup {
                            AttackPhase::Startup
                        } else if ticks <= startup + active {
                            AttackPhase::Active
                        } else {
                            AttackPhase::Recovery
                        };
                        assert_eq!(sm.attack_phase, Some(phase));
                        assert_eq!(sm.frame_counter, ticks);
                    }
                }
                assert_eq!(ticks, expected, "{} {} {}", startup, active, recovery);
                assert_eq!(sm.state, FighterState::Idle);
            }
        }
    }
}

#[test]
fn timed_states_of_no_length_take_one_frame() {
    let mut sm = StateMachine::new();
    assert!(sm.start_dash(0));
    assert!(sm.tick());
    assert_eq!(sm.state, FighterState::Idle);
    sm.enter_hitstun(0);
    assert!(sm.tick());
    assert_eq!(sm.state, FighterState::Idle);
    sm.enter_hitstun(1);
    assert!(sm.tick());
    assert_eq!(sm.state, FighterState::Idle);
    sm.enter_hitstun(2);
    assert!(!sm.tick());
    assert_eq!(sm.state, FighterState::HitStun);
    assert_eq!(sm.frame_counter, 1);
    assert!(sm.tick());
    assert_eq!(sm.state, FighterState::Idle);
    assert_eq!(sm.frame_counter, 0);
}
