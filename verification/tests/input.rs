use wv_core::input::{
    ComboType, InputAction, InputBuffer, InputState, INPUT_EXPIRY_FRAMES, MAX_BUFFER_SIZE,
};

#[test]
fn buffer_records_attacks() {
    let mut buf = InputBuffer::new();
    buf.push(InputAction::LightAttack);
    buf.push(InputAction::HeavyAttack);
    assert_eq!(buf.len(), 2);
}

#[test]
fn buffer_ignores_movement() {
    let mut buf = InputBuffer::new();
    buf.push(InputAction::MoveForward);
    assert_eq!(buf.len(), 0);
}

#[test]
fn detect_three_hit_combo() {
    let mut buf = InputBuffer::new();
    buf.set_frame(10);
    buf.push(InputAction::LightAttack);
    buf.set_frame(20);
    buf.push(InputAction::LightAttack);
    buf.set_frame(30);
    buf.push(InputAction::LightAttack);
    buf.set_frame(30);
    assert_eq!(buf.detect_combo(), Some(ComboType::ThreeHit));
}

#[test]
fn detect_special_combo() {
    let mut buf = InputBuffer::new();
    buf.set_frame(10);
    buf.push(InputAction::LightAttack);
    buf.set_frame(20);
    buf.push(InputAction::HeavyAttack);
    buf.set_frame(30);
    buf.push(InputAction::Special);
    buf.set_frame(30);
    assert_eq!(buf.detect_combo(), Some(ComboType::Super));
}

#[test]
fn expired_inputs_no_combo() {
    let mut buf = InputBuffer::new();
    buf.set_frame(0);
    buf.push(InputAction::LightAttack);
    buf.set_frame(10);
    buf.push(InputAction::LightAttack);
    buf.set_frame(200); // way past expiry
    buf.push(InputAction::LightAttack);
    buf.set_frame(200);
    assert_eq!(buf.detect_combo(), None);
}

#[test]
fn buffer_max_size() {
    let mut buf = InputBuffer::new();
    for i in 0..15 {
        buf.set_frame(i);
        buf.push(InputAction::LightAttack);
    }
    assert_eq!(buf.len(), MAX_BUFFER_SIZE);
}

#[test]
fn input_state_movement() {
    let mut state = InputState::default();
    assert!(!state.has_movement());
    state.move_forward = true;
    assert!(state.has_movement());
}

#[test]
fn default_input_holds_nothing() {
    let state = InputState::default();
    assert!(!state.light_attack && !state.heavy_attack && !state.special);
    assert!(!state.block && !state.dash);
    assert!(!state.mid_kick && !state.low_kick && !state.aerial);
    assert!(!state.move_back && !state.move_left && !state.move_right);
}

#[test]
fn every_direction_is_movement() {
    let mut state = InputState::default();
    state.move_back = true;
    assert!(state.has_movement());
    let mut state = InputState::default();
    state.move_left = true;
    assert!(state.has_movement());
    let mut state = InputState::default();
    state.move_right = true;
    assert!(state.has_movement());
    let mut state = InputState::default();
    state.light_attack = true;
    state.block = true;
    assert!(!state.has_movement());
}

#[test]
fn only_the_three_attacks_are_buffered() {
    let mut buf = InputBuffer::new();
    for action in [
        InputAction::MoveForward,
        InputAction::MoveBack,
        InputAction::MoveLeft,
        InputAction::MoveRight,
        InputAction::Block,
        InputAction::Dash,
        InputAction::MidKick,
        InputAction::LowKick,
        InputAction::Aerial,
    ] {
        buf.push(action);
    }
    assert_eq!(buf.len(), 0);
    buf.push(InputAction::LightAttack);
    buf.push(InputAction::HeavyAttack);
    buf.push(InputAction::Special);
    assert_eq!(buf.len(), 3);
}

#[test]
fn fewer_than_three_inputs_make_no_combo() {
    let mut buf = InputBuffer::new();
    assert_eq!(buf.detect_combo(), None);
    buf.push(InputAction::LightAttack);
    assert_eq!(buf.detect_combo(), None);
    buf.push(InputAction::LightAttack);
    assert_eq!(buf.detect_combo(), None);
}

#[test]
fn only_the_last_three_count() {
    let mut buf = InputBuffer::new();
    buf.push(InputAction::LightAttack);
    buf.push(InputAction::LightAttack);
    buf.push(InputAction::LightAttack);
    buf.push(InputAction::HeavyAttack);
    assert_eq!(buf.detect_combo(), None);
    buf.push(InputAction::Special);
    assert_eq!(buf.detect_combo(), Some(ComboType::Super));
    buf.push(InputAction::LightAttack);
    assert_eq!(buf.detect_combo(), None);
}

#[test]
fn other_orders_make_no_combo() {
    let mut buf = InputBuffer::new();
    buf.push(InputAction::Special);
    buf.push(InputAction::HeavyAttack);
    buf.push(InputAction::LightAttack);
    assert_eq!(buf.detect_combo(), None);
    buf.clear();
    buf.push(InputAction::HeavyAttack);
    buf.push(InputAction::HeavyAttack);
    buf.push(InputAction::HeavyAttack);
    assert_eq!(buf.detect_combo(), None);
}

#[test]
fn inputs_live_for_exactly_the_expiry_window() {
    let mut buf = InputBuffer::new();
    buf.set_frame(100);
    buf.push(InputAction::LightAttack);
    buf.push(InputAction::LightAttack);
    buf.push(InputAction::LightAttack);
    buf.set_frame(100 + INPUT_EXPIRY_FRAMES);
    assert_eq!(buf.detect_combo(), Some(ComboType::ThreeHit));
    buf.expire_old();
    assert_eq!(buf.len(), 3);
    buf.set_frame(101 + INPUT_EXPIRY_FRAMES);
    assert_eq!(buf.detect_combo(), None);
    buf.expire_old();
    assert_eq!(buf.len(), 0);
}

#[test]
fn expired_inputs_are_skipped_by_the_detector() {
    let mut buf = InputBuffer::new();
    buf.set_frame(0);
    buf.push(InputAction::HeavyAttack);
    buf.set_frame(50);
    buf.push(InputAction::LightAttack);
    buf.push(InputAction::LightAttack);
    buf.push(InputAction::LightAttack);
    buf.set_frame(70);
    assert_eq!(buf.detect_combo(), Some(ComboType::ThreeHit));
    buf.set_frame(111);
    assert_eq!(buf.detect_combo(), None);
}

#[test]
fn expiry_stops_at_the_first_live_input() {
    let mut buf = InputBuffer::new();
    buf.set_frame(0);
    buf.push(InputAction::LightAttack);
    buf.set_frame(100);
    buf.push(InputAction::LightAttack);
    buf.set_frame(5);
    buf.push(InputAction::LightAttack);
    buf.set_frame(100);
    buf.expire_old();
    assert_eq!(buf.len(), 2);
    assert_eq!(buf.detect_combo(), None);
}

#[test]
fn an_input_stamped_ahead_of_the_clock_is_live() {
    let mut buf = InputBuffer::new();
    buf.set_frame(500);
    buf.push(InputAction::LightAttack);
    buf.push(InputAction::LightAttack);
    buf.push(InputAction::LightAttack);
    buf.set_frame(3);
    buf.expire_old();
    assert_eq!(buf.len(), 3);
    assert_eq!(buf.detect_combo(), Some(ComboType::ThreeHit));
}

#[test]
fn the_oldest_input_is_evicted_first() {
    let mut buf = InputBuffer::new();
    buf.set_frame(0);
    buf.push(InputAction::HeavyAttack);
    buf.set_frame(100);
    for _ in 0..9 {
        buf.push(InputAction::LightAttack);
    }
    assert_eq!(buf.len(), 10);
    buf.expire_old();
    assert_eq!(buf.len(), 9);

    let mut buf = InputBuffer::new();
    buf.set_frame(0);
    buf.push(InputAction::HeavyAttack);
    buf.set_frame(100);
    for _ in 0..10 {
        buf.push(InputAction::LightAttack);
    }
    assert_eq!(buf.len(), 10);
    buf.expire_old();
    assert_eq!(buf.len(), 10);
}

#[test]
fn clear_empties_the_buffer() {
    let mut buf = InputBuffer::new();
    buf.set_frame(7);
    buf.push(InputAction::LightAttack);
    buf.push(InputAction::LightAttack);
    buf.push(InputAction::LightAttack);
    buf.clear();
    assert_eq!(buf.len(), 0);
    assert_eq!(buf.detect_combo(), None);
}

#[test]
fn packed_input_bit_by_bit() {
    let none = InputState::from_packed(0);
    assert!(!none.has_movement() && !none.light_attack && !none.aerial);
    let fields = |s: &InputState| {
        [
            s.move_forward,
            s.move_back,
            s.move_left,
            s.move_right,
            s.light_attack,
            s.heavy_attack,
            s.special,
            s.block,
            s.dash,
            s.mid_kick,
            s.low_kick,
            s.aerial,
        ]
    };
    for bit in 0..12 {
        let state = InputState::from_packed(1 << bit);
        for (i, held) in fields(&state).iter().enumerate() {
            assert_eq!(*held, i == bit, "bit {} field {}", bit, i);
        }
    }
    // higher bits belong to nobody
    assert_eq!(fields(&InputState::from_packed(0xffff_f000)), [false; 12]);
}

#[test]
fn packed_input_of_both_players() {
    // player one holds forward and light, player two holds block and aerial
    let word = 0b0000_0001_0001 | (0b1000_1000_0000 << 12);
    let (p1, p2) = InputState::pair_from_packed(word);
    assert!(p1.move_forward && p1.light_attack);
    assert!(!p1.block && !p1.aerial && !p1.move_back);
    assert!(p2.block && p2.aerial);
    assert!(!p2.move_forward && !p2.light_attack);
}
