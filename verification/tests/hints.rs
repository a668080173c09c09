use quiz_trainer::quiz_state::HintState;

#[test]
fn new_tracker_is_hidden_at_zero() {
    let h = HintState::new();
    assert!(!h.show_hints());
    assert_eq!(h.hint_index(), 0);
}

#[test]
fn enable_is_idempotent_and_keeps_index() {
    let mut h = HintState::new();
    h.enable_hints();
    h.next_hint(3);
    h.enable_hints();
    assert!(h.show_hints());
    assert_eq!(h.hint_index(), 1);
}

#[test]
fn next_hint_never_reaches_max() {
    for max in 1..6usize {
        let mut h = HintState::new();
        for _ in 0..10 {
            h.next_hint(max);
            assert!(h.hint_index() < max);
        }
    }
}

#[test]
fn next_hint_with_no_hints_is_noop() {
    let mut h = HintState::new();
    h.enable_hints();
    h.next_hint(0);
    assert_eq!(h.hint_index(), 0);
    assert!(h.show_hints());
}

#[test]
fn next_hint_saturates_at_last_hint() {
    let mut h = HintState::new();
    for _ in 0..5 {
        h.next_hint(3);
    }
    // Five advances for three hints end exactly on the last one.
    assert_eq!(h.hint_index(), 2);
}

#[test]
fn reset_restores_initial_state() {
    let mut h = HintState::new();
    h.enable_hints();
    h.next_hint(4);
    h.next_hint(4);
    h.reset();
    assert!(!h.show_hints());
    assert_eq!(h.hint_index(), 0);
}
