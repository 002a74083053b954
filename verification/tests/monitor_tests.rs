use workahub_core::auth::AuthState;
use workahub_core::monitor::{
    get_and_reset_input_stats, record_input_event, InputEventKind, InputStats,
};

#[test]
fn each_event_kind_bumps_exactly_its_counter() {
    let mut stats = InputStats::default();
    record_input_event(&mut stats, InputEventKind::KeyPress);
    record_input_event(&mut stats, InputEventKind::KeyPress);
    record_input_event(&mut stats, InputEventKind::ButtonPress);
    record_input_event(&mut stats, InputEventKind::MouseMove);
    record_input_event(&mut stats, InputEventKind::MouseMove);
    record_input_event(&mut stats, InputEventKind::MouseMove);
    record_input_event(&mut stats, InputEventKind::Other);
    assert_eq!(stats.key_presses, 2);
    assert_eq!(stats.mouse_clicks, 1);
    assert_eq!(stats.mouse_moves, 3);
}

#[test]
fn read_and_reset_returns_the_tally_and_zeroes_it() {
    let mut stats = InputStats::default();
    record_input_event(&mut stats, InputEventKind::ButtonPress);
    record_input_event(&mut stats, InputEventKind::KeyPress);
    let taken = get_and_reset_input_stats(&mut stats);
    assert_eq!(taken.mouse_clicks, 1);
    assert_eq!(taken.key_presses, 1);
    assert_eq!(taken.mouse_moves, 0);
    assert_eq!(stats, InputStats::default());
    let again = get_and_reset_input_stats(&mut stats);
    assert_eq!(again, InputStats::default());
}

#[test]
fn counters_saturate_instead_of_wrapping() {
    let mut stats = InputStats {
        mouse_clicks: u64::MAX,
        key_presses: 0,
        mouse_moves: 0,
    };
    record_input_event(&mut stats, InputEventKind::ButtonPress);
    assert_eq!(stats.mouse_clicks, u64::MAX);
}

#[test]
fn signed_out_state_has_no_identity() {
    let state = AuthState::signed_out();
    assert!(!state.is_logged_in);
    assert!(state.username.is_none());
    assert!(state.user_id.is_none());
    assert!(state.organization.is_none());
}
