use core_api::state::{State, FSM};

#[test]
fn state_test() {
    let mut fsm = FSM::new();
    println!("{}: {:?}", "init", fsm.now());
    fsm.switch();
    println!("{}: {:?}", "switch", fsm.now());
    fsm.switch();
    println!("{}: {:?}", "switch", fsm.now());
    fsm.cancel();
    println!("{}: {:?}", "cancel", fsm.now());
    fsm.switch();
    println!("{}: {:?}", "switch after cancel", fsm.now());
    assert_eq!(fsm.now_state_code(), 2);
}

#[test]
fn transition_table_from_working() {
    let mut fsm = FSM::new();
    assert_eq!(fsm.now_state_code(), 0);
    fsm.switch();
    assert_eq!(fsm.now_state_code(), 1);

    let mut fsm = FSM::new();
    fsm.cancel();
    assert_eq!(fsm.now_state_code(), 2);

    let mut fsm = FSM::new();
    fsm.finish();
    assert_eq!(fsm.now_state_code(), 3);
}

#[test]
fn transition_table_from_pausing() {
    let mut fsm = FSM::new();
    fsm.switch();
    fsm.switch();
    assert_eq!(fsm.now_state_code(), 0);

    let mut fsm = FSM::new();
    fsm.switch();
    fsm.cancel();
    assert_eq!(fsm.now_state_code(), 2);

    let mut fsm = FSM::new();
    fsm.switch();
    fsm.finish();
    assert_eq!(fsm.now_state_code(), 3);
}

#[test]
fn cancelled_is_absorbing() {
    let mut fsm = FSM::new();
    fsm.cancel();
    fsm.switch();
    assert_eq!(fsm.now_state_code(), 2);
    fsm.finish();
    assert_eq!(fsm.now_state_code(), 2);
    fsm.cancel();
    assert_eq!(fsm.now_state_code(), 2);
    assert!(matches!(fsm.now(), State::Cancelled));
}

#[test]
fn finished_is_absorbing() {
    let mut fsm = FSM::new();
    fsm.finish();
    fsm.switch();
    assert_eq!(fsm.now_state_code(), 3);
    fsm.cancel();
    assert_eq!(fsm.now_state_code(), 3);
    fsm.finish();
    assert_eq!(fsm.now_state_code(), 3);
    assert!(matches!(fsm.now(), State::Finished));
}
