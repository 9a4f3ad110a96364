use dwight::hardware_interface::State;
use dwight::hardware_interface::Switch;
use dwight::hardware_interface::SwitchState;

fn levels(pressed: &[Switch]) -> [SwitchState; 12] {
    let mut l = [SwitchState::Released; 12];
    for s in pressed {
        l[s.position()] = SwitchState::Pressed;
    }
    l
}

#[test]
fn new_tracker_has_nothing_pressed() {
    let s = State::new();
    for i in 0..12 {
        let sw = Switch::from_position(i);
        assert!(!s.pressed(sw));
        assert!(!s.just_pressed(sw));
    }
    assert!(!s.anything_pressed());
    assert!(!s.anything_just_pressed());
    assert_eq!(s.lowest_pressed_number_key(), None);
}

#[test]
fn just_pressed_is_an_edge() {
    let t0 = State::new();
    let t1 = t0.update(levels(&[Switch::Number4]));
    assert!(t1.just_pressed(Switch::Number4));
    assert!(t1.pressed(Switch::Number4));
    let t2 = t1.update(levels(&[Switch::Number4]));
    assert!(t2.pressed(Switch::Number4));
    assert!(!t2.just_pressed(Switch::Number4));
    let t3 = t2.update(levels(&[]));
    assert!(!t3.pressed(Switch::Number4));
    assert!(!t3.just_pressed(Switch::Number4));
    let t4 = t3.update(levels(&[Switch::Number4]));
    assert!(t4.just_pressed(Switch::Number4));
}

#[test]
fn just_pressed_implies_pressed_now_and_released_before() {
    let mut state = State::new();
    let frames: Vec<Vec<Switch>> = vec![
        vec![Switch::Left],
        vec![Switch::Left, Switch::Number0],
        vec![Switch::Number0, Switch::Right],
        vec![],
        vec![Switch::Left, Switch::Right, Switch::Number9],
    ];
    let mut previous = [false; 12];
    for frame in frames {
        state = state.update(levels(&frame));
        for i in 0..12 {
            let sw = Switch::from_position(i);
            if state.just_pressed(sw) {
                assert!(state.pressed(sw));
                assert!(!previous[i]);
            }
        }
        for i in 0..12 {
            previous[i] = state.pressed(Switch::from_position(i));
        }
    }
}

#[test]
fn switch_number_and_get_num_agree() {
    for n in 0..10 {
        assert_eq!(Switch::number(n).get_num(), Some(n));
        assert_eq!(Switch::number(n).position(), n);
    }
    assert_eq!(Switch::Left.get_num(), None);
    assert_eq!(Switch::Right.get_num(), None);
    assert_eq!(Switch::number(7), Switch::Number7);
}

#[test]
fn switch_state_is_pressed() {
    assert!(SwitchState::Pressed.is_pressed());
    assert!(!SwitchState::Released.is_pressed());
}

#[test]
fn iterators_follow_switch_order() {
    let t1 = State::new().update(levels(&[Switch::Right, Switch::Number5]));
    let t2 = t1.update(levels(&[Switch::Right, Switch::Number5, Switch::Number2, Switch::Left]));
    assert_eq!(t2.iter_pressed(), vec![Switch::Number2, Switch::Number5, Switch::Left, Switch::Right]);
    assert_eq!(t2.iter_just_pressed(), vec![Switch::Number2, Switch::Left]);
    assert!(t2.anything_pressed());
    assert!(t2.anything_just_pressed());
}

#[test]
fn lowest_pressed_number_key_is_lowest_just_pressed_digit() {
    let t1 = State::new().update(levels(&[Switch::Number1]));
    let t2 = t1.update(levels(&[Switch::Number1, Switch::Number8, Switch::Number3, Switch::Left]));
    assert_eq!(t2.lowest_pressed_number_key(), Some(3));
    let t3 = State::new().update(levels(&[Switch::Left, Switch::Right]));
    assert_eq!(t3.lowest_pressed_number_key(), None);
    assert!(t3.anything_just_pressed());
}
