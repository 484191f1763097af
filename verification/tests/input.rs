use isogrid::input::Input;

fn sorted(mut inputs: Vec<u32>) -> Vec<u32> {
    inputs.sort();
    inputs
}

#[test]
fn new_input_holds_nothing() {
    let input: Input<u32> = Input::default();
    assert!(!input.pressed(1));
    assert!(!input.just_pressed(1));
    assert!(!input.just_released(1));
    assert!(input.get_pressed().is_empty());
    assert!(input.get_just_pressed().is_empty());
    assert!(input.get_just_released().is_empty());
}

#[test]
fn press_marks_the_key_as_held_and_fresh() {
    let mut input: Input<u32> = Input::default();
    input.press(7);
    assert!(input.pressed(7));
    assert!(input.just_pressed(7));
    assert!(!input.just_released(7));
    assert!(!input.pressed(8));
}

#[test]
fn press_of_a_held_key_is_not_fresh_again() {
    let mut input: Input<u32> = Input::default();
    input.press(7);
    input.clear();
    assert!(input.pressed(7));
    assert!(!input.just_pressed(7));
    input.press(7);
    assert!(input.pressed(7));
    assert!(!input.just_pressed(7));
}

#[test]
fn release_marks_a_held_key_as_released() {
    let mut input: Input<u32> = Input::default();
    input.press(7);
    input.release(7);
    assert!(!input.pressed(7));
    assert!(input.just_released(7));
    assert!(input.just_pressed(7));
}

#[test]
fn release_of_a_key_that_is_not_held_does_nothing() {
    let mut input: Input<u32> = Input::default();
    input.release(7);
    assert!(!input.pressed(7));
    assert!(!input.just_released(7));
}

#[test]
fn release_all_releases_every_held_key() {
    let mut input: Input<u32> = Input::default();
    input.press(1);
    input.press(2);
    input.release(2);
    input.press(3);
    input.release_all();
    assert!(input.get_pressed().is_empty());
    assert_eq!(sorted(input.get_just_released()), vec![1, 2, 3]);
    assert_eq!(sorted(input.get_just_pressed()), vec![1, 2, 3]);
}

#[test]
fn any_of_the_keys_is_enough() {
    let mut input: Input<u32> = Input::default();
    input.press(1);
    input.press(2);
    input.release(2);
    assert!(input.any_pressed(&[9, 1]));
    assert!(!input.any_pressed(&[9, 2]));
    assert!(!input.any_pressed(&[]));
    assert!(input.any_just_pressed(&[2, 9]));
    assert!(!input.any_just_pressed(&[8, 9]));
    assert!(input.any_just_released(&[9, 8, 2]));
    assert!(!input.any_just_released(&[1]));
}

#[test]
fn clear_just_pressed_forgets_one_key() {
    let mut input: Input<u32> = Input::default();
    input.press(1);
    input.press(2);
    assert!(input.clear_just_pressed(1));
    assert!(!input.clear_just_pressed(1));
    assert!(!input.just_pressed(1));
    assert!(input.just_pressed(2));
    assert!(input.pressed(1));
}

#[test]
fn clear_just_released_forgets_one_key() {
    let mut input: Input<u32> = Input::default();
    input.press(1);
    input.press(2);
    input.release(1);
    input.release(2);
    assert!(input.clear_just_released(1));
    assert!(!input.clear_just_released(1));
    assert!(!input.just_released(1));
    assert!(input.just_released(2));
}

#[test]
fn reset_forgets_all_of_one_key() {
    let mut input: Input<u32> = Input::default();
    input.press(1);
    input.press(2);
    input.release(2);
    input.press(2);
    input.reset(2);
    assert!(!input.pressed(2));
    assert!(!input.just_pressed(2));
    assert!(!input.just_released(2));
    assert!(input.pressed(1));
    assert!(input.just_pressed(1));
}

#[test]
fn reset_all_forgets_every_key() {
    let mut input: Input<u32> = Input::default();
    input.press(1);
    input.press(2);
    input.release(2);
    input.reset_all();
    assert!(input.get_pressed().is_empty());
    assert!(input.get_just_pressed().is_empty());
    assert!(input.get_just_released().is_empty());
}

#[test]
fn clear_keeps_the_held_keys() {
    let mut input: Input<u32> = Input::default();
    input.press(1);
    input.press(2);
    input.release(2);
    input.clear();
    assert_eq!(input.get_pressed(), vec![1]);
    assert!(input.get_just_pressed().is_empty());
    assert!(input.get_just_released().is_empty());
}

#[test]
fn getters_list_every_key_once() {
    let mut input: Input<u32> = Input::default();
    for key in [5, 3, 5, 9, 3, 1] {
        input.press(key);
    }
    input.release(9);
    assert_eq!(sorted(input.get_pressed()), vec![1, 3, 5]);
    assert_eq!(sorted(input.get_just_pressed()), vec![1, 3, 5, 9]);
    assert_eq!(sorted(input.get_just_released()), vec![9]);
}

#[test]
fn clone_holds_what_the_input_holds() {
    let mut input: Input<u32> = Input::default();
    input.press(1);
    input.press(2);
    input.release(2);
    input.clear_just_pressed(1);
    let mut copy = input.clone();
    assert_eq!(sorted(copy.get_pressed()), vec![1]);
    assert_eq!(sorted(copy.get_just_pressed()), vec![2]);
    assert_eq!(sorted(copy.get_just_released()), vec![2]);
    copy.press(9);
    assert!(!input.pressed(9));
}
