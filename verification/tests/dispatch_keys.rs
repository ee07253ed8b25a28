use framesync::dispatch::{EventDispatcher, Hold, InputEvent, InputStruct};

const KEY_A: u32 = 10;
const KEY_B: u32 = 11;

#[test]
fn press_fires_began_bindings_in_order() {
    let mut d = EventDispatcher::new();
    d.on_input(InputEvent::Began, None);
    d.on_input(InputEvent::Began, Some(KEY_A));
    let fired = d.process_event(Some(KEY_A), true);
    assert_eq!(fired, vec![0, 1]);
}

#[test]
fn filtered_binding_ignores_other_keys() {
    let mut d = EventDispatcher::new();
    d.on_input(InputEvent::Began, None);
    d.on_input(InputEvent::Began, Some(KEY_A));
    let fired = d.process_event(Some(KEY_B), true);
    assert_eq!(fired, vec![0]);
}

#[test]
fn holding_a_key_fires_began_only_once() {
    let mut d = EventDispatcher::new();
    d.on_input(InputEvent::Began, Some(KEY_A));
    assert_eq!(d.process_event(Some(KEY_A), true), vec![0]);
    // key repeat: still held, so the began binding stays quiet
    assert_eq!(d.process_event(Some(KEY_A), true), Vec::<usize>::new());
    // release resets the held state...
    assert_eq!(d.process_event(Some(KEY_A), false), Vec::<usize>::new());
    // ...so the next press fires again
    assert_eq!(d.process_event(Some(KEY_A), true), vec![0]);
}

#[test]
fn release_fires_ended_bindings() {
    let mut d = EventDispatcher::new();
    d.on_input(InputEvent::Ended, Some(KEY_A));
    d.on_input(InputEvent::Ended, None);
    assert_eq!(d.process_event(Some(KEY_A), true), Vec::<usize>::new());
    assert_eq!(d.process_event(Some(KEY_A), false), vec![0, 1]);
    assert_eq!(d.process_event(Some(KEY_B), false), vec![1]);
}

#[test]
fn changed_bindings_never_fire() {
    let mut d = EventDispatcher::new();
    d.on_input(InputEvent::Changed, None);
    assert_eq!(d.process_event(Some(KEY_A), true), Vec::<usize>::new());
    assert_eq!(d.process_event(Some(KEY_A), false), Vec::<usize>::new());
}

#[test]
fn event_without_a_key_fires_nothing() {
    let mut d = EventDispatcher::new();
    d.on_input(InputEvent::Began, None);
    d.on_input(InputEvent::Ended, None);
    assert_eq!(d.process_event(None, true), Vec::<usize>::new());
    assert_eq!(d.process_event(None, false), Vec::<usize>::new());
}

#[test]
fn hold_kind_reflects_the_filter() {
    let one = InputStruct { event: InputEvent::Began, keys: Some(KEY_A), state: false };
    let all = InputStruct { event: InputEvent::Began, keys: None, state: false };
    assert_eq!(one.hold(), Hold::OneKey);
    assert_eq!(all.hold(), Hold::AllKeys);
}
