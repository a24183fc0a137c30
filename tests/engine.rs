use futures::channel::oneshot;
use walk_the_dog::engine::{process_input, GameLoop, KeyPress, KeyState, LoadSlot, FRAME_SIZE};

fn down(code: &str) -> KeyPress {
    KeyPress::KeyDown(code.to_string())
}

fn up(code: &str) -> KeyPress {
    KeyPress::KeyUp(code.to_string())
}

#[test]
fn new_key_state_holds_nothing() {
    let keys = KeyState::new();
    assert!(!keys.is_pressed("ArrowRight"));
    assert!(!keys.is_pressed(""));
}

#[test]
fn key_down_then_up() {
    let mut keys = KeyState::new();
    process_input(&mut keys, vec![down("ArrowRight")]);
    assert!(keys.is_pressed("ArrowRight"));
    assert!(!keys.is_pressed("ArrowLeft"));
    process_input(&mut keys, vec![up("ArrowRight")]);
    assert!(!keys.is_pressed("ArrowRight"));
}

#[test]
fn last_notification_of_a_key_decides() {
    let mut keys = KeyState::new();
    process_input(
        &mut keys,
        vec![
            down("ArrowDown"),
            down("ArrowDown"),
            up("ArrowDown"),
            down("ArrowLeft"),
            up("ArrowUp"),
            down("ArrowUp"),
        ],
    );
    assert!(!keys.is_pressed("ArrowDown"));
    assert!(keys.is_pressed("ArrowLeft"));
    assert!(keys.is_pressed("ArrowUp"));
}

#[test]
fn repeated_key_down_is_released_by_one_up() {
    let mut keys = KeyState::new();
    keys.set_pressed("Space");
    keys.set_pressed("Space");
    assert!(keys.is_pressed("Space"));
    keys.set_released("Space");
    assert!(!keys.is_pressed("Space"));
}

#[test]
fn releasing_an_unheld_key_is_harmless() {
    let mut keys = KeyState::new();
    keys.set_pressed("KeyA");
    keys.set_released("KeyB");
    assert!(keys.is_pressed("KeyA"));
    assert!(!keys.is_pressed("KeyB"));
}

#[test]
fn empty_queue_changes_nothing() {
    let mut keys = KeyState::new();
    keys.set_pressed("KeyA");
    process_input(&mut keys, vec![]);
    assert!(keys.is_pressed("KeyA"));
}

#[test]
fn clock_spends_whole_steps_and_keeps_the_rest() {
    let mut clock = GameLoop::new(100);
    assert_eq!(clock.last_frame(), 100);
    assert_eq!(clock.accumulated_delta(), 0);
    assert_eq!(clock.advance(2600), 2);
    assert_eq!(clock.accumulated_delta(), 500);
    assert_eq!(clock.last_frame(), 2600);
    assert_eq!(clock.advance(3200), 1);
    assert_eq!(clock.accumulated_delta(), 100);
    assert_eq!(clock.advance(3200), 0);
    assert_eq!(clock.accumulated_delta(), 100);
}

#[test]
fn clock_step_at_exactly_one_frame() {
    let mut clock = GameLoop::new(0);
    assert_eq!(clock.advance(FRAME_SIZE - 1), 0);
    assert_eq!(clock.advance(FRAME_SIZE), 1);
    assert_eq!(clock.accumulated_delta(), 0);
}

#[test]
fn clock_catches_up_after_a_stall() {
    let mut clock = GameLoop::new(0);
    assert_eq!(clock.advance(60 * 1000 * 60), 3600);
    assert_eq!(clock.accumulated_delta(), 0);
    let mut far = GameLoop::new(0);
    assert_eq!(far.advance(u64::MAX), u64::MAX / 1000);
    assert_eq!(far.accumulated_delta(), u64::MAX % 1000);
}

#[test]
fn load_resolves_to_error_when_only_error_fires() {
    let (tx, mut rx) = oneshot::channel::<Result<(), String>>();
    let mut slot = LoadSlot::new(tx);
    assert!(slot.deliver(Err("broken image".to_string())));
    assert_eq!(rx.try_recv(), Ok(Some(Err("broken image".to_string()))));
}

#[test]
fn load_resolves_to_success_when_only_success_fires() {
    let (tx, mut rx) = oneshot::channel::<Result<(), String>>();
    let mut slot = LoadSlot::new(tx);
    assert!(slot.deliver(Ok(())));
    assert_eq!(rx.try_recv(), Ok(Some(Ok(()))));
}

#[test]
fn load_keeps_the_first_of_two_deliveries() {
    let (tx, mut rx) = oneshot::channel::<Result<(), String>>();
    let mut slot = LoadSlot::new(tx);
    assert!(slot.deliver(Ok(())));
    assert!(!slot.deliver(Err("late error".to_string())));
    assert_eq!(rx.try_recv(), Ok(Some(Ok(()))));

    let (tx, mut rx) = oneshot::channel::<Result<(), String>>();
    let mut slot = LoadSlot::new(tx);
    assert!(slot.deliver(Err("early error".to_string())));
    assert!(!slot.deliver(Ok(())));
    assert_eq!(rx.try_recv(), Ok(Some(Err("early error".to_string()))));
}

#[test]
fn load_without_delivery_stays_pending() {
    let (tx, mut rx) = oneshot::channel::<Result<(), String>>();
    let slot = LoadSlot::new(tx);
    assert_eq!(rx.try_recv(), Ok(None));
    drop(slot);
}

#[test]
fn delivery_after_receiver_dropped_is_silent() {
    let (tx, rx) = oneshot::channel::<Result<(), String>>();
    drop(rx);
    let mut slot = LoadSlot::new(tx);
    assert!(slot.deliver(Ok(())));
    assert!(!slot.deliver(Ok(())));
}

