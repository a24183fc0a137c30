use walk_the_dog::engine::{Cell, GameLoop, KeyPress, KeyState, Point, Sheet, SheetRect};
use walk_the_dog::game::red_hat_boy_states::{
    RedHatBoyState, Idle, Running, Sliding, SlidingEndState, IDLE_FRAMES, RUNNING_FRAMES,
    RUNNING_SPEED, SLIDING_FRAMES,
};
use walk_the_dog::game::test_browser::{draw_ui, hide_ui};
use walk_the_dog::game::{Event, RedHatBoy, RedHatBoyStateMachine, WalkTheDog};
use walk_the_dog::sound::LOOPING;

fn idle() -> RedHatBoyStateMachine {
    RedHatBoyStateMachine::Idle(RedHatBoyState::new())
}

fn ticks(mut m: RedHatBoyStateMachine, n: usize) -> RedHatBoyStateMachine {
    for _ in 0..n {
        m = m.update();
    }
    m
}

fn one_cell_sheet(name: &str, rect: SheetRect) -> Sheet {
    Sheet { frames: vec![(name.to_string(), Cell { frame: rect })] }
}

#[test]
fn new_character_stands_idle_on_the_floor() {
    let m = idle();
    assert!(matches!(m, RedHatBoyStateMachine::Idle(_)));
    let c = *m.context();
    assert_eq!(c.frame, 0);
    assert_eq!(c.position, Point { x: 0, y: 475 });
    assert_eq!(c.velocity, Point { x: 0, y: 0 });
    assert_eq!(m.frame_name(), "Idle");
}

#[test]
fn unlisted_events_leave_the_state_unchanged() {
    let running = idle().transition(Event::Run);
    let backing = idle().transition(Event::Back);
    let sliding = running.transition(Event::Slide);
    assert_eq!(idle().transition(Event::Slide), idle());
    assert_eq!(running.transition(Event::Run), running);
    assert_eq!(backing.transition(Event::Back), backing);
    assert_eq!(backing.transition(Event::Slide), backing);
    assert_eq!(sliding.transition(Event::Run), sliding);
    assert_eq!(sliding.transition(Event::Back), sliding);
    assert_eq!(sliding.transition(Event::Slide), sliding);
}

#[test]
fn idle_run_and_back_start_moving() {
    let run = idle().transition(Event::Run);
    assert!(matches!(run, RedHatBoyStateMachine::Running(_)));
    assert_eq!(run.context().frame, 0);
    assert_eq!(run.context().velocity.x, RUNNING_SPEED);
    assert_eq!(run.context().velocity.x, 3);
    let back = idle().transition(Event::Back);
    assert!(matches!(back, RedHatBoyStateMachine::Backing(_)));
    assert_eq!(back.context().frame, 0);
    assert_eq!(back.context().velocity.x, -3);
    assert_eq!(back.frame_name(), "Run");
}

#[test]
fn running_back_and_backing_run_swap_direction() {
    let back = idle().transition(Event::Run).update().transition(Event::Back);
    assert!(matches!(back, RedHatBoyStateMachine::Backing(_)));
    assert_eq!(back.context().frame, 0);
    assert_eq!(back.context().velocity.x, -3);
    let run = back.update().update().transition(Event::Run);
    assert!(matches!(run, RedHatBoyStateMachine::Running(_)));
    assert_eq!(run.context().frame, 0);
    assert_eq!(run.context().velocity.x, 3);
}

#[test]
fn slide_on_its_last_tick_ends_in_a_run() {
    let mut s = idle().transition(Event::Run).transition(Event::Slide);
    if let RedHatBoyStateMachine::Sliding(st) = &mut s {
        st.context.frame = SLIDING_FRAMES - 1;
    }
    let after = s.update();
    assert!(matches!(after, RedHatBoyStateMachine::Running(_)));
    assert_eq!(after.context().frame, 0);
}

#[test]
fn sliding_state_update_reports_completion() {
    let start = RedHatBoyState::<Idle>::new().run().slide();
    assert_eq!(start.frame_name(), "Slide");
    match start.update() {
        SlidingEndState::Sliding(s) => assert_eq!(s.context().frame, 1),
        SlidingEndState::Complete(_) => panic!("slide ended after one tick"),
    }
    let mut last: RedHatBoyState<Sliding> = start;
    last.context.frame = 13;
    match last.update() {
        SlidingEndState::Complete(r) => {
            let r: RedHatBoyState<Running> = r;
            assert_eq!(r.context().frame, 0);
        }
        SlidingEndState::Sliding(_) => panic!("slide did not end"),
    }
}

#[test]
fn counter_wraps_after_animation_length_ticks() {
    // A fresh slide: 14 ticks bring the counter back to 0.
    let slide = idle().transition(Event::Run).transition(Event::Slide);
    assert_eq!(ticks(slide, SLIDING_FRAMES as usize).context().frame, 0);
    // Idle one tick after wrapping: 29 ticks bring it back to 0.
    let idle_at_one = ticks(idle(), 1);
    assert_eq!(idle_at_one.context().frame, 1);
    assert_eq!(ticks(idle_at_one, IDLE_FRAMES as usize).context().frame, 0);
    // Running at counter 1: 23 ticks.
    let run_at_one = ticks(idle().transition(Event::Run), 1);
    assert_eq!(ticks(run_at_one, RUNNING_FRAMES as usize).context().frame, 0);
    // The counter reaches the animation length, then wraps.
    let top = ticks(idle(), IDLE_FRAMES as usize);
    assert_eq!(top.context().frame, 29);
    assert_eq!(top.update().context().frame, 0);
}

#[test]
fn idle_then_run_end_to_end() {
    let m = ticks(idle(), 3);
    assert_eq!(m.context().frame, 3);
    assert_eq!(m.context().position, Point { x: 0, y: 475 });
    let m = m.transition(Event::Run);
    assert!(matches!(m, RedHatBoyStateMachine::Running(_)));
    assert_eq!(m.context().frame, 0);
    assert_eq!(m.context().velocity, Point { x: 3, y: 0 });
    let m = m.update();
    assert_eq!(m.context().frame, 1);
    assert_eq!(m.context().position, Point { x: 3, y: 475 });
}

#[test]
fn slide_end_to_end() {
    let m = idle().transition(Event::Run);
    assert_eq!(m.context().velocity, Point { x: 3, y: 0 });
    let mut m = m.transition(Event::Slide);
    assert!(matches!(m, RedHatBoyStateMachine::Sliding(_)));
    assert_eq!(m.context().frame, 0);
    for i in 1..14u8 {
        m = m.update();
        assert!(matches!(m, RedHatBoyStateMachine::Sliding(_)));
        assert_eq!(m.context().frame, i);
    }
    m = m.update();
    assert!(matches!(m, RedHatBoyStateMachine::Running(_)));
    assert_eq!(m.context().frame, 0);
}

#[test]
fn position_wraps_at_the_edge_of_i16() {
    let mut m = idle().transition(Event::Run);
    if let RedHatBoyStateMachine::Running(s) = &mut m {
        s.context.position.x = i16::MAX - 1;
    }
    let m = m.update();
    assert_eq!(m.context().position.x, i16::MIN + 1);
}

#[test]
fn frame_key_names_the_picture() {
    let rhb = RedHatBoy::new(Sheet { frames: vec![] });
    assert_eq!(rhb.frame_key(), "Idle (1).png");
    let mut rhb = rhb;
    for _ in 0..5 {
        rhb.update();
    }
    assert_eq!(rhb.frame_key(), "Idle (2).png");
    for _ in 0..24 {
        rhb.update();
    }
    assert_eq!(rhb.state_machine.context().frame, 29);
    assert_eq!(rhb.frame_key(), "Idle (10).png");
    rhb.run_right();
    assert_eq!(rhb.frame_key(), "Run (1).png");
    rhb.slide();
    assert_eq!(rhb.frame_key(), "Slide (1).png");
}

#[test]
fn frame_rects_places_the_picture() {
    let rect = SheetRect { x: 10, y: 20, w: 30, h: 40 };
    let mut rhb = RedHatBoy::new(one_cell_sheet("Run (1).png", rect));
    assert_eq!(rhb.frame_rects(), None);
    rhb.run_right();
    rhb.update();
    let (source, destination) = rhb.frame_rects().expect("picture present");
    assert_eq!(source, rect);
    assert_eq!(destination, SheetRect { x: 3, y: 475, w: 30, h: 40 });
}

#[test]
fn sheet_lookup_finds_named_cell() {
    let a = SheetRect { x: 1, y: 2, w: 3, h: 4 };
    let b = SheetRect { x: 5, y: 6, w: 7, h: 8 };
    let sheet = Sheet {
        frames: vec![
            ("Idle (1).png".to_string(), Cell { frame: a }),
            ("Run (1).png".to_string(), Cell { frame: b }),
        ],
    };
    assert_eq!(sheet.get(&"Run (1).png".to_string()), Some(Cell { frame: b }));
    assert_eq!(sheet.get(&"Idle (1).png".to_string()), Some(Cell { frame: a }));
    assert_eq!(sheet.get(&"Slide (1).png".to_string()), None);
}

#[test]
fn game_update_follows_held_keys() {
    let mut game = WalkTheDog::new();
    assert!(game.rhb.is_none());
    game.rhb = Some(RedHatBoy::new(Sheet { frames: vec![] }));
    let mut keys = KeyState::new();
    game.update(&keys);
    let m = game.rhb.as_ref().unwrap().state_machine;
    assert!(matches!(m, RedHatBoyStateMachine::Idle(_)));
    assert_eq!(m.context().frame, 1);

    keys.set_pressed("ArrowRight");
    game.update(&keys);
    let m = game.rhb.as_ref().unwrap().state_machine;
    assert!(matches!(m, RedHatBoyStateMachine::Running(_)));
    assert_eq!(m.context().frame, 1);
    assert_eq!(m.context().position.x, 3);

    keys.set_released("ArrowRight");
    keys.set_pressed("ArrowDown");
    game.update(&keys);
    let m = game.rhb.as_ref().unwrap().state_machine;
    assert!(matches!(m, RedHatBoyStateMachine::Sliding(_)));
    assert_eq!(m.context().frame, 1);
    assert_eq!(m.context().position.x, 6);
}

#[test]
fn held_left_and_right_ends_backing() {
    let mut game = WalkTheDog::new();
    game.rhb = Some(RedHatBoy::new(Sheet { frames: vec![] }));
    let mut keys = KeyState::new();
    keys.set_pressed("ArrowRight");
    keys.set_pressed("ArrowLeft");
    game.update(&keys);
    let m = game.rhb.as_ref().unwrap().state_machine;
    assert!(matches!(m, RedHatBoyStateMachine::Backing(_)));
    assert_eq!(m.context().position.x, -3);
}

#[test]
fn ui_stubs_succeed() {
    assert_eq!(draw_ui("<button>New Game</button>"), Ok(()));
    assert_eq!(hide_ui(), Ok(()));
}

#[test]
fn looping_flag() {
    assert!(LOOPING::YES.loops());
    assert!(!LOOPING::NO.loops());
}

#[test]
fn frame_applies_input_then_runs_whole_steps() {
    let mut game = WalkTheDog::new();
    game.rhb = Some(RedHatBoy::new(Sheet { frames: vec![] }));
    let mut clock = GameLoop::new(0);
    let mut keys = KeyState::new();
    let steps = game.on_frame(
        &mut clock,
        &mut keys,
        vec![KeyPress::KeyDown("ArrowRight".to_string())],
        2500,
    );
    assert_eq!(steps, 2);
    assert!(keys.is_pressed("ArrowRight"));
    assert_eq!(clock.accumulated_delta(), 500);
    let m = game.rhb.as_ref().unwrap().state_machine;
    assert!(matches!(m, RedHatBoyStateMachine::Running(_)));
    // The first step starts the run and ticks it; the second only ticks.
    assert_eq!(m.context().frame, 2);
    assert_eq!(m.context().position.x, 6);

    let steps = game.on_frame(
        &mut clock,
        &mut keys,
        vec![KeyPress::KeyUp("ArrowRight".to_string())],
        2900,
    );
    assert_eq!(steps, 0);
    assert!(!keys.is_pressed("ArrowRight"));
    assert_eq!(clock.accumulated_delta(), 900);
    assert_eq!(game.rhb.as_ref().unwrap().state_machine.context().frame, 2);
}
