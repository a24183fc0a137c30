//! The playable character: its state machine over the closed set of states,
//! the sprite it shows, and the game that steers it from the held keys.
pub mod red_hat_boy_states;
pub mod test_browser;

use crate::engine::{
    after_keys, process_input, GameLoop, KeyPress, KeyState, Point, Sheet, SheetRect, FRAME_SIZE,
};
use red_hat_boy_states::{
    Backing, Idle, RedHatBoyContext, RedHatBoyState, Running, Sliding, SlidingEndState,
    IDLE_FRAMES, RUNNING_FRAMES, RUNNING_SPEED, SLIDING_FRAMES,
};
use vstd::prelude::*;
use vstd::string::StrSliceExecFns;
use vstd::string::StringExecFns;

verus! {

/// What can happen to the character: three moves asked for by the player,
/// and the tick of the simulation.
#[derive(Clone, Copy, Debug, PartialEq, Eq, Structural)]
pub enum Event {
    Run,
    Back,
    Slide,
    Update,
}

/// The character in exactly one of its states.
#[derive(Clone, Copy, Debug, PartialEq, Eq, Structural)]
pub enum RedHatBoyStateMachine {
    Idle(RedHatBoyState<Idle>),
    Running(RedHatBoyState<Running>),
    Backing(RedHatBoyState<Backing>),
    Sliding(RedHatBoyState<Sliding>),
}

/// The running state with context `c`.
pub open spec fn running_with(c: RedHatBoyContext) -> RedHatBoyStateMachine {
    RedHatBoyStateMachine::Running(RedHatBoyState { context: c, phase: Running })
}

/// The backing state with context `c`.
pub open spec fn backing_with(c: RedHatBoyContext) -> RedHatBoyStateMachine {
    RedHatBoyStateMachine::Backing(RedHatBoyState { context: c, phase: Backing })
}

/// Where a tick of a slide leads from context `c`.
pub open spec fn slide_ticked(c: RedHatBoyContext) -> RedHatBoyStateMachine {
    let t = c.ticked(SLIDING_FRAMES);
    if t.frame >= SLIDING_FRAMES {
        running_with(t.with_frame_reset())
    } else {
        RedHatBoyStateMachine::Sliding(RedHatBoyState { context: t, phase: Sliding })
    }
}

impl RedHatBoyStateMachine {
    /// The context of whichever state is live.
    pub open spec fn ctx(self) -> RedHatBoyContext {
        match self {
            RedHatBoyStateMachine::Idle(s) => s.context,
            RedHatBoyStateMachine::Running(s) => s.context,
            RedHatBoyStateMachine::Backing(s) => s.context,
            RedHatBoyStateMachine::Sliding(s) => s.context,
        }
    }

    /// The number of ticks of the live state's animation.
    pub open spec fn animation_length(self) -> u8 {
        match self {
            RedHatBoyStateMachine::Idle(_) => IDLE_FRAMES,
            RedHatBoyStateMachine::Sliding(_) => SLIDING_FRAMES,
            _ => RUNNING_FRAMES,
        }
    }

    /// The name of the live state's animation in the sprite sheet.
    pub open spec fn label(self) -> Seq<char> {
        match self {
            RedHatBoyStateMachine::Idle(_) => "Idle"@,
            RedHatBoyStateMachine::Sliding(_) => "Slide"@,
            _ => "Run"@,
        }
    }

    /// The counter never passes the animation length, and a slide leaves
    /// before its counter reaches it.
    pub open spec fn wf(self) -> bool {
        match self {
            RedHatBoyStateMachine::Sliding(s) => s.context.frame < SLIDING_FRAMES,
            _ => self.ctx().frame <= self.animation_length(),
        }
    }

    /// The pairs of state and event that the transition table lists; every
    /// tick is listed.
    pub open spec fn moves_on(self, event: Event) -> bool {
        match (self, event) {
            (_, Event::Update) => true,
            (RedHatBoyStateMachine::Idle(_), Event::Run) => true,
            (RedHatBoyStateMachine::Idle(_), Event::Back) => true,
            (RedHatBoyStateMachine::Running(_), Event::Back) => true,
            (RedHatBoyStateMachine::Running(_), Event::Slide) => true,
            (RedHatBoyStateMachine::Backing(_), Event::Run) => true,
            _ => false,
        }
    }

    /// The transition table.
    pub open spec fn next(self, event: Event) -> RedHatBoyStateMachine {
        match (self, event) {
            (RedHatBoyStateMachine::Idle(s), Event::Run) => running_with(
                s.context.with_frame_reset().with_velocity_x(RUNNING_SPEED),
            ),
            (RedHatBoyStateMachine::Backing(s), Event::Run) => running_with(
                s.context.with_frame_reset().with_velocity_x(RUNNING_SPEED),
            ),
            (RedHatBoyStateMachine::Idle(s), Event::Back) => backing_with(
                s.context.with_frame_reset().with_velocity_x((-RUNNING_SPEED) as i16),
            ),
            (RedHatBoyStateMachine::Running(s), Event::Back) => backing_with(
                s.context.with_frame_reset().with_velocity_x((-RUNNING_SPEED) as i16),
            ),
            (RedHatBoyStateMachine::Running(s), Event::Slide) => RedHatBoyStateMachine::Sliding(
                RedHatBoyState { context: s.context.with_frame_reset(), phase: Sliding },
            ),
            (RedHatBoyStateMachine::Idle(s), Event::Update) => RedHatBoyStateMachine::Idle(
                RedHatBoyState { context: s.context.ticked(IDLE_FRAMES), phase: Idle },
            ),
            (RedHatBoyStateMachine::Running(s), Event::Update) => running_with(
                s.context.ticked(RUNNING_FRAMES),
            ),
            (RedHatBoyStateMachine::Backing(s), Event::Update) => backing_with(
                s.context.ticked(RUNNING_FRAMES),
            ),
            (RedHatBoyStateMachine::Sliding(s), Event::Update) => slide_ticked(s.context),
            _ => self,
        }
    }

    /// The state after `n` ticks.
    pub open spec fn ticked_times(self, n: nat) -> RedHatBoyStateMachine
        decreases n,
    {
        if n == 0 {
            self
        } else {
            self.ticked_times((n - 1) as nat).next(Event::Update)
        }
    }

    pub fn transition(self, event: Event) -> (r: RedHatBoyStateMachine)
        ensures
            r == self.next(event),
            self.wf() ==> r.wf(),
    {
        match (self, event) {
            (RedHatBoyStateMachine::Idle(state), Event::Run) => RedHatBoyStateMachine::Running(
                state.run(),
            ),
            (RedHatBoyStateMachine::Idle(state), Event::Back) => RedHatBoyStateMachine::Backing(
                state.back(),
            ),
            (RedHatBoyStateMachine::Idle(_), Event::Slide) => self,
            (RedHatBoyStateMachine::Running(state), Event::Back) => RedHatBoyStateMachine::Backing(
                state.back(),
            ),
            (RedHatBoyStateMachine::Running(_), Event::Run) => self,
            (RedHatBoyStateMachine::Running(state), Event::Slide) => RedHatBoyStateMachine::Sliding(
                state.slide(),
            ),
            (RedHatBoyStateMachine::Backing(state), Event::Run) => RedHatBoyStateMachine::Running(
                state.run(),
            ),
            (RedHatBoyStateMachine::Backing(_), Event::Back) => self,
            (RedHatBoyStateMachine::Backing(_), Event::Slide) => self,
            (RedHatBoyStateMachine::Sliding(_), Event::Run) => self,
            (RedHatBoyStateMachine::Sliding(_), Event::Back) => self,
            (RedHatBoyStateMachine::Sliding(_), Event::Slide) => self,
            (RedHatBoyStateMachine::Idle(state), Event::Update) => RedHatBoyStateMachine::Idle(
                state.update(),
            ),
            (RedHatBoyStateMachine::Running(state), Event::Update) => RedHatBoyStateMachine::Running(
                state.update(),
            ),
            (RedHatBoyStateMachine::Backing(state), Event::Update) => RedHatBoyStateMachine::Backing(
                state.update(),
            ),
            (RedHatBoyStateMachine::Sliding(state), Event::Update) => RedHatBoyStateMachine::from(
                state.update(),
            ),
        }
    }

    pub fn update(self) -> (r: RedHatBoyStateMachine)
        ensures
            r == self.next(Event::Update),
            self.wf() ==> r.wf(),
    {
        self.transition(Event::Update)
    }

    pub fn frame_name(&self) -> (r: &'static str)
        ensures
            r@ == self.label(),
    {
        match self {
            RedHatBoyStateMachine::Idle(state) => state.frame_name(),
            RedHatBoyStateMachine::Running(state) => state.frame_name(),
            RedHatBoyStateMachine::Backing(state) => state.frame_name(),
            RedHatBoyStateMachine::Sliding(state) => state.frame_name(),
        }
    }

    pub fn context(&self) -> (r: &RedHatBoyContext)
        ensures
            *r == self.ctx(),
    {
        match self {
            RedHatBoyStateMachine::Idle(state) => state.context(),
            RedHatBoyStateMachine::Running(state) => state.context(),
            RedHatBoyStateMachine::Backing(state) => state.context(),
            RedHatBoyStateMachine::Sliding(state) => state.context(),
        }
    }
}

/// Events that the transition table does not list for a state change
/// nothing: the state and its context stay as they were.
pub proof fn lemma_unlisted_event_is_no_op(m: RedHatBoyStateMachine, event: Event)
    requires
        !m.moves_on(event),
    ensures
        m.next(event) == m,
{
}

/// From idle, running starts a run at counter 0 moving right at full speed,
/// and backing starts a backing run at counter 0 moving left at full speed.
pub proof fn lemma_idle_starts_moving(s: RedHatBoyState<Idle>)
    ensures
        RedHatBoyStateMachine::Idle(s).next(Event::Run) is Running,
        RedHatBoyStateMachine::Idle(s).next(Event::Run).ctx().frame == 0,
        RedHatBoyStateMachine::Idle(s).next(Event::Run).ctx().velocity.x == RUNNING_SPEED,
        RedHatBoyStateMachine::Idle(s).next(Event::Back) is Backing,
        RedHatBoyStateMachine::Idle(s).next(Event::Back).ctx().frame == 0,
        RedHatBoyStateMachine::Idle(s).next(Event::Back).ctx().velocity.x == -RUNNING_SPEED,
{
}

/// A slide on its last tick ends in a run with the counter at 0.
pub proof fn lemma_slide_ends_in_run(s: RedHatBoyState<Sliding>)
    requires
        s.context.frame == SLIDING_FRAMES - 1,
    ensures
        RedHatBoyStateMachine::Sliding(s).next(Event::Update) is Running,
        RedHatBoyStateMachine::Sliding(s).next(Event::Update).ctx().frame == 0,
{
}

/// Every transition keeps the counter within its state's bounds.
pub proof fn lemma_next_keeps_wf(m: RedHatBoyStateMachine, event: Event)
    requires
        m.wf(),
    ensures
        m.next(event).wf(),
{
}

/// The held keys and a tick keep the counter within its state's bounds, for
/// any number of steps.
pub proof fn lemma_simulation_keeps_wf(m: RedHatBoyStateMachine, held: Set<Seq<char>>, n: nat)
    requires
        m.wf(),
    ensures
        simulated(m, held, n).wf(),
    decreases n,
{
    if n > 0 {
        lemma_simulation_keeps_wf(m, held, (n - 1) as nat);
        let p = simulated(m, held, (n - 1) as nat);
        lemma_next_keeps_wf(p, Event::Slide);
        let m1 = if held.contains("ArrowDown"@) { p.next(Event::Slide) } else { p };
        lemma_next_keeps_wf(m1, Event::Run);
        let m2 = if held.contains("ArrowRight"@) { m1.next(Event::Run) } else { m1 };
        lemma_next_keeps_wf(m2, Event::Back);
        let m3 = if held.contains("ArrowLeft"@) { m2.next(Event::Back) } else { m2 };
        lemma_next_keeps_wf(m3, Event::Update);
    }
}

/// Ticks of a state other than a slide keep that state and count up while
/// the counter stays within the animation length.
proof fn lemma_steady_ticks(m: RedHatBoyStateMachine, k: nat)
    requires
        !(m is Sliding),
        m.ctx().frame + k <= m.animation_length(),
    ensures
        !(m.ticked_times(k) is Sliding),
        m.ticked_times(k).animation_length() == m.animation_length(),
        m.ticked_times(k).ctx().frame == m.ctx().frame + k,
    decreases k,
{
    if k > 0 {
        lemma_steady_ticks(m, (k - 1) as nat);
    }
}

/// Ticks of a slide count up while the counter stays below its length.
proof fn lemma_slide_ticks(m: RedHatBoyStateMachine, k: nat)
    requires
        m is Sliding,
        m.ctx().frame + k < SLIDING_FRAMES,
    ensures
        m.ticked_times(k) is Sliding,
        m.ticked_times(k).ctx().frame == m.ctx().frame + k,
    decreases k,
{
    if k > 0 {
        lemma_slide_ticks(m, (k - 1) as nat);
    }
}

/// As many ticks as the animation is long bring the counter back to 0, for a
/// slide that has just begun (counter 0) and for any other state one tick
/// after its counter wrapped (counter 1): the counter wraps, it never
/// overflows.
pub proof fn lemma_animation_wraps(m: RedHatBoyStateMachine)
    requires
        m.wf(),
        m is Sliding ==> m.ctx().frame == 0,
        !(m is Sliding) ==> m.ctx().frame == 1,
    ensures
        m.ticked_times(m.animation_length() as nat).ctx().frame == 0,
{
    let n = m.animation_length() as nat;
    if m is Sliding {
        lemma_slide_ticks(m, (n - 1) as nat);
    } else {
        lemma_steady_ticks(m, (n - 1) as nat);
    }
}

/// The decimal digits.
pub open spec fn digits() -> Seq<char> {
    "0123456789"@
}

/// The decimal notation of `n`, without leading zeros.
pub open spec fn decimal(n: nat) -> Seq<char>
    decreases n,
{
    if n < 10 {
        seq![digits()[n as int]]
    } else {
        decimal(n / 10).push(digits()[(n % 10) as int])
    }
}

/// The sprite-sheet key of the picture shown for a counter value: each picture
/// is held for three ticks, and pictures are numbered from 1.
pub open spec fn sprite_key(label: Seq<char>, frame: u8) -> Seq<char> {
    label + " ("@ + decimal((frame / 3 + 1) as nat) + ").png"@
}

/// Appends the decimal notation of `n` to `s`.
fn push_decimal(s: &mut String, n: u8)
    ensures
        final(s)@ == old(s)@ + decimal(n as nat),
    decreases n,
{
    let all = "0123456789";
    proof {
        reveal_strlit("0123456789");
    }
    if n >= 10 {
        push_decimal(s, n / 10);
    }
    let d = (n % 10) as usize;
    s.append(all.substring_char(d, d + 1));
    proof {
        assert(all@.subrange(d as int, d + 1) =~= seq![digits()[d as int]]);
        if n >= 10 {
            assert(decimal(n as nat) == decimal((n / 10) as nat).push(digits()[d as int]));
        }
        assert(final(s)@ =~= old(s)@ + decimal(n as nat));
    }
}

/// The character: its state machine and the sprite sheet it is drawn from.
pub struct RedHatBoy {
    pub state_machine: RedHatBoyStateMachine,
    pub sprite_sheet: Sheet,
}

impl RedHatBoy {
    /// A character standing idle on the floor, drawn from `sheet`.
    pub fn new(sheet: Sheet) -> (r: RedHatBoy)
        ensures
            r.state_machine == RedHatBoyStateMachine::Idle(
                RedHatBoyState {
                    context: RedHatBoyContext {
                        frame: 0,
                        position: Point { x: 0, y: red_hat_boy_states::FLOOR },
                        velocity: Point { x: 0, y: 0 },
                    },
                    phase: Idle,
                },
            ),
            r.sprite_sheet == sheet,
    {
        RedHatBoy {
            state_machine: RedHatBoyStateMachine::Idle(RedHatBoyState::new()),
            sprite_sheet: sheet,
        }
    }

    pub fn update(&mut self)
        ensures
            final(self).state_machine == old(self).state_machine.next(Event::Update),
            final(self).sprite_sheet == old(self).sprite_sheet,
    {
        self.state_machine = self.state_machine.update();
    }

    pub fn run_right(&mut self)
        ensures
            final(self).state_machine == old(self).state_machine.next(Event::Run),
            final(self).sprite_sheet == old(self).sprite_sheet,
    {
        self.state_machine = self.state_machine.transition(Event::Run);
    }

    pub fn back_left(&mut self)
        ensures
            final(self).state_machine == old(self).state_machine.next(Event::Back),
            final(self).sprite_sheet == old(self).sprite_sheet,
    {
        self.state_machine = self.state_machine.transition(Event::Back);
    }

    pub fn slide(&mut self)
        ensures
            final(self).state_machine == old(self).state_machine.next(Event::Slide),
            final(self).sprite_sheet == old(self).sprite_sheet,
    {
        self.state_machine = self.state_machine.transition(Event::Slide);
    }

    /// The sprite-sheet key of the picture to show now, such as
    /// `"Run (3).png"`.
    pub fn frame_key(&self) -> (r: String)
        ensures
            r@ == sprite_key(self.state_machine.label(), self.state_machine.ctx().frame),
    {
        let mut key = String::from_str(self.state_machine.frame_name());
        proof {
            reveal_strlit(" (");
            reveal_strlit(").png");
        }
        key.append(" (");
        push_decimal(&mut key, self.state_machine.context().frame / 3 + 1);
        key.append(").png");
        key
    }

    /// What to draw now: the rectangle of the current picture in the sprite
    /// image, and where it goes on screen (at the character's position, with
    /// the picture's size). `None` when the sheet has no such picture.
    pub fn frame_rects(&self) -> (r: Option<(SheetRect, SheetRect)>)
        ensures
            r is None <==> !self.sprite_sheet.has(
                sprite_key(self.state_machine.label(), self.state_machine.ctx().frame),
            ),
            r matches Some((source, destination)) ==> {
                &&& exists|i: int|
                    self.sprite_sheet.first_named(
                        sprite_key(self.state_machine.label(), self.state_machine.ctx().frame),
                        i,
                    ) && self.sprite_sheet.frames@[i].1.frame == source
                &&& destination == (SheetRect {
                    x: self.state_machine.ctx().position.x,
                    y: self.state_machine.ctx().position.y,
                    w: source.w,
                    h: source.h,
                })
            },
    {
        let key = self.frame_key();
        match self.sprite_sheet.get(&key) {
            Some(cell) => {
                let position = self.state_machine.context().position;
                let destination = SheetRect {
                    x: position.x,
                    y: position.y,
                    w: cell.frame.w,
                    h: cell.frame.h,
                };
                Some((cell.frame, destination))
            },
            None => None,
        }
    }
}

/// The state after the held keys are read and one tick runs: a held down
/// arrow slides, then a held right arrow runs, then a held left arrow backs,
/// each through the transition table, and the tick comes last.
pub open spec fn after_input(m: RedHatBoyStateMachine, held: Set<Seq<char>>) -> RedHatBoyStateMachine {
    let m1 = if held.contains("ArrowDown"@) {
        m.next(Event::Slide)
    } else {
        m
    };
    let m2 = if held.contains("ArrowRight"@) {
        m1.next(Event::Run)
    } else {
        m1
    };
    let m3 = if held.contains("ArrowLeft"@) {
        m2.next(Event::Back)
    } else {
        m2
    };
    m3.next(Event::Update)
}

/// The state after `n` simulation steps under the same held keys.
pub open spec fn simulated(m: RedHatBoyStateMachine, held: Set<Seq<char>>, n: nat) -> RedHatBoyStateMachine
    decreases n,
{
    if n == 0 {
        m
    } else {
        after_input(simulated(m, held, (n - 1) as nat), held)
    }
}

/// The game: a character, once its assets are loaded.
pub struct WalkTheDog {
    pub rhb: Option<RedHatBoy>,
}

impl WalkTheDog {
    /// A game whose assets are not loaded yet.
    pub fn new() -> (r: WalkTheDog)
        ensures
            r.rhb is None,
    {
        WalkTheDog { rhb: None }
    }

    /// One simulation step, steered by the held keys.
    pub fn update(&mut self, key_state: &KeyState)
        requires
            old(self).rhb is Some,
        ensures
            final(self).rhb matches Some(rhb) && rhb.state_machine == after_input(
                old(self).rhb->Some_0.state_machine,
                key_state.pressed(),
            ) && rhb.sprite_sheet == old(self).rhb->Some_0.sprite_sheet,
    {
        match &mut self.rhb {
            Some(rhb) => {
                if key_state.is_pressed("ArrowDown") {
                    rhb.slide();
                }
                if key_state.is_pressed("ArrowRight") {
                    rhb.run_right();
                }
                if key_state.is_pressed("ArrowLeft") {
                    rhb.back_left();
                }
                rhb.update();
            },
            None => {},
        }
    }

    /// One host callback: the queued key notifications are applied first,
    /// then the clock says how many fixed steps the elapsed time pays for, and
    /// the game runs that many steps under the keys now held. Returns the
    /// number of steps run; drawing is left to the caller.
    pub fn on_frame(
        &mut self,
        game_loop: &mut GameLoop,
        key_state: &mut KeyState,
        events: Vec<KeyPress>,
        timestamp: u64,
    ) -> (steps: u64)
        requires
            old(self).rhb is Some,
            old(game_loop).last() <= timestamp,
            old(game_loop).backlog() < FRAME_SIZE,
        ensures
            final(key_state).pressed() == after_keys(old(key_state).pressed(), events@),
            steps == (old(game_loop).backlog() + (timestamp - old(game_loop).last())) / (
            FRAME_SIZE as int),
            final(game_loop).backlog() == (old(game_loop).backlog() + (timestamp - old(
                game_loop,
            ).last())) % (FRAME_SIZE as int),
            final(game_loop).backlog() < FRAME_SIZE,
            final(game_loop).last() == timestamp,
            final(self).rhb matches Some(rhb) && rhb.state_machine == simulated(
                old(self).rhb->Some_0.state_machine,
                final(key_state).pressed(),
                steps as nat,
            ) && rhb.sprite_sheet == old(self).rhb->Some_0.sprite_sheet,
    {
        process_input(key_state, events);
        let steps = game_loop.advance(timestamp);
        let ghost start = self.rhb->Some_0;
        let mut done: u64 = 0;
        while done < steps
            invariant
                done <= steps,
                self.rhb matches Some(rhb) && rhb.state_machine == simulated(
                    start.state_machine,
                    key_state.pressed(),
                    done as nat,
                ) && rhb.sprite_sheet == start.sprite_sheet,
            decreases steps - done,
        {
            self.update(key_state);
            done = done + 1;
        }
        steps
    }
}

impl From<SlidingEndState> for RedHatBoyStateMachine {
    fn from(end_state: SlidingEndState) -> (r: RedHatBoyStateMachine) {
        match end_state {
            SlidingEndState::Complete(running_state) => RedHatBoyStateMachine::Running(
                running_state,
            ),
            SlidingEndState::Sliding(sliding_state) => RedHatBoyStateMachine::Sliding(
                sliding_state,
            ),
        }
    }
}

impl vstd::std_specs::convert::FromSpecImpl<SlidingEndState> for RedHatBoyStateMachine {
    open spec fn obeys_from_spec() -> bool {
        true
    }

    open spec fn from_spec(end_state: SlidingEndState) -> RedHatBoyStateMachine {
        match end_state {
            SlidingEndState::Complete(s) => RedHatBoyStateMachine::Running(s),
            SlidingEndState::Sliding(s) => RedHatBoyStateMachine::Sliding(s),
        }
    }
}

} // verus!
