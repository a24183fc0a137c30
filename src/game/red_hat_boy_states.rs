//! The character's states as distinct types: each state only offers the
//! moves that are legal from it, and every move hands back the context it
//! carried, changed as the move demands.
use crate::engine::Point;
use vstd::prelude::*;

verus! {

/// Height of the floor the character stands on.
pub const FLOOR: i16 = 475;

/// Ticks an idle animation runs before its counter wraps.
pub const IDLE_FRAMES: u8 = 29;

/// Ticks a running (or backing) animation runs before its counter wraps.
pub const RUNNING_FRAMES: u8 = 23;

/// Ticks a slide lasts before the character runs again.
pub const SLIDING_FRAMES: u8 = 14;

/// Horizontal speed, in pixels per tick, when running or backing.
pub const RUNNING_SPEED: i16 = 3;

/// What every state carries: the animation counter, where the character is and
/// how fast it moves.
#[derive(Clone, Copy, Debug, PartialEq, Eq, Structural)]
pub struct RedHatBoyContext {
    pub frame: u8,
    pub position: Point,
    pub velocity: Point,
}

impl RedHatBoyContext {
    /// One simulation tick: the counter advances (or wraps to 0 once it has
    /// reached `frame_count`), and the position moves by the velocity once,
    /// wrapping at the bounds of `i16`.
    pub open spec fn ticked(self, frame_count: u8) -> RedHatBoyContext {
        RedHatBoyContext {
            frame: if self.frame < frame_count {
                (self.frame + 1) as u8
            } else {
                0
            },
            position: Point {
                x: self.position.x.wrapping_add(self.velocity.x),
                y: self.position.y.wrapping_add(self.velocity.y),
            },
            velocity: self.velocity,
        }
    }

    /// The same context with the animation counter back at 0.
    pub open spec fn with_frame_reset(self) -> RedHatBoyContext {
        RedHatBoyContext { frame: 0, position: self.position, velocity: self.velocity }
    }

    /// The same context with the given horizontal velocity.
    pub open spec fn with_velocity_x(self, x: i16) -> RedHatBoyContext {
        RedHatBoyContext {
            frame: self.frame,
            position: self.position,
            velocity: Point { x, y: self.velocity.y },
        }
    }

    pub fn update(self, frame_count: u8) -> (r: RedHatBoyContext)
        ensures
            r == self.ticked(frame_count),
    {
        let mut c = self;
        if c.frame < frame_count {
            c.frame = c.frame + 1;
        } else {
            c.frame = 0;
        }
        c.position.x = c.position.x.wrapping_add(c.velocity.x);
        c.position.y = c.position.y.wrapping_add(c.velocity.y);
        c
    }

    pub fn reset_frame(self) -> (r: RedHatBoyContext)
        ensures
            r == self.with_frame_reset(),
    {
        let mut c = self;
        c.frame = 0;
        c
    }

    pub fn run_right(self) -> (r: RedHatBoyContext)
        ensures
            r == self.with_velocity_x(RUNNING_SPEED),
    {
        let mut c = self;
        c.velocity.x = RUNNING_SPEED;
        c
    }

    pub fn back_left(self) -> (r: RedHatBoyContext)
        ensures
            r == self.with_velocity_x((-RUNNING_SPEED) as i16),
    {
        let mut c = self;
        c.velocity.x = -RUNNING_SPEED;
        c
    }
}

/// Marker of the idle state.
#[derive(Clone, Copy, Debug, PartialEq, Eq, Structural)]
pub struct Idle;

/// Marker of the running state.
#[derive(Clone, Copy, Debug, PartialEq, Eq, Structural)]
pub struct Running;

/// Marker of the backing state (running to the left).
#[derive(Clone, Copy, Debug, PartialEq, Eq, Structural)]
pub struct Backing;

/// Marker of the sliding state.
#[derive(Clone, Copy, Debug, PartialEq, Eq, Structural)]
pub struct Sliding;

/// A context in the state named by `S`.
#[derive(Clone, Copy, Debug, PartialEq, Eq, Structural)]
pub struct RedHatBoyState<S> {
    pub context: RedHatBoyContext,
    pub phase: S,
}

impl<S> RedHatBoyState<S> {
    pub fn context(&self) -> (r: &RedHatBoyContext)
        ensures
            *r == self.context,
    {
        &self.context
    }
}

impl RedHatBoyState<Idle> {
    pub fn update(self) -> (r: RedHatBoyState<Idle>)
        ensures
            r == (RedHatBoyState { context: self.context.ticked(IDLE_FRAMES), phase: Idle }),
    {
        RedHatBoyState { context: self.context.update(IDLE_FRAMES), phase: Idle }
    }

    pub fn frame_name(&self) -> (r: &'static str)
        ensures
            r@ == "Idle"@,
    {
        proof {
            reveal_strlit("Idle");
        }
        "Idle"
    }

    /// The character as it first appears: standing on the floor, at rest.
    pub fn new() -> (r: RedHatBoyState<Idle>)
        ensures
            r == (RedHatBoyState {
                context: RedHatBoyContext {
                    frame: 0,
                    position: Point { x: 0, y: FLOOR },
                    velocity: Point { x: 0, y: 0 },
                },
                phase: Idle,
            }),
    {
        RedHatBoyState {
            context: RedHatBoyContext {
                frame: 0,
                position: Point { x: 0, y: FLOOR },
                velocity: Point { x: 0, y: 0 },
            },
            phase: Idle,
        }
    }

    pub fn run(self) -> (r: RedHatBoyState<Running>)
        ensures
            r == (RedHatBoyState {
                context: self.context.with_frame_reset().with_velocity_x(RUNNING_SPEED),
                phase: Running,
            }),
    {
        RedHatBoyState { context: self.context.reset_frame().run_right(), phase: Running }
    }

    pub fn back(self) -> (r: RedHatBoyState<Backing>)
        ensures
            r == (RedHatBoyState {
                context: self.context.with_frame_reset().with_velocity_x((-RUNNING_SPEED) as i16),
                phase: Backing,
            }),
    {
        RedHatBoyState { context: self.context.reset_frame().back_left(), phase: Backing }
    }
}

impl RedHatBoyState<Running> {
    pub fn update(self) -> (r: RedHatBoyState<Running>)
        ensures
            r == (RedHatBoyState { context: self.context.ticked(RUNNING_FRAMES), phase: Running }),
    {
        RedHatBoyState { context: self.context.update(RUNNING_FRAMES), phase: Running }
    }

    pub fn frame_name(&self) -> (r: &'static str)
        ensures
            r@ == "Run"@,
    {
        proof {
            reveal_strlit("Run");
        }
        "Run"
    }

    pub fn back(self) -> (r: RedHatBoyState<Backing>)
        ensures
            r == (RedHatBoyState {
                context: self.context.with_frame_reset().with_velocity_x((-RUNNING_SPEED) as i16),
                phase: Backing,
            }),
    {
        RedHatBoyState { context: self.context.reset_frame().back_left(), phase: Backing }
    }

    pub fn slide(self) -> (r: RedHatBoyState<Sliding>)
        ensures
            r == (RedHatBoyState { context: self.context.with_frame_reset(), phase: Sliding }),
    {
        RedHatBoyState { context: self.context.reset_frame(), phase: Sliding }
    }
}

impl RedHatBoyState<Backing> {
    pub fn update(self) -> (r: RedHatBoyState<Backing>)
        ensures
            r == (RedHatBoyState { context: self.context.ticked(RUNNING_FRAMES), phase: Backing }),
    {
        RedHatBoyState { context: self.context.update(RUNNING_FRAMES), phase: Backing }
    }

    /// Backing plays the running animation while moving to the left.
    pub fn frame_name(&self) -> (r: &'static str)
        ensures
            r@ == "Run"@,
    {
        proof {
            reveal_strlit("Run");
        }
        "Run"
    }

    pub fn run(self) -> (r: RedHatBoyState<Running>)
        ensures
            r == (RedHatBoyState {
                context: self.context.with_frame_reset().with_velocity_x(RUNNING_SPEED),
                phase: Running,
            }),
    {
        RedHatBoyState { context: self.context.reset_frame().run_right(), phase: Running }
    }
}

impl RedHatBoyState<Sliding> {
    /// One tick of a slide; once the counter reaches `SLIDING_FRAMES` the
    /// slide is over and the character runs again, counter at 0.
    pub fn update(self) -> (r: SlidingEndState)
        ensures
            ({
                let c = self.context.ticked(SLIDING_FRAMES);
                if c.frame >= SLIDING_FRAMES {
                    r == SlidingEndState::Complete(
                        RedHatBoyState { context: c.with_frame_reset(), phase: Running },
                    )
                } else {
                    r == SlidingEndState::Sliding(RedHatBoyState { context: c, phase: Sliding })
                }
            }),
    {
        let s = RedHatBoyState { context: self.context.update(SLIDING_FRAMES), phase: Sliding };
        if s.context.frame >= SLIDING_FRAMES {
            SlidingEndState::Complete(s.stand())
        } else {
            SlidingEndState::Sliding(s)
        }
    }

    pub fn frame_name(&self) -> (r: &'static str)
        ensures
            r@ == "Slide"@,
    {
        proof {
            reveal_strlit("Slide");
        }
        "Slide"
    }

    pub fn stand(self) -> (r: RedHatBoyState<Running>)
        ensures
            r == (RedHatBoyState { context: self.context.with_frame_reset(), phase: Running }),
    {
        RedHatBoyState { context: self.context.reset_frame(), phase: Running }
    }
}

/// Where a tick of a slide leads: still sliding, or running again.
#[derive(Clone, Copy, Debug, PartialEq, Eq, Structural)]
pub enum SlidingEndState {
    Complete(RedHatBoyState<Running>),
    Sliding(RedHatBoyState<Sliding>),
}

} // verus!
