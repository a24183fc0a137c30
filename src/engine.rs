//! The engine's building blocks: points and sprite-sheet rectangles, the
//! snapshot of held keys, the fixed-step clock of the game loop, and the
//! one-shot slot through which an asset load resolves.
use futures::channel::oneshot::Sender;
use vstd::arithmetic::div_mod::lemma_fundamental_div_mod;
use vstd::arithmetic::div_mod::lemma_fundamental_div_mod_converse;
use vstd::prelude::*;
use vstd::string::StringExecFns;

verus! {

/// A point or a velocity, in pixels.
#[derive(Clone, Copy, Debug, PartialEq, Eq, Structural)]
pub struct Point {
    pub x: i16,
    pub y: i16,
}

/// A rectangle of the sprite image.
#[derive(Clone, Copy, Debug, PartialEq, Eq, Structural)]
pub struct SheetRect {
    pub x: i16,
    pub y: i16,
    pub w: i16,
    pub h: i16,
}

/// One entry of a sprite sheet.
#[derive(Clone, Copy, Debug, PartialEq, Eq, Structural)]
pub struct Cell {
    pub frame: SheetRect,
}

/// A sprite sheet: frame names with their rectangles. A name is looked up
/// by its first entry; the order of the entries carries no other meaning.
pub struct Sheet {
    pub frames: Vec<(String, Cell)>,
}

impl Sheet {
    /// The sheet has an entry named `name`.
    pub open spec fn has(&self, name: Seq<char>) -> bool {
        exists|i: int| 0 <= i < self.frames@.len() && self.frames@[i].0@ == name
    }

    /// Entry `i` is the first one named `name`.
    pub open spec fn first_named(&self, name: Seq<char>, i: int) -> bool {
        &&& 0 <= i < self.frames@.len()
        &&& self.frames@[i].0@ == name
        &&& forall|j: int| 0 <= j < i ==> self.frames@[j].0@ != name
    }

    /// The cell stored under `name`, if any.
    pub fn get(&self, name: &String) -> (r: Option<Cell>)
        ensures
            r is None <==> !self.has(name@),
            r matches Some(c) ==> exists|i: int|
                self.first_named(name@, i) && self.frames@[i].1 == c,
    {
        let mut i: usize = 0;
        while i < self.frames.len()
            invariant
                0 <= i <= self.frames@.len(),
                forall|j: int| 0 <= j < i ==> self.frames@[j].0@ != name@,
            decreases self.frames@.len() - i,
        {
            if self.frames[i].0 == *name {
                assert(self.first_named(name@, i as int));
                return Some(self.frames[i].1);
            }
            i = i + 1;
        }
        None
    }
}

/// A raw key notification, reduced to the key code it carries.
pub enum KeyPress {
    KeyUp(String),
    KeyDown(String),
}

/// The held keys after one key notification.
pub open spec fn after_key(held: Set<Seq<char>>, event: KeyPress) -> Set<Seq<char>> {
    match event {
        KeyPress::KeyDown(code) => held.insert(code@),
        KeyPress::KeyUp(code) => held.remove(code@),
    }
}

/// The held keys after a run of key notifications, applied in order.
pub open spec fn after_keys(held: Set<Seq<char>>, events: Seq<KeyPress>) -> Set<Seq<char>>
    decreases events.len(),
{
    if events.len() == 0 {
        held
    } else {
        after_key(after_keys(held, events.drop_last()), events.last())
    }
}

/// The keys held down at the present moment.
pub struct KeyState {
    pressed_keys: Vec<String>,
}

impl KeyState {
    /// The codes of the held keys.
    pub closed spec fn pressed(&self) -> Set<Seq<char>> {
        Set::new(
            |k: Seq<char>|
                exists|i: int| 0 <= i < self.pressed_keys@.len() && self.pressed_keys@[i]@ == k,
        )
    }

    pub fn new() -> (r: KeyState)
        ensures
            r.pressed() == Set::<Seq<char>>::empty(),
    {
        let r = KeyState { pressed_keys: Vec::new() };
        assert(r.pressed() =~= Set::<Seq<char>>::empty());
        r
    }

    pub fn is_pressed(&self, code: &str) -> (r: bool)
        ensures
            r == self.pressed().contains(code@),
    {
        let target = String::from_str(code);
        let mut i: usize = 0;
        while i < self.pressed_keys.len()
            invariant
                0 <= i <= self.pressed_keys@.len(),
                target@ == code@,
                forall|j: int| 0 <= j < i ==> self.pressed_keys@[j]@ != code@,
            decreases self.pressed_keys@.len() - i,
        {
            if self.pressed_keys[i] == target {
                return true;
            }
            i = i + 1;
        }
        false
    }

    /// Marks `code` as held; a key that is already held stays held once.
    pub fn set_pressed(&mut self, code: &str)
        ensures
            final(self).pressed() == old(self).pressed().insert(code@),
    {
        if !self.is_pressed(code) {
            self.pressed_keys.push(String::from_str(code));
        }
        assert(final(self).pressed() =~= old(self).pressed().insert(code@)) by {
            if old(self).pressed().contains(code@) {
                assert(final(self).pressed_keys@ == old(self).pressed_keys@);
            } else {
                let n = old(self).pressed_keys@.len() as int;
                assert(final(self).pressed_keys@[n]@ == code@);
                assert forall|k: Seq<char>| #[trigger]
                    old(self).pressed().contains(k) implies final(self).pressed().contains(k) by {
                    let i = choose|i: int|
                        0 <= i < old(self).pressed_keys@.len() && old(self).pressed_keys@[i]@
                            == k;
                    assert(final(self).pressed_keys@[i] == old(self).pressed_keys@[i]);
                }
            }
        }
    }

    /// Marks `code` as no longer held.
    pub fn set_released(&mut self, code: &str)
        ensures
            final(self).pressed() == old(self).pressed().remove(code@),
    {
        let target = String::from_str(code);
        let mut kept: Vec<String> = Vec::new();
        let mut i: usize = 0;
        while i < self.pressed_keys.len()
            invariant
                0 <= i <= self.pressed_keys@.len(),
                target@ == code@,
                forall|k: Seq<char>|
                    #[trigger] listed(kept@, kept@.len() as int, k) <==> (k != code@ && listed(
                        self.pressed_keys@,
                        i as int,
                        k,
                    )),
            decreases self.pressed_keys@.len() - i,
        {
            let ghost before = kept@;
            if !(self.pressed_keys[i] == target) {
                kept.push(self.pressed_keys[i].clone());
            }
            assert forall|k: Seq<char>|
                #[trigger] listed(kept@, kept@.len() as int, k) <==> (k != code@ && listed(
                    self.pressed_keys@,
                    i + 1,
                    k,
                )) by {
                if listed(self.pressed_keys@, i + 1, k) && k != code@ {
                    let j = choose|j: int| 0 <= j < i + 1 && self.pressed_keys@[j]@ == k;
                    if j < i {
                        assert(listed(self.pressed_keys@, i as int, k));
                        assert(listed(before, before.len() as int, k));
                        let m = choose|m: int| 0 <= m < before.len() && before[m]@ == k;
                        assert(kept@[m] == before[m]);
                    } else {
                        assert(kept@[before.len() as int]@ == k);
                    }
                }
                if listed(kept@, kept@.len() as int, k) {
                    let j = choose|j: int| 0 <= j < kept@.len() && kept@[j]@ == k;
                    if j < before.len() {
                        assert(before[j]@ == k);
                        assert(listed(before, before.len() as int, k));
                        let m = choose|m: int| 0 <= m < i && self.pressed_keys@[m]@ == k;
                        assert(listed(self.pressed_keys@, i + 1, k));
                    } else {
                        assert(listed(self.pressed_keys@, i + 1, k));
                    }
                }
            }
            i = i + 1;
        }
        self.pressed_keys = kept;
        assert forall|k: Seq<char>|
            final(self).pressed().contains(k) == old(self).pressed().remove(code@).contains(k) by {
            assert(final(self).pressed().contains(k) == listed(kept@, kept@.len() as int, k));
            assert(old(self).pressed().contains(k) == listed(
                old(self).pressed_keys@,
                old(self).pressed_keys@.len() as int,
                k,
            ));
        }
        assert(final(self).pressed() =~= old(self).pressed().remove(code@));
    }
}

/// Some key among the first `n` of `keys` reads `k`.
spec fn listed(keys: Seq<String>, n: int, k: Seq<char>) -> bool {
    exists|j: int| 0 <= j < n && keys[j]@ == k
}

/// Applies the queued key notifications, oldest first, to the held keys.
pub fn process_input(state: &mut KeyState, events: Vec<KeyPress>)
    ensures
        final(state).pressed() == after_keys(old(state).pressed(), events@),
{
    let ghost start = state.pressed();
    let mut i: usize = 0;
    while i < events.len()
        invariant
            0 <= i <= events@.len(),
            state.pressed() == after_keys(start, events@.subrange(0, i as int)),
        decreases events@.len() - i,
    {
        proof {
            assert(events@.subrange(0, i + 1).drop_last() =~= events@.subrange(0, i as int));
        }
        match &events[i] {
            KeyPress::KeyUp(code) => state.set_released(code.as_str()),
            KeyPress::KeyDown(code) => state.set_pressed(code.as_str()),
        }
        i = i + 1;
    }
    assert(events@.subrange(0, events@.len() as int) =~= events@);
}

/// Length of one simulation step, in the loop's time unit (a sixtieth of a
/// millisecond), so that a step lasts exactly 1/60 s.
pub const FRAME_SIZE: u64 = 1000;

/// The fixed-step clock of the game loop: when the last host callback came,
/// and how much of the time since has not yet been spent on steps.
pub struct GameLoop {
    last_frame: u64,
    accumulated_delta: u64,
}

impl GameLoop {
    pub closed spec fn last(&self) -> u64 {
        self.last_frame
    }

    pub closed spec fn backlog(&self) -> u64 {
        self.accumulated_delta
    }

    /// A clock started at `now`, with nothing owed.
    pub fn new(now: u64) -> (r: GameLoop)
        ensures
            r.last() == now,
            r.backlog() == 0,
    {
        GameLoop { last_frame: now, accumulated_delta: 0 }
    }

    pub fn last_frame(&self) -> (r: u64)
        ensures
            r == self.last(),
    {
        self.last_frame
    }

    pub fn accumulated_delta(&self) -> (r: u64)
        ensures
            r == self.backlog(),
    {
        self.accumulated_delta
    }

    /// Takes the time of a host callback and says how many fixed steps to run
    /// now: every whole `FRAME_SIZE` in the backlog plus the time elapsed is
    /// spent, the rest stays in the backlog.
    pub fn advance(&mut self, timestamp: u64) -> (steps: u64)
        requires
            old(self).last() <= timestamp,
            old(self).backlog() < FRAME_SIZE,
        ensures
            steps == (old(self).backlog() + (timestamp - old(self).last())) / (FRAME_SIZE as int),
            final(self).backlog() == (old(self).backlog() + (timestamp - old(self).last())) % (
            FRAME_SIZE as int),
            final(self).backlog() < FRAME_SIZE,
            final(self).last() == timestamp,
    {
        let delta = timestamp - self.last_frame;
        let whole = delta / FRAME_SIZE;
        let carried = self.accumulated_delta + delta % FRAME_SIZE;
        let steps = whole + carried / FRAME_SIZE;
        proof {
            let a = self.accumulated_delta as int;
            let d = delta as int;
            let f = FRAME_SIZE as int;
            lemma_fundamental_div_mod(d, f);
            lemma_fundamental_div_mod(carried as int, f);
            let q = d / f + (carried as int) / f;
            let r = (carried as int) % f;
            assert(a + d == q * f + r) by (nonlinear_arith)
                requires
                    d == f * (d / f) + d % f,
                    carried as int == a + d % f,
                    carried as int == f * ((carried as int) / f) + r,
                    q == d / f + (carried as int) / f,
            ;
            lemma_fundamental_div_mod_converse(a + d, f, q, r);
        }
        self.accumulated_delta = carried % FRAME_SIZE;
        self.last_frame = timestamp;
        steps
    }
}

/// How a load resolves after a run of delivery attempts: the first attempt
/// wins, and every later one changes nothing.
pub open spec fn resolution<T>(attempts: Seq<T>) -> Option<T>
    decreases attempts.len(),
{
    if attempts.len() == 0 {
        None
    } else {
        match resolution(attempts.drop_last()) {
            Some(first) => Some(first),
            None => Some(attempts.last()),
        }
    }
}

#[verifier::external_type_specification]
#[verifier::external_body]
#[verifier::reject_recursive_types(T)]
pub struct ExSender<T>(Sender<T>);

/// Relies on futures::channel::oneshot::Sender::send: the value goes to the
/// receiving half, or comes back unchanged in `Err` when that half is gone.
#[verifier::external_body]
fn send_once<T>(sender: Sender<T>, value: T) -> (r: Result<(), T>)
    ensures
        r matches Err(v) ==> v == value,
{
    sender.send(value)
}

/// The completion slot of an asset load. Two callbacks race to fill it; the
/// first takes the sender and delivers, any later one finds the slot empty.
#[verifier::reject_recursive_types(T)]
pub struct LoadSlot<T> {
    sender: Option<Sender<T>>,
    attempts: Ghost<Seq<T>>,
}

impl<T> LoadSlot<T> {
    /// The slot holds its sender exactly while nothing was delivered yet.
    pub closed spec fn wf(&self) -> bool {
        (self.sender is Some) == (self.attempts@.len() == 0)
    }

    /// Every delivery attempt made so far, in order.
    pub closed spec fn attempts(&self) -> Seq<T> {
        self.attempts@
    }

    /// What the load resolved to, if anything has been delivered.
    pub open spec fn resolved(&self) -> Option<T> {
        resolution(self.attempts())
    }

    pub fn new(sender: Sender<T>) -> (r: LoadSlot<T>)
        ensures
            r.wf(),
            r.attempts() == Seq::<T>::empty(),
    {
        LoadSlot { sender: Some(sender), attempts: Ghost(Seq::empty()) }
    }

    /// Delivers `value` if the slot has not resolved yet, and says whether it
    /// did; a later attempt is a no-op.
    pub fn deliver(&mut self, value: T) -> (sent: bool)
        requires
            old(self).wf(),
        ensures
            final(self).wf(),
            final(self).attempts() == old(self).attempts().push(value),
            sent == (old(self).resolved() is None),
    {
        proof {
            lemma_resolution_settles(old(self).attempts());
        }
        self.attempts = Ghost(self.attempts@.push(value));
        match self.sender.take() {
            Some(sender) => {
                let _ = send_once(sender, value);
                true
            },
            None => false,
        }
    }
}

/// A run of attempts resolves to nothing only when it is empty.
proof fn lemma_resolution_settles<T>(attempts: Seq<T>)
    ensures
        (resolution(attempts) is None) == (attempts.len() == 0),
    decreases attempts.len(),
{
    if attempts.len() > 0 {
        lemma_resolution_settles(attempts.drop_last());
    }
}

/// A load resolves exactly once, to the first value delivered: only an error
/// gives the error, only a success gives the success, and when both come the
/// earlier one stands while the later is ignored.
pub proof fn lemma_first_delivery_wins<T>(attempts: Seq<T>)
    ensures
        resolution(attempts) == (if attempts.len() == 0 {
            None
        } else {
            Some(attempts[0])
        }),
    decreases attempts.len(),
{
    if attempts.len() > 1 {
        lemma_first_delivery_wins(attempts.drop_last());
        assert(attempts.drop_last()[0] == attempts[0]);
    } else if attempts.len() == 1 {
        lemma_resolution_settles(attempts.drop_last());
    }
}

/// A key is held after a run of notifications exactly when the run holds a
/// key-down for it with no key-up for it afterwards, or it was held before and
/// the run holds no key-up for it.
pub proof fn lemma_held_iff_last_down(held: Set<Seq<char>>, events: Seq<KeyPress>, code: Seq<char>)
    ensures
        after_keys(held, events).contains(code) <==> ((exists|i: int|
            0 <= i < events.len() && #[trigger] is_down_of(events[i], code) && forall|j: int|
                i < j < events.len() ==> !#[trigger] is_up_of(events[j], code)) || (held.contains(
            code) && forall|j: int| 0 <= j < events.len() ==> !#[trigger] is_up_of(events[j], code))),
    decreases events.len(),
{
    if events.len() > 0 {
        let rest = events.drop_last();
        let n = events.len() - 1;
        lemma_held_iff_last_down(held, rest, code);
        assert forall|j: int| 0 <= j < rest.len() implies rest[j] == events[j] by {}
        if is_down_of(events[n], code) {
            assert(is_down_of(events[n], code) && forall|j: int|
                n < j < events.len() ==> !#[trigger] is_up_of(events[j], code));
        } else if is_up_of(events[n], code) {
        } else {
            if exists|i: int|
                0 <= i < rest.len() && #[trigger] is_down_of(rest[i], code) && forall|j: int|
                    i < j < rest.len() ==> !#[trigger] is_up_of(rest[j], code) {
                let i = choose|i: int|
                    0 <= i < rest.len() && #[trigger] is_down_of(rest[i], code) && forall|j: int|
                        i < j < rest.len() ==> !#[trigger] is_up_of(rest[j], code);
                assert(is_down_of(events[i], code));
            }
            if exists|i: int|
                0 <= i < events.len() && #[trigger] is_down_of(events[i], code) && forall|j: int|
                    i < j < events.len() ==> !#[trigger] is_up_of(events[j], code) {
                let i = choose|i: int|
                    0 <= i < events.len() && #[trigger] is_down_of(events[i], code) && forall|j: int|
                        i < j < events.len() ==> !#[trigger] is_up_of(events[j], code);
                assert(i < n);
                assert(is_down_of(rest[i], code));
            }
        }
    }
}

/// `event` is a key-down of `code`.
pub open spec fn is_down_of(event: KeyPress, code: Seq<char>) -> bool {
    event matches KeyPress::KeyDown(c) && c@ == code
}

/// `event` is a key-up of `code`.
pub open spec fn is_up_of(event: KeyPress, code: Seq<char>) -> bool {
    event matches KeyPress::KeyUp(c) && c@ == code
}

} // verus!
