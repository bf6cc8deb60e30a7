//! Choosing which sprite frame to draw from a body's motion.
use vstd::prelude::*;
use crate::physics_controller::PhysicsController;

verus! {

/// Largest frame number, sheet column count, or frame size.
pub const SHEET_LIMIT: i32 = 10_000;

/// A quantity of the body that a condition reads.
#[derive(Clone, Copy, Debug, PartialEq, Eq, Structural)]
pub enum Field {
    X,
    Y,
    Speed,
    FallSpeed,
}

/// How a condition compares the quantity with its value.
#[derive(Clone, Copy, Debug, PartialEq, Eq, Structural)]
pub enum Comparator {
    Greater,
    Less,
    AtMost,
    AtLeast,
    Equal,
    NotEqual,
}

/// What a condition asks of the body.
#[derive(Clone, Copy, Debug, PartialEq, Eq, Structural)]
pub enum Test {
    Always,
    Compare(Field, Comparator, i64),
}

/// The value of `field` for `body`.
pub open spec fn field_value(field: Field, body: PhysicsController) -> int {
    match field {
        Field::X => body.x as int,
        Field::Y => body.y as int,
        Field::Speed => body.speed as int,
        Field::FallSpeed => body.fall_speed as int,
    }
}

/// Whether `a` stands in relation `cmp` to `b`.
pub open spec fn compares(cmp: Comparator, a: int, b: int) -> bool {
    match cmp {
        Comparator::Greater => a > b,
        Comparator::Less => a < b,
        Comparator::AtMost => a <= b,
        Comparator::AtLeast => a >= b,
        Comparator::Equal => a == b,
        Comparator::NotEqual => a != b,
    }
}

/// Whether `test` holds of `body`.
pub open spec fn passes(test: Test, body: PhysicsController) -> bool {
    match test {
        Test::Always => true,
        Test::Compare(f, c, v) => compares(c, field_value(f, body), v as int),
    }
}

/// A test on the body, and the priority of the animation it enables.
#[derive(Clone, Copy, Debug, PartialEq, Eq, Structural)]
pub struct Condition {
    pub test: Test,
    pub priority: i32,
}

impl Condition {
    pub fn new(test: Test, priority: i32) -> (r: Condition)
        ensures
            r == (Condition { test, priority }),
    {
        Condition { test, priority }
    }

    pub fn priority(&self) -> (r: i32)
        ensures
            r == self.priority,
    {
        self.priority
    }

    /// Whether the test holds of `body`.
    pub fn is_met(&self, body: &PhysicsController) -> (r: bool)
        ensures
            r == passes(self.test, *body),
    {
        match self.test {
            Test::Always => true,
            Test::Compare(field, cmp, value) => {
                let a = match field {
                    Field::X => body.x(),
                    Field::Y => body.y(),
                    Field::Speed => body.speed(),
                    Field::FallSpeed => body.fall_speed(),
                };
                match cmp {
                    Comparator::Greater => a > value,
                    Comparator::Less => a < value,
                    Comparator::AtMost => a <= value,
                    Comparator::AtLeast => a >= value,
                    Comparator::Equal => a == value,
                    Comparator::NotEqual => a != value,
                }
            },
        }
    }
}

/// A looping sequence of frames, how many ticks each is held, and when it
/// may play.
pub struct Anim {
    pub frames: Vec<i32>,
    pub durations: Vec<i32>,
    pub condition: Condition,
}

/// The priority an animation competes with for `body`: its condition's
/// priority when the condition holds, -1 otherwise.
pub open spec fn priority_for(a: Anim, body: PhysicsController) -> int {
    if passes(a.condition.test, body) {
        a.condition.priority as int
    } else {
        -1
    }
}

impl Anim {
    /// Frames and durations pair up, and frames are sheet positions.
    pub open spec fn wf(&self) -> bool {
        &&& self.frames@.len() > 0
        &&& self.durations@.len() >= self.frames@.len()
        &&& forall|i: int| 0 <= i < self.frames@.len() ==> 0 <= #[trigger] self.frames@[i] <= SHEET_LIMIT
        &&& self.condition.priority >= 0
    }

    pub fn new(frames: Vec<i32>, durations: Vec<i32>, condition: Condition) -> (r: Anim)
        ensures
            r.frames == frames,
            r.durations == durations,
            r.condition == condition,
    {
        Anim { frames, durations, condition }
    }

    pub fn frames(&self) -> (r: &Vec<i32>)
        ensures
            r == &self.frames,
    {
        &self.frames
    }

    /// Its condition's priority when the condition holds for `body`, -1
    /// otherwise.
    pub fn current_priority(&self, body: &PhysicsController) -> (r: i32)
        ensures
            r == priority_for(*self, *body),
    {
        if self.condition.is_met(body) {
            return self.condition.priority();
        }
        -1
    }

    /// The position of the first occurrence of `frame_num`, if any.
    pub fn frame_index(&self, frame_num: i32) -> (r: Option<usize>)
        ensures
            match r {
                Some(i) => i < self.frames@.len() && self.frames@[i as int] == frame_num && forall|j: int|
                    0 <= j < i ==> self.frames@[j] != frame_num,
                None => !self.frames@.contains(frame_num),
            },
    {
        let n = self.frames.len();
        let mut i: usize = 0;
        while i < n
            invariant
                n == self.frames@.len(),
                0 <= i <= n,
                forall|j: int| 0 <= j < i ==> self.frames@[j] != frame_num,
            decreases n - i,
        {
            if self.frames[i] == frame_num {
                return Some(i);
            }
            i = i + 1;
        }
        None
    }

    /// How many ticks the first occurrence of `frame_num` is held.
    pub fn frame_duration(&self, frame_num: i32) -> (r: i32)
        requires
            self.wf(),
            self.frames@.contains(frame_num),
        ensures
            exists|i: int|
                0 <= i < self.frames@.len() && self.frames@[i] == frame_num && (forall|j: int|
                    0 <= j < i ==> self.frames@[j] != frame_num) && r == self.durations@[i],
    {
        match self.frame_index(frame_num) {
            Some(i) => self.durations[i],
            None => {
                proof {
                    assert(false);
                }
                0
            },
        }
    }
}

/// `k` is the first position of `v` in `s`.
pub open spec fn first_at(s: Seq<i32>, v: i32, k: int) -> bool {
    0 <= k < s.len() && s[k] == v && forall|j: int| 0 <= j < k ==> s[j] != v
}

/// Animation `i` leads for `body`: its condition holds, no animation
/// competes with a higher priority, and none before it with the same.
pub open spec fn leads(anims: Seq<Anim>, body: PhysicsController, i: int) -> bool {
    &&& 0 <= i < anims.len()
    &&& priority_for(anims[i], body) >= 0
    &&& forall|j: int| 0 <= j < anims.len() ==> priority_for(#[trigger] anims[j], body) <= priority_for(anims[i], body)
    &&& forall|j: int| 0 <= j < i ==> priority_for(#[trigger] anims[j], body) < priority_for(anims[i], body)
}

/// Frame and hold count after one tick of animation `a`, from frame `f`
/// held for `z` ticks: a frame of `a` is held for its duration and then
/// gives way to the next frame of the loop; any other frame gives way to
/// the first frame of `a` at once.
pub open spec fn frame_step(a: Anim, f: i32, z: i32) -> (i32, i32) {
    if a.frames@.contains(f) {
        let k = choose|k: int| first_at(a.frames@, f, k);
        if z < a.durations@[k] {
            (f, (z + 1) as i32)
        } else {
            (a.frames@[(k + 1) % (a.frames@.len() as int)], 0)
        }
    } else {
        (a.frames@[0], 0)
    }
}

/// Chooses the frame to draw from a sheet of animations.
pub struct AnimController {
    pub columns: i32,
    pub width: i32,
    pub height: i32,
    pub animations: Vec<Anim>,
    pub previous_frame: i32,
    pub frames_frozen: i32,
    pub should_animate: bool,
}

/// The sheet rectangle `(x, y, width, height)` of frame `f`, frames laid
/// out row by row, `columns` to a row.
pub open spec fn frame_rect(f: int, columns: int, width: int, height: int) -> (int, int, int, int) {
    ((f % columns) * width, (f / columns) * height, width, height)
}

impl AnimController {
    pub open spec fn wf(&self) -> bool {
        &&& 1 <= self.columns <= SHEET_LIMIT
        &&& 0 <= self.width <= SHEET_LIMIT
        &&& 0 <= self.height <= SHEET_LIMIT
        &&& 0 <= self.previous_frame <= SHEET_LIMIT
        &&& 0 <= self.frames_frozen
        &&& forall|i: int| 0 <= i < self.animations@.len() ==> (#[trigger] self.animations@[i]).wf()
    }

    pub fn new(columns: i32, width: i32, height: i32, animations: Vec<Anim>) -> (r: AnimController)
        ensures
            r.columns == columns && r.width == width && r.height == height,
            r.animations == animations,
            r.previous_frame == 0 && r.frames_frozen == 0 && r.should_animate,
    {
        AnimController {
            columns,
            width,
            height,
            animations,
            previous_frame: 0,
            frames_frozen: 0,
            should_animate: true,
        }
    }

    /// Stops the animation on its current frame.
    pub fn freeze(&mut self)
        ensures
            *final(self) == (AnimController { should_animate: false, ..*old(self) }),
    {
        self.should_animate = false;
    }

    pub fn unfreeze(&mut self)
        ensures
            *final(self) == (AnimController { should_animate: true, ..*old(self) }),
    {
        self.should_animate = true;
    }

    /// The index of the animation that leads for `body`, if any holds.
    pub fn leader(&self, body: &PhysicsController) -> (r: Option<usize>)
        ensures
            match r {
                Some(i) => leads(self.animations@, *body, i as int),
                None => forall|j: int|
                    0 <= j < self.animations@.len() ==> priority_for(#[trigger] self.animations@[j], *body) < 0,
            },
    {
        let n = self.animations.len();
        let mut best: Option<usize> = None;
        let mut best_p: i32 = -1;
        let mut i: usize = 0;
        while i < n
            invariant
                n == self.animations@.len(),
                0 <= i <= n,
                match best {
                    Some(b) => {
                        &&& b < i
                        &&& best_p == priority_for(self.animations@[b as int], *body)
                        &&& best_p >= 0
                        &&& forall|j: int| 0 <= j < i ==> priority_for(#[trigger] self.animations@[j], *body) <= best_p
                        &&& forall|j: int| 0 <= j < b ==> priority_for(#[trigger] self.animations@[j], *body) < best_p
                    },
                    None => forall|j: int| 0 <= j < i ==> priority_for(#[trigger] self.animations@[j], *body) < 0,
                },
            decreases n - i,
        {
            let p = self.animations[i].current_priority(body);
            if p >= 0 && (best.is_none() || p > best_p) {
                best = Some(i);
                best_p = p;
            }
            i = i + 1;
        }
        best
    }

    /// Advances the animation for `body` by one tick and gives the sheet
    /// rectangle of the frame to draw: the leading animation's frame per
    /// `frame_step`. A frozen controller, or one whose animations all fail
    /// their conditions, keeps its frame.
    pub fn next_anim(&mut self, body: &PhysicsController) -> (r: (i32, i32, i32, i32))
        requires
            old(self).wf(),
        ensures
            final(self).wf(),
            ({
                let o = *old(self);
                let lead = choose|i: int| leads(o.animations@, *body, i);
                if o.should_animate && exists|i: int| leads(o.animations@, *body, i) {
                    let (f, z) = frame_step(o.animations@[lead], o.previous_frame, o.frames_frozen);
                    *final(self) == (AnimController { previous_frame: f, frames_frozen: z, ..o })
                } else {
                    *final(self) == o
                }
            }),
            (r.0 as int, r.1 as int, r.2 as int, r.3 as int) == frame_rect(
                final(self).previous_frame as int,
                old(self).columns as int,
                old(self).width as int,
                old(self).height as int,
            ),
    {
        if self.should_animate {
            match self.leader(body) {
                Some(i) => {
                    proof {
                        let lead = choose|l: int| leads(self.animations@, *body, l);
                        lemma_leader_unique(self.animations@, *body, i as int, lead);
                    }
                    let a = &self.animations[i];
                    let f = self.previous_frame;
                    match a.frame_index(f) {
                        Some(k) => {
                            proof {
                                let kk = choose|kk: int| first_at(a.frames@, f, kk);
                                assert(first_at(a.frames@, f, k as int));
                                lemma_first_at_unique(a.frames@, f, k as int, kk);
                            }
                            if self.frames_frozen < a.durations[k] {
                                self.frames_frozen = self.frames_frozen + 1;
                            } else {
                                let len = a.frames.len();
                                assert(k < len);
                                let next = (k + 1) % len;
                                self.previous_frame = a.frames[next];
                                self.frames_frozen = 0;
                            }
                        },
                        None => {
                            self.previous_frame = a.frames[0];
                            self.frames_frozen = 0;
                        },
                    }
                },
                None => {},
            }
        }
        let f = self.previous_frame;
        proof {
            assert(0 <= (f % self.columns) * self.width <= SHEET_LIMIT * SHEET_LIMIT) by (nonlinear_arith)
                requires
                    0 <= f <= SHEET_LIMIT,
                    1 <= self.columns <= SHEET_LIMIT,
                    0 <= self.width <= SHEET_LIMIT,
            ;
            assert(0 <= (f / self.columns) * self.height <= SHEET_LIMIT * SHEET_LIMIT) by (nonlinear_arith)
                requires
                    0 <= f <= SHEET_LIMIT,
                    1 <= self.columns <= SHEET_LIMIT,
                    0 <= self.height <= SHEET_LIMIT,
            ;
        }
        ((f % self.columns) * self.width, (f / self.columns) * self.height, self.width, self.height)
    }
}

proof fn lemma_leader_unique(anims: Seq<Anim>, body: PhysicsController, i: int, j: int)
    requires
        leads(anims, body, i),
        leads(anims, body, j),
    ensures
        i == j,
{
    if i < j {
        assert(priority_for(anims[i], body) < priority_for(anims[j], body));
    } else if j < i {
        assert(priority_for(anims[j], body) < priority_for(anims[i], body));
    }
}

proof fn lemma_first_at_unique(s: Seq<i32>, v: i32, i: int, j: int)
    requires
        first_at(s, v, i),
        first_at(s, v, j),
    ensures
        i == j,
{
}

} // verus!
