//! A time-driven list of transformations, with chaining into the next animation.
use vstd::prelude::*;
use crate::linalg::{Matrix, ONE};
use crate::transform::{apply, compose_spec, Rotate, Transformation, Translate};
use crate::util::{Duration, FRAMES_PER_SECOND};

verus! {

#[verifier::external_type_specification]
#[verifier::external_body]
#[verifier::reject_recursive_types(T)]
pub struct ExHeaplessVec<T, const N: usize>(heapless::Vec<T, N>);

/// What a bounded list of transformations holds, in order.
pub uninterp spec fn op_list(v: heapless::Vec<Transformation, 4>) -> Seq<Transformation>;

/// Relies on heapless::Vec::from_slice: it fails exactly when the slice is
/// longer than the capacity, and otherwise holds copies of its items in order.
#[verifier::external_body]
fn ops_from_slice(ops: &[Transformation]) -> (r: Result<heapless::Vec<Transformation, 4>, ()>)
    ensures
        r is Ok <==> ops@.len() <= 4,
        r is Ok ==> op_list(r->Ok_0) == ops@,
{
    heapless::Vec::from_slice(ops)
}

/// Relies on heapless::Vec::as_slice: the slice shows the items in order.
#[verifier::external_body]
fn ops_as_slice(v: &heapless::Vec<Transformation, 4>) -> (r: &[Transformation])
    ensures
        r@ == op_list(*v),
{
    v.as_slice()
}

/// The most transformations one animation holds.
pub const MAX_TRANSFORMATIONS: usize = 4;

/// The named animations that one may chain into.
#[derive(Clone, Copy, Debug, PartialEq, Eq, Structural)]
pub enum NextAnimation {
    Idle1,
    Idle2,
    Idle3,
    Idle4,
}

/// A one-second idle sway, `ONE`-scaled degrees and pixels.
pub open spec fn idle_ops(k: NextAnimation) -> Seq<Transformation> {
    match k {
        NextAnimation::Idle1 => seq![
            Transformation::Rotate(Rotate { start_angle: (5 * ONE) as i64, end_angle: 0 }),
            Transformation::Translate(Translate { start: [(-ONE) as i64, ONE], end: [ONE, ONE] }),
        ],
        NextAnimation::Idle2 => seq![
            Transformation::Rotate(Rotate { start_angle: 0, end_angle: (-5 * ONE) as i64 }),
            Transformation::Translate(Translate { start: [ONE, ONE], end: [ONE, (-ONE) as i64] }),
        ],
        NextAnimation::Idle3 => seq![
            Transformation::Rotate(Rotate { start_angle: (-5 * ONE) as i64, end_angle: 0 }),
            Transformation::Translate(Translate { start: [ONE, (-ONE) as i64], end: [(-ONE) as i64, (-ONE) as i64] }),
        ],
        NextAnimation::Idle4 => seq![
            Transformation::Rotate(Rotate { start_angle: 0, end_angle: (5 * ONE) as i64 }),
            Transformation::Translate(Translate { start: [(-ONE) as i64, (-ONE) as i64], end: [(-ONE) as i64, ONE] }),
        ],
    }
}

/// The idle that follows: one, two, three, four, and back to one.
pub open spec fn idle_successor(k: NextAnimation) -> NextAnimation {
    match k {
        NextAnimation::Idle1 => NextAnimation::Idle2,
        NextAnimation::Idle2 => NextAnimation::Idle3,
        NextAnimation::Idle3 => NextAnimation::Idle4,
        NextAnimation::Idle4 => NextAnimation::Idle1,
    }
}

/// Frames in one idle sway: one second.
pub const IDLE_FRAMES: u32 = FRAMES_PER_SECOND;

/// A list of transformations run over `duration` frames from frame `start`.
#[derive(Debug)]
pub struct AnimationState {
    pub transformation: heapless::Vec<Transformation, 4>,
    pub start: u32,
    pub duration: Duration,
    pub next: Option<NextAnimation>,
}

impl AnimationState {
    pub open spec fn ops(&self) -> Seq<Transformation> {
        op_list(self.transformation)
    }

    /// `clamp((now - start) / duration, 0, 1)` in fixed point; a zero duration
    /// snaps to the end at once.
    pub open spec fn progress_spec(&self, now: u32) -> int {
        let elapsed: int = if now >= self.start { now - self.start } else { 0 };
        let d = self.duration.0 as int;
        if d == 0 {
            ONE as int
        } else if elapsed >= d {
            ONE as int
        } else {
            elapsed * ONE / d
        }
    }

    pub open spec fn finished_spec(&self, now: u32) -> bool {
        now as int >= self.start as int + self.duration.0 as int
    }

    /// Whether `self` is what the named animation `k` builds at frame `now`.
    pub open spec fn is_fresh(&self, k: NextAnimation, now: u32) -> bool {
        &&& self.ops() == idle_ops(k)
        &&& self.start == now
        &&& self.duration.0 == IDLE_FRAMES
        &&& self.next == Some(idle_successor(k))
    }

    /// Builds an animation starting at frame `now`; `None` when more than
    /// four transformations are given.
    pub fn new(transformation: &[Transformation], duration: Duration, next: Option<NextAnimation>, now: u32) -> (r: Option<AnimationState>)
        ensures
            r is Some <==> transformation@.len() <= MAX_TRANSFORMATIONS,
            r is Some ==> ({
                let a = r->Some_0;
                &&& a.ops() == transformation@
                &&& a.start == now
                &&& a.duration == duration
                &&& a.next == next
            }),
    {
        match ops_from_slice(transformation) {
            Ok(v) => Some(AnimationState { transformation: v, start: now, duration, next }),
            Err(_) => None,
        }
    }

    /// Progress at frame `now`, in `[0, ONE]`.
    pub fn progress(&self, now: u32) -> (r: i64)
        ensures
            r == self.progress_spec(now),
            0 <= r <= ONE,
    {
        let elapsed: u64 = if now >= self.start { (now - self.start) as u64 } else { 0 };
        let d = self.duration.0 as u64;
        if d == 0 || elapsed >= d {
            ONE
        } else {
            proof {
                assert(elapsed * ONE < d * ONE) by (nonlinear_arith)
                    requires elapsed < d;
                vstd::arithmetic::div_mod::lemma_div_is_ordered(elapsed * ONE, d * ONE, d as int);
                vstd::arithmetic::div_mod::lemma_div_by_multiple(ONE as int, d as int);
                assert(elapsed * ONE <= 0xffff_ffff * 65536) by (nonlinear_arith)
                    requires elapsed < 0x1_0000_0000;
            }
            ((elapsed * (ONE as u64)) / d) as i64
        }
    }

    /// The composed matrix at frame `now`: every transformation at the
    /// animation's progress, in list order. Past the end it stays at progress 1.
    pub fn update(&self, now: u32) -> (r: Option<Matrix>)
        ensures
            r == compose_spec(self.ops(), self.progress_spec(now)),
    {
        let t = self.progress(now);
        apply(ops_as_slice(&self.transformation), t)
    }

    pub fn finished(&self, now: u32) -> (r: bool)
        ensures
            r == self.finished_spec(now),
    {
        now as u64 >= self.start as u64 + self.duration.0 as u64
    }

    /// A fresh animation from the chained constructor, starting at `now`.
    pub fn get_next(&self, now: u32) -> (r: Option<AnimationState>)
        ensures
            r is Some <==> self.next is Some,
            r is Some ==> r->Some_0.is_fresh(self.next->Some_0, now),
    {
        match self.next {
            Some(k) => Some(k.build(now)),
            None => None,
        }
    }
}

impl NextAnimation {
    /// The named animation, starting at frame `now`.
    pub fn build(self, now: u32) -> (r: AnimationState)
        ensures
            r.is_fresh(self, now),
    {
        match self {
            NextAnimation::Idle1 => idle1(now),
            NextAnimation::Idle2 => idle2(now),
            NextAnimation::Idle3 => idle3(now),
            NextAnimation::Idle4 => idle4(now),
        }
    }
}

fn idle_from(ops: &[Transformation], k: NextAnimation, now: u32) -> (r: AnimationState)
    requires
        ops@ == idle_ops(k),
    ensures
        r.is_fresh(k, now),
{
    let next = match k {
        NextAnimation::Idle1 => NextAnimation::Idle2,
        NextAnimation::Idle2 => NextAnimation::Idle3,
        NextAnimation::Idle3 => NextAnimation::Idle4,
        NextAnimation::Idle4 => NextAnimation::Idle1,
    };
    match AnimationState::new(ops, Duration::from_frames(IDLE_FRAMES), Some(next), now) {
        Some(a) => a,
        None => {
            proof {
                assert(ops@.len() == 2);
            }
            vstd::pervasive::unreached()
        },
    }
}

pub fn idle1(now: u32) -> (r: AnimationState)
    ensures
        r.is_fresh(NextAnimation::Idle1, now),
{
    let ops = [
        Transformation::Rotate(Rotate::new(5 * ONE, 0)),
        Transformation::Translate(Translate::new([-ONE, ONE], [ONE, ONE])),
    ];
    proof {
        assert(ops@ =~= idle_ops(NextAnimation::Idle1));
    }
    idle_from(&ops, NextAnimation::Idle1, now)
}

pub fn idle2(now: u32) -> (r: AnimationState)
    ensures
        r.is_fresh(NextAnimation::Idle2, now),
{
    let ops = [
        Transformation::Rotate(Rotate::new(0, -5 * ONE)),
        Transformation::Translate(Translate::new([ONE, ONE], [ONE, -ONE])),
    ];
    proof {
        assert(ops@ =~= idle_ops(NextAnimation::Idle2));
    }
    idle_from(&ops, NextAnimation::Idle2, now)
}

pub fn idle3(now: u32) -> (r: AnimationState)
    ensures
        r.is_fresh(NextAnimation::Idle3, now),
{
    let ops = [
        Transformation::Rotate(Rotate::new(-5 * ONE, 0)),
        Transformation::Translate(Translate::new([ONE, -ONE], [-ONE, -ONE])),
    ];
    proof {
        assert(ops@ =~= idle_ops(NextAnimation::Idle3));
    }
    idle_from(&ops, NextAnimation::Idle3, now)
}

pub fn idle4(now: u32) -> (r: AnimationState)
    ensures
        r.is_fresh(NextAnimation::Idle4, now),
{
    let ops = [
        Transformation::Rotate(Rotate::new(0, 5 * ONE)),
        Transformation::Translate(Translate::new([-ONE, -ONE], [-ONE, ONE])),
    ];
    proof {
        assert(ops@ =~= idle_ops(NextAnimation::Idle4));
    }
    idle_from(&ops, NextAnimation::Idle4, now)
}

/// The idle chosen by a drawn number: its value modulo four picks one of the four.
pub fn idle_for(n: u32) -> (r: NextAnimation)
    ensures
        n % 4 == 0 ==> r == NextAnimation::Idle1,
        n % 4 == 1 ==> r == NextAnimation::Idle2,
        n % 4 == 2 ==> r == NextAnimation::Idle3,
        n % 4 == 3 ==> r == NextAnimation::Idle4,
{
    let m = n % 4;
    if m == 0 {
        NextAnimation::Idle1
    } else if m == 1 {
        NextAnimation::Idle2
    } else if m == 2 {
        NextAnimation::Idle3
    } else {
        NextAnimation::Idle4
    }
}

/// At frame `start + k` an animation is at progress `min(k, duration) / duration`:
/// its matrix is the fold of every transformation at that fraction.
pub proof fn lemma_update_at_frame(a: AnimationState, k: u32)
    requires
        a.start as int + k as int <= u32::MAX,
        a.duration.0 > 0,
    ensures
        a.progress_spec((a.start + k) as u32) == (if k >= a.duration.0 { ONE as int } else { k * ONE / a.duration.0 as int }),
        k <= a.duration.0 ==> a.progress_spec((a.start + k) as u32) == k * ONE / a.duration.0 as int,
        compose_spec(a.ops(), a.progress_spec((a.start + k) as u32)) == compose_spec(
            a.ops(),
            if k >= a.duration.0 { ONE as int } else { k * ONE / a.duration.0 as int },
        ),
{
    if k == a.duration.0 {
        vstd::arithmetic::div_mod::lemma_div_by_multiple(ONE as int, a.duration.0 as int);
        assert(k * ONE == ONE * a.duration.0) by (nonlinear_arith)
            requires k == a.duration.0;
    }
}

/// Whenever two animations are built from the same chained constructor at the
/// same frame, each starts its own window there: progress 0, not yet finished,
/// and the two agree on every frame.
pub proof fn lemma_chained_fresh(a: AnimationState, b: AnimationState, k: NextAnimation, now: u32, later: u32)
    requires
        a.is_fresh(k, now),
        b.is_fresh(k, now),
    ensures
        a.progress_spec(now) == 0,
        b.progress_spec(now) == 0,
        !a.finished_spec(now),
        !b.finished_spec(now),
        compose_spec(a.ops(), a.progress_spec(later)) == compose_spec(b.ops(), b.progress_spec(later)),
        a.finished_spec(later) == b.finished_spec(later),
{
}

} // verus!
