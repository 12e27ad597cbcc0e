//! Many independent animations, each driving a target through a narrow
//! capability, kept in a bounded collection and dropped once complete.
use vstd::prelude::*;
use crate::linalg::ONE;
use crate::transform::{lerp, lerp_spec};

verus! {

/// What an animator changes.
#[derive(Clone, Copy, Debug, PartialEq, Eq, Structural)]
pub enum Transformation {
    /// A rotation from `start` to `end`, in fixed-point degrees.
    Rotation { start: i64, end: i64 },
}

/// A target that can take a rotation, in fixed-point degrees.
pub trait Animate {
    /// The rotation the target holds.
    spec fn rotation(&self) -> int;

    /// Sets the target's rotation.
    fn set_rotation(&mut self, rotation: i64)
        ensures
            final(self).rotation() == rotation as int;
}

/// A bare rotation, in fixed-point degrees, for an animator to drive.
#[derive(Clone, Copy, Debug, PartialEq, Eq, Structural)]
pub struct Spin {
    pub rotation: i64,
}

impl Animate for Spin {
    open spec fn rotation(&self) -> int {
        self.rotation as int
    }

    fn set_rotation(&mut self, rotation: i64) {
        self.rotation = rotation;
    }
}

/// One animation counted in elapsed frames.
#[derive(Clone, Copy, Debug, PartialEq, Eq, Structural)]
pub struct Animator {
    pub transformation: Transformation,
    pub duration: u32,
    pub elapsed: u32,
    pub is_complete: bool,
}

/// `min(elapsed / duration, 1)` in fixed point; a zero duration is at its end.
pub open spec fn animator_progress(elapsed: u32, duration: u32) -> int {
    if duration == 0 || elapsed >= duration {
        ONE as int
    } else {
        elapsed * ONE / duration as int
    }
}

/// The animator after advancing by `dt` frames; a complete one stays as it is.
pub open spec fn advanced(a: Animator, dt: u32) -> Animator {
    if a.is_complete {
        a
    } else {
        let e = if a.elapsed as int + dt as int > u32::MAX { u32::MAX } else { (a.elapsed + dt) as u32 };
        Animator { elapsed: e, is_complete: e >= a.duration, ..a }
    }
}

impl Animator {
    pub fn new(transformation: Transformation, duration: u32) -> (r: Animator)
        ensures
            r == (Animator { transformation, duration, elapsed: 0, is_complete: false }),
    {
        Animator { transformation, duration, elapsed: 0, is_complete: false }
    }

    /// The rotation the animator sets at its current progress.
    pub open spec fn rotation_spec(&self) -> int {
        match self.transformation {
            Transformation::Rotation { start, end } => lerp_spec(start as int, end as int, animator_progress(self.elapsed, self.duration)),
        }
    }

    /// Advances by `delta_time` frames (the count saturates at `u32::MAX`),
    /// sets the target's rotation for the new progress, and completes once the
    /// duration has elapsed. A complete animator does nothing.
    pub fn update<T: Animate>(&mut self, target: &mut T, delta_time: u32)
        ensures
            *final(self) == advanced(*old(self), delta_time),
            old(self).is_complete ==> *final(target) == *old(target),
            !old(self).is_complete ==> final(target).rotation() == final(self).rotation_spec(),
    {
        if self.is_complete {
            return;
        }
        self.elapsed = if self.elapsed > u32::MAX - delta_time { u32::MAX } else { self.elapsed + delta_time };
        let t = self.progress();
        match self.transformation {
            Transformation::Rotation { start, end } => {
                target.set_rotation(lerp(start, end, t));
            },
        }
        if self.elapsed >= self.duration {
            self.is_complete = true;
        }
    }

    /// The progress in `[0, ONE]`.
    pub fn progress(&self) -> (r: i64)
        ensures
            r == animator_progress(self.elapsed, self.duration),
            0 <= r <= ONE,
    {
        if self.duration == 0 || self.elapsed >= self.duration {
            ONE
        } else {
            let e = self.elapsed as u64;
            let d = self.duration as u64;
            proof {
                assert(e * ONE < d * ONE) by (nonlinear_arith)
                    requires e < d;
                vstd::arithmetic::div_mod::lemma_div_is_ordered(e * ONE, d * ONE, d as int);
                vstd::arithmetic::div_mod::lemma_div_by_multiple(ONE as int, d as int);
                assert(e * ONE <= 0xffff_ffff * 65536) by (nonlinear_arith)
                    requires e < 0x1_0000_0000;
            }
            ((e * (ONE as u64)) / d) as i64
        }
    }

    pub fn is_complete(&self) -> (r: bool)
        ensures
            r == self.is_complete,
    {
        self.is_complete
    }
}

/// What a bounded collection of animators holds.
pub uninterp spec fn animator_list(v: heapless::Vec<Animator, 8>) -> Seq<Animator>;

/// Relies on heapless::Vec::new: an empty collection.
#[verifier::external_body]
fn animators_new() -> (r: heapless::Vec<Animator, 8>)
    ensures
        animator_list(r) == Seq::<Animator>::empty(),
{
    heapless::Vec::new()
}

/// Relies on heapless::Vec's dereference to a slice, whose `len` counts the animators.
#[verifier::external_body]
fn animators_len(v: &heapless::Vec<Animator, 8>) -> (r: usize)
    ensures
        r == animator_list(*v).len(),
{
    v.len()
}

/// Relies on heapless::Vec::push: appends while below the capacity of 8,
/// otherwise hands the animator back and leaves the collection as it was.
#[verifier::external_body]
fn animators_push(v: &mut heapless::Vec<Animator, 8>, a: Animator) -> (r: Result<(), Animator>)
    ensures
        r is Ok <==> animator_list(*old(v)).len() < 8,
        r is Ok ==> animator_list(*final(v)) == animator_list(*old(v)).push(a),
        r is Err ==> r->Err_0 == a && animator_list(*final(v)) == animator_list(*old(v)),
{
    v.push(a)
}

/// Relies on mutable slice indexing through heapless::Vec's dereference.
#[verifier::external_body]
fn animator_at_mut(v: &mut heapless::Vec<Animator, 8>, i: usize) -> (r: &mut Animator)
    requires
        i < animator_list(*old(v)).len(),
    ensures
        *r == animator_list(*old(v))[i as int],
        animator_list(*final(v)) == animator_list(*old(v)).update(i as int, *final(r)),
{
    &mut v[i]
}

/// Relies on heapless::Vec::swap_remove: the animator at `i` leaves and the
/// last one takes its place.
#[verifier::external_body]
fn animators_swap_remove(v: &mut heapless::Vec<Animator, 8>, i: usize) -> (r: Animator)
    requires
        i < animator_list(*old(v)).len(),
    ensures
        r == animator_list(*old(v))[i as int],
        animator_list(*final(v)) == animator_list(*old(v)).update(i as int, animator_list(*old(v)).last()).drop_last(),
{
    v.swap_remove(i)
}

/// The animators that are still running after each is advanced by `dt`.
pub open spec fn still_running(s: Seq<Animator>, dt: u32) -> Seq<Animator>
    decreases s.len(),
{
    if s.len() == 0 {
        s
    } else {
        let a = advanced(s[0], dt);
        if a.is_complete {
            still_running(s.drop_first(), dt)
        } else {
            seq![a] + still_running(s.drop_first(), dt)
        }
    }
}

proof fn lemma_still_running_add(a: Seq<Animator>, b: Seq<Animator>, dt: u32)
    ensures
        still_running(a + b, dt) == still_running(a, dt) + still_running(b, dt),
    decreases a.len(),
{
    if a.len() == 0 {
        assert(a + b =~= b);
        assert(still_running(a, dt) + still_running(b, dt) =~= still_running(b, dt));
    } else {
        assert((a + b).drop_first() =~= a.drop_first() + b);
        lemma_still_running_add(a.drop_first(), b, dt);
        assert((seq![advanced(a[0], dt)] + still_running(a.drop_first(), dt)) + still_running(b, dt)
            =~= seq![advanced(a[0], dt)] + (still_running(a.drop_first(), dt) + still_running(b, dt)));
    }
}

/// A bounded set of independent animations.
pub struct AnimationManager {
    pub animators: heapless::Vec<Animator, 8>,
}

/// The most animations a manager runs at once.
pub const MAX_ANIMATIONS: usize = 8;

impl AnimationManager {
    pub open spec fn view(&self) -> Seq<Animator> {
        animator_list(self.animators)
    }

    pub fn new() -> (r: AnimationManager)
        ensures
            r.view() == Seq::<Animator>::empty(),
    {
        AnimationManager { animators: animators_new() }
    }

    /// Adds an animation; when eight are running it is handed back instead.
    pub fn add(&mut self, animator: Animator) -> (r: Result<(), Animator>)
        ensures
            r is Ok <==> old(self).view().len() < MAX_ANIMATIONS,
            r is Ok ==> final(self).view() == old(self).view().push(animator),
            r is Err ==> r->Err_0 == animator && final(self).view() == old(self).view(),
    {
        animators_push(&mut self.animators, animator)
    }

    /// Advances every animation by `delta_time` frames against `target`, then
    /// drops those that completed; the order of the rest is not kept.
    pub fn update<T: Animate>(&mut self, target: &mut T, delta_time: u32)
        ensures
            final(self).view().to_multiset() == still_running(old(self).view(), delta_time).to_multiset(),
            forall|k: int| 0 <= k < final(self).view().len() ==> !(#[trigger] final(self).view()[k]).is_complete,
            (forall|a: Animator| #[trigger] old(self).view().contains(a) ==> a.is_complete) ==> *final(target) == *old(target),
            *final(target) == *old(target) || exists|a: Animator| #[trigger] old(self).view().contains(a) && !a.is_complete
                && final(target).rotation() == advanced(a, delta_time).rotation_spec(),
    {
        let ghost s0 = self.view();
        proof {
            let e = Seq::<Animator>::empty();
            assert(s0.subrange(0, 0) =~= e);
            assert(s0.subrange(0, s0.len() as int) =~= s0);
            vstd::seq_lib::lemma_multiset_commutative(e, still_running(s0, delta_time));
            assert(e + still_running(s0, delta_time) =~= still_running(s0, delta_time));
        }
        let mut i: usize = 0;
        while i < animators_len(&self.animators)
            invariant
                i <= self.view().len(),
                forall|k: int| 0 <= k < i ==> !(#[trigger] self.view()[k]).is_complete,
                self.view().subrange(0, i as int).to_multiset().add(
                    still_running(self.view().subrange(i as int, self.view().len() as int), delta_time).to_multiset(),
                ) == still_running(s0, delta_time).to_multiset(),
                s0 == old(self).view(),
                forall|k: int| i <= k < self.view().len() ==> s0.contains(#[trigger] self.view()[k]),
                (forall|a: Animator| #[trigger] s0.contains(a) ==> a.is_complete) ==> *target == *old(target),
                *target == *old(target) || exists|a: Animator| #[trigger] s0.contains(a) && !a.is_complete
                    && target.rotation() == advanced(a, delta_time).rotation_spec(),
            decreases self.view().len() - i,
        {
            let ghost cur = self.view();
            let ghost n = cur.len();
            let ghost p = cur.subrange(0, i as int);
            let ghost x = cur[i as int];
            let ghost m = cur.subrange(i + 1, n as int);
            let ghost adv = advanced(x, delta_time);
            assert(s0.contains(x));
            let a = animator_at_mut(&mut self.animators, i);
            a.update(target, delta_time);
            let done = a.is_complete();
            proof {
                reveal_with_fuel(still_running, 2);
                assert(cur.subrange(i as int, n as int) =~= seq![x] + m);
                lemma_still_running_add(seq![x], m, delta_time);
                assert(seq![x].drop_first() =~= Seq::<Animator>::empty());
                vstd::seq_lib::lemma_multiset_commutative(still_running(seq![x], delta_time), still_running(m, delta_time));
                // p.ms + (sr([x]).ms + sr(m).ms) == total
            }
            if done {
                let _ = animators_swap_remove(&mut self.animators, i);
                proof {
                    let v = self.view();
                    reveal_with_fuel(still_running, 2);
                    assert(still_running(seq![x], delta_time) =~= Seq::<Animator>::empty());
                    assert(still_running(cur.subrange(i as int, n as int), delta_time) =~= still_running(m, delta_time));
                    assert(v.subrange(0, i as int) =~= p);
                    let u2 = v.subrange(i as int, v.len() as int);
                    if i + 1 < n {
                        let mid = cur.subrange(i + 1, n - 1);
                        let l = seq![cur.last()];
                        assert(u2 =~= l + mid);
                        assert(m =~= mid + l);
                        lemma_still_running_add(l, mid, delta_time);
                        lemma_still_running_add(mid, l, delta_time);
                        vstd::seq_lib::lemma_multiset_commutative(still_running(l, delta_time), still_running(mid, delta_time));
                        vstd::seq_lib::lemma_multiset_commutative(still_running(mid, delta_time), still_running(l, delta_time));
                        assert(still_running(u2, delta_time).to_multiset() =~= still_running(m, delta_time).to_multiset());
                    } else {
                        assert(u2 =~= Seq::<Animator>::empty());
                        assert(m =~= Seq::<Animator>::empty());
                    }
                }
            } else {
                proof {
                    let v = self.view();
                    reveal_with_fuel(still_running, 2);
                    assert(still_running(seq![x], delta_time) =~= seq![adv]);
                    assert(v.subrange(0, i + 1) =~= p + seq![adv]);
                    assert(v.subrange(i + 1, v.len() as int) =~= m);
                    vstd::seq_lib::lemma_multiset_commutative(p, seq![adv]);
                    let pm = p.to_multiset();
                    let am = seq![adv].to_multiset();
                    let mm = still_running(m, delta_time).to_multiset();
                    assert(pm.add(am).add(mm) =~= pm.add(am.add(mm)));
                    assert(v[i as int] == adv);
                }
                i = i + 1;
            }
        }
        proof {
            let v = self.view();
            assert(v.subrange(0, i as int) =~= v);
            assert(v.subrange(i as int, v.len() as int) =~= Seq::<Animator>::empty());
            let e = Seq::<Animator>::empty();
            vstd::seq_lib::lemma_multiset_commutative(v, e);
            assert(v + e =~= v);
        }
    }
}

} // verus!
