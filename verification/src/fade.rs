//! Animated brightness transitions: the brightness at each step of a fade.

use vstd::prelude::*;
use crate::monitor::MonitorId;

verus! {

/// `a / b` rounded toward zero, as integer division does in Rust.
pub open spec fn div_toward_zero(a: int, b: int) -> int {
    if a >= 0 { a / b } else { -((-a) / b) }
}

/// Whether the fade arithmetic, done in 16-bit signed integers, cannot
/// overflow: `(to - from) * i` fits for every intermediate step `i`.
pub open spec fn fade_fits(from: u8, to: u8, steps: u8) -> bool {
    steps == 0 || from == to || (-32768 <= (to - from) * (steps - 1) && (to - from) * (steps - 1) <= 32767)
}

/// The brightness at step `i` (1 to `steps`) of a fade from `from` to `to`:
/// `to` at the last step, else `from + (to - from) * i / steps` within 0 and 100.
pub open spec fn fade_target(from: u8, to: u8, steps: u8, i: int) -> u8 {
    if i == steps {
        to
    } else {
        let v = from + div_toward_zero((to - from) * i, steps as int);
        if v < 0 { 0 } else if v > 100 { 100 } else { v as u8 }
    }
}

/// Tells whether the fade arithmetic cannot overflow ([`fade_fits`]).
pub fn fade_arithmetic_fits(from: u8, to: u8, steps: u8) -> (b: bool)
    ensures
        b == fade_fits(from, to, steps),
{
    if steps == 0 || from == to {
        return true;
    }
    let d: i64 = to as i64 - from as i64;
    let n: i64 = steps as i64 - 1;
    assert(-255 * 255 <= d * n <= 255 * 255) by (nonlinear_arith)
        requires -255 <= d <= 255, 0 <= n <= 254;
    let p: i64 = d * n;
    -32768 <= p && p <= 32767
}

/// A fade: how long each step lasts and the brightness set at each step.
#[derive(Debug)]
pub struct FadePlan {
    pub step_duration_ms: u64,
    pub targets: Vec<u8>,
}

/// The steps of a fade from `from` to `to` over `duration_ms` in `steps`
/// steps. There are none when `steps` is 0 or `from` equals `to`; otherwise
/// there are `steps`, each lasting `duration_ms / steps`.
pub fn fade_plan(from: u8, to: u8, duration_ms: u64, steps: u8) -> (p: FadePlan)
    requires
        fade_fits(from, to, steps),
    ensures
        (steps == 0 || from == to) ==> p.targets@.len() == 0,
        !(steps == 0 || from == to) ==> {
            &&& p.step_duration_ms == duration_ms / steps as u64
            &&& p.targets@.len() == steps
            &&& forall|k: int| 0 <= k < steps ==> #[trigger] p.targets@[k] == fade_target(from, to, steps, k + 1)
        },
{
    if steps == 0 || from == to {
        return FadePlan { step_duration_ms: 0, targets: Vec::new() };
    }
    let mut targets: Vec<u8> = Vec::new();
    let mut i: u8 = 1;
    while i <= steps
        invariant
            1 <= i <= steps as int + 1,
            steps > 0,
            from != to,
            fade_fits(from, to, steps),
            targets@.len() == i - 1,
            forall|k: int| 0 <= k < i - 1 ==> #[trigger] targets@[k] == fade_target(from, to, steps, k + 1),
        decreases steps as int + 1 - i,
    {
        let t: u8 = if i == steps {
            to
        } else {
            let (diff, up): (u32, bool) = if to >= from {
                ((to - from) as u32, true)
            } else {
                ((from - to) as u32, false)
            };
            assert(diff * (i as u32) <= 255 * 255) by (nonlinear_arith)
                requires diff <= 255, i <= 255;
            let prod: u32 = diff * (i as u32);
            let mag: u32 = prod / (steps as u32);
            assert(mag <= diff) by (nonlinear_arith)
                requires prod == diff * i, mag == (prod as int) / (steps as int), i < steps, steps > 0, diff >= 0;
            proof {
                let a = (to - from) * (i as int);
                if up {
                    assert(a == diff * i);
                } else {
                    assert(a == -(diff * i)) by (nonlinear_arith)
                        requires a == (to - from) * (i as int), diff == from - to;
                    assert(-a == diff * i);
                }
            }
            let v: u32 = if up { from as u32 + mag } else { from as u32 - mag };
            if v > 100 { 100 } else { v as u8 }
        };
        targets.push(t);
        if i == 255 {
            assert(i == steps);
            return FadePlan { step_duration_ms: duration_ms / steps as u64, targets };
        }
        i = i + 1;
    }
    FadePlan { step_duration_ms: duration_ms / steps as u64, targets }
}

/// Every step of a fade between two percentages (at most 100) lies between
/// them, the steps move one way only, and the last step reaches the target.
pub proof fn lemma_fade_between(from: u8, to: u8, steps: u8, i: int, j: int)
    requires
        from <= 100,
        to <= 100,
        steps > 0,
        1 <= i <= j <= steps,
    ensures
        from <= to ==> from <= fade_target(from, to, steps, i) <= fade_target(from, to, steps, j) <= to,
        to <= from ==> to <= fade_target(from, to, steps, j) <= fade_target(from, to, steps, i) <= from,
        fade_target(from, to, steps, steps as int) == to,
{
    let s = steps as int;
    if from <= to {
        let d = to - from;
        assert(0 <= d * i <= d * j <= d * s) by (nonlinear_arith)
            requires 0 <= d, 1 <= i <= j <= s;
        assert(d * i / s <= d * j / s) by (nonlinear_arith)
            requires 0 <= d * i <= d * j, s > 0;
        assert(d * j / s <= d) by (nonlinear_arith)
            requires 0 <= d, j <= s, s > 0, d * j <= d * s;
        assert(d * i / s >= 0) by (nonlinear_arith)
            requires d * i >= 0, s > 0;
    } else {
        let d = from - to;
        assert((to - from) * i == -(d * i)) by (nonlinear_arith)
            requires d == from - to;
        assert((to - from) * j == -(d * j)) by (nonlinear_arith)
            requires d == from - to;
        assert(0 <= d * i <= d * j <= d * s) by (nonlinear_arith)
            requires 0 <= d, 1 <= i <= j <= s;
        assert(d * i / s <= d * j / s) by (nonlinear_arith)
            requires 0 <= d * i <= d * j, s > 0;
        assert(d * j / s <= d) by (nonlinear_arith)
            requires 0 <= d, j <= s, s > 0, d * j <= d * s;
        assert(d * i / s >= 0) by (nonlinear_arith)
            requires d * i >= 0, s > 0;
    }
}

/// The running fades, at most one per monitor, each with a handle `H` by
/// which it can be cancelled. They are kept in a `Vec` whose identifiers are
/// distinct ([`FadeController::wf`]): a map keyed by the `String` inside a
/// [`MonitorId`] would carry no usable specification of its lookups.
#[derive(Debug)]
pub struct FadeController<H> {
    tasks: Vec<(MonitorId, H)>,
}

impl<H> FadeController<H> {
    /// The running fades: each monitor's identifier with its handle, in the
    /// order they were started.
    pub closed spec fn entries(&self) -> Seq<(Seq<char>, H)> {
        self.tasks@.map_values(|e: (MonitorId, H)| (e.0@, e.1))
    }

    /// No monitor has two fades.
    pub open spec fn wf(&self) -> bool {
        forall|i: int, j: int|
            0 <= i < j < self.entries().len() ==> (#[trigger] self.entries()[i]).0 != (#[trigger] self.entries()[j]).0
    }

    /// Whether a fade of `id` is running.
    pub open spec fn running(&self, id: Seq<char>) -> bool {
        exists|i: int| 0 <= i < self.entries().len() && (#[trigger] self.entries()[i]).0 == id
    }

    /// No fades.
    pub fn new() -> (r: Self)
        ensures
            r.entries().len() == 0,
            r.wf(),
    {
        let r = FadeController { tasks: Vec::new() };
        assert(r.entries() =~= Seq::<(Seq<char>, H)>::empty());
        r
    }

    /// Stops tracking the fade of `id`, if one runs, and hands back its
    /// handle so that it can be cancelled.
    pub fn cancel(&mut self, id: &MonitorId) -> (r: Option<H>)
        requires
            old(self).wf(),
        ensures
            final(self).wf(),
            !final(self).running(id@),
            old(self).running(id@) ==> exists|i: int| 0 <= i < old(self).entries().len()
                && old(self).entries()[i].0 == id@
                && r == Some(old(self).entries()[i].1)
                && final(self).entries() == old(self).entries().remove(i),
            !old(self).running(id@) ==> r is None && final(self).entries() == old(self).entries(),
    {
        let ghost e0 = self.entries();
        let mut i: usize = 0;
        while i < self.tasks.len()
            invariant
                i <= self.tasks@.len(),
                self.entries() == e0,
                e0 == old(self).entries(),
                old(self).wf(),
                forall|k: int| 0 <= k < i ==> (#[trigger] e0[k]).0 != id@,
            decreases self.tasks@.len() - i,
        {
            assert(e0[i as int].0 == self.tasks@[i as int].0@);
            if self.tasks[i].0 == *id {
                let (_, h) = self.tasks.remove(i);
                let ghost e1 = self.entries();
                assert(e1 =~= e0.remove(i as int));
                assert forall|a: int, b: int| 0 <= a < b < e1.len() implies (#[trigger] e1[a]).0 != (#[trigger] e1[b]).0 by {
                    let a0 = if a < i { a } else { a + 1 };
                    let b0 = if b < i { b } else { b + 1 };
                    assert(e1[a] == e0[a0] && e1[b] == e0[b0]);
                    assert(e0[a0].0 != e0[b0].0);
                }
                assert forall|k: int| 0 <= k < e1.len() implies (#[trigger] e1[k]).0 != id@ by {
                    let k0 = if k < i { k } else { k + 1 };
                    assert(e1[k] == e0[k0]);
                    if k0 != i {
                        if k0 < i {
                            assert(e0[k0].0 != e0[i as int].0);
                        } else {
                            assert(e0[i as int].0 != e0[k0].0);
                        }
                    }
                }
                return Some(h);
            }
            i = i + 1;
        }
        None
    }

    /// Tracks the fade of `id` just started, with its handle.
    pub fn start_fade(&mut self, id: MonitorId, handle: H)
        requires
            old(self).wf(),
            !old(self).running(id@),
        ensures
            final(self).wf(),
            final(self).entries() == old(self).entries().push((id@, handle)),
    {
        let ghost e0 = self.entries();
        let ghost key = id@;
        self.tasks.push((id, handle));
        assert(self.entries() =~= e0.push((key, handle)));
        assert forall|a: int, b: int| 0 <= a < b < self.entries().len() implies
            (#[trigger] self.entries()[a]).0 != (#[trigger] self.entries()[b]).0 by {
            if b == e0.len() {
                assert(self.entries()[a] == e0[a]);
            } else {
                assert(self.entries()[a] == e0[a] && self.entries()[b] == e0[b]);
            }
        }
    }
}

} // verus!
