use vstd::prelude::*;

use crate::easing::{progress, progress_spec, smoothstep, smoothstep_spec, BLEND_ONE};

verus! {

/// An animated move from `start` to `target` lasting `total` nanoseconds, of
/// which `time_left` remain.
#[derive(Clone, Copy, Debug)]
pub struct Transition<C> {
    pub time_left: u64,
    pub total: u64,
    pub start: C,
    pub target: C,
}

/// What one frame of the camera state machine did.
#[derive(Clone, Copy, Debug, PartialEq, Eq, Structural)]
pub enum Tick {
    /// No transition was running: the navigation controller moved the camera.
    Navigated,
    /// A transition is still running: the camera is the blend of its two ends
    /// at the given eased fixed-point factor.
    Blended { amount: u32 },
    /// The transition ran out: the camera is its target, and no transition remains.
    Settled,
}

/// Blend factor of a transition once `left` of its `total` remains.
pub open spec fn blend_spec(left: int, total: int) -> int {
    smoothstep_spec(progress_spec(left, total))
}

/// A transition's blend factor is exactly zero when none of it has elapsed
/// and exactly one when all of it has, so its two ends are reached unblended.
pub proof fn lemma_blend_endpoints(total: int)
    requires
        total > 0,
    ensures
        blend_spec(total, total) == 0,
        blend_spec(0, total) == BLEND_ONE,
{
    crate::easing::lemma_smoothstep_monotonic(0, BLEND_ONE as int);
    assert(progress_spec(0, total) == BLEND_ONE) by (nonlinear_arith)
        requires total > 0;
}

/// The active camera and the transition, if any, that is moving it.
#[derive(Clone, Copy, Debug)]
pub struct CameraRig<C> {
    pub camera: C,
    pub transition: Option<Transition<C>>,
}

impl<C: Copy> CameraRig<C> {
    /// A running transition has time left, no more than its whole length.
    pub open spec fn wf(&self) -> bool {
        match self.transition {
            Some(t) => 0 < t.time_left && t.time_left <= t.total,
            None => true,
        }
    }

    /// An idle rig showing `camera`.
    pub fn new(camera: C) -> (r: Self)
        ensures
            r.wf(),
            r.camera == camera,
            r.transition.is_none(),
    {
        CameraRig { camera, transition: None }
    }

    /// Whether a transition is running.
    pub fn is_animating(&self) -> (r: bool)
        ensures
            r == self.transition.is_some(),
    {
        self.transition.is_some()
    }

    /// Asks for `target` to become the camera over `duration` nanoseconds.
    /// A zero duration applies it at once and reports `true` (the camera has
    /// settled); any other starts a transition from the current camera,
    /// replacing one that was running, and reports `false`.
    pub fn request(&mut self, target: C, duration: u64) -> (settled: bool)
        ensures
            final(self).wf(),
            settled == (duration == 0),
            duration == 0 ==> final(self).camera == target && final(self).transition.is_none(),
            duration > 0 ==> final(self).camera == old(self).camera && final(self).transition
                == Some(
                (Transition { time_left: duration, total: duration, start: old(self).camera, target }),
            ),
    {
        if duration == 0 {
            self.camera = target;
            self.transition = None;
            true
        } else {
            let start = self.camera;
            self.transition = Some(Transition { time_left: duration, total: duration, start, target });
            false
        }
    }

    /// Advances the rig by `dt` nanoseconds. Idle, it hands the camera to
    /// `navigate`. Animating, the time left shrinks by `dt`, down to zero at
    /// most: at zero the camera becomes the transition's target exactly and the
    /// transition ends; above zero the camera is `lerp` of the two ends at the
    /// eased progress.
    pub fn update<N, L>(&mut self, dt: u64, navigate: N, lerp: L) -> (tick: Tick) where
        N: FnOnce(C, u64) -> C,
        L: FnOnce(C, C, u32) -> C,

        requires
            old(self).wf(),
            navigate.requires((old(self).camera, dt)),
            forall|a: C, b: C, x: u32| x <= BLEND_ONE ==> lerp.requires((a, b, x)),
        ensures
            final(self).wf(),
            match old(self).transition {
                None => {
                    &&& tick == Tick::Navigated
                    &&& final(self).transition.is_none()
                    &&& navigate.ensures((old(self).camera, dt), final(self).camera)
                },
                Some(t) => if dt >= t.time_left {
                    &&& tick == Tick::Settled
                    &&& final(self).transition.is_none()
                    &&& final(self).camera == t.target
                } else {
                    let left = (t.time_left - dt) as u64;
                    let amount = blend_spec(left as int, t.total as int);
                    &&& tick == (Tick::Blended { amount: amount as u32 })
                    &&& final(self).transition == Some(Transition { time_left: left, ..t })
                    &&& lerp.ensures((t.start, t.target, amount as u32), final(self).camera)
                },
            },
    {
        match self.transition {
            None => {
                self.camera = navigate(self.camera, dt);
                Tick::Navigated
            },
            Some(t) => {
                if dt >= t.time_left {
                    self.camera = t.target;
                    self.transition = None;
                    Tick::Settled
                } else {
                    let left = t.time_left - dt;
                    let amount = smoothstep(progress(left, t.total));
                    self.camera = lerp(t.start, t.target, amount);
                    self.transition = Some(Transition { time_left: left, ..t });
                    Tick::Blended { amount }
                }
            },
        }
    }
}

} // verus!
