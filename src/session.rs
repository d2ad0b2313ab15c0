use vstd::prelude::*;

use crate::easing::BLEND_ONE;
use crate::transition::{CameraRig, Tick, Transition};

verus! {

/// Length, in nanoseconds, of the animated move to a camera picked from the scene.
pub const SCENE_TRANSITION_NANOS: u64 = 200_000_000;

/// Why the next presentable image could not be acquired.
#[derive(Clone, Copy, Debug, PartialEq, Eq, Structural)]
pub enum SurfaceFault {
    Timeout,
    Outdated,
    Lost,
    OutOfMemory,
}

/// What the frame loop does after a failed acquire.
#[derive(Clone, Copy, Debug, PartialEq, Eq, Structural)]
pub enum Recovery {
    /// Configure the surface again with these dimensions and try next frame.
    Reconfigure { width: u32, height: u32 },
    /// Stop the loop: the failure cannot be recovered from.
    Exit,
    /// Drop this frame; the next one is expected to succeed.
    Skip,
}

/// A released key, as far as the viewer's own commands are concerned.
#[derive(Clone, Copy, Debug, PartialEq, Eq, Structural)]
pub enum Key {
    /// The key that asks for the draw order to be recomputed.
    Resort,
    /// A number key, selecting the scene camera of that index.
    Number(usize),
    /// The key that asks for a random scene camera.
    Random,
    /// Any other key: it only reaches the navigation controller.
    Other,
}

/// What the frame loop does for a released key.
#[derive(Clone, Copy, Debug, PartialEq, Eq, Structural)]
pub enum Command {
    /// Recompute the dataset's draw order for the current camera.
    Reorder,
    /// Start the animated move to the scene camera of this index.
    SelectCamera(usize),
    /// Nothing beyond forwarding the key to the navigation controller.
    Ignore,
}

/// The viewer's state between frames: the camera and its transition, the
/// configured surface size, the attached dataset if any, and how many
/// cameras the loaded scene offers (zero without a scene).
///
/// The methods that let the camera settle return whether the dataset's draw
/// order must be recomputed for the session's camera before the next draw.
#[derive(Clone, Debug)]
pub struct WindowContext<C, D> {
    pub rig: CameraRig<C>,
    pub width: u32,
    pub height: u32,
    pub pc: Option<D>,
    pub camera_count: usize,
}

/// Relies on rand::random: a value drawn from the thread-local generator, of
/// which nothing is known.
#[verifier::external_body]
fn random_usize() -> (r: usize) {
    rand::random::<usize>()
}

impl<C: Copy, D> WindowContext<C, D> {
    pub open spec fn wf(&self) -> bool {
        self.rig.wf()
    }

    /// A session showing `camera` on a surface of the given size, with no
    /// dataset and no scene.
    pub fn new(camera: C, width: u32, height: u32) -> (r: Self)
        ensures
            r.wf(),
            r.rig.camera == camera,
            r.rig.transition.is_none(),
            r.width == width,
            r.height == height,
            r.pc.is_none(),
            r.camera_count == 0,
    {
        WindowContext { rig: CameraRig::new(camera), width, height, pc: None, camera_count: 0 }
    }

    /// Attaches the dataset `pc`, replacing any earlier one. Its draw order is
    /// established at once, so this always asks for a reorder.
    pub fn set_point_cloud(&mut self, pc: D) -> (reorder: bool)
        ensures
            reorder,
            final(self).pc == Some(pc),
            final(self).rig == old(self).rig,
            final(self).width == old(self).width,
            final(self).height == old(self).height,
            final(self).camera_count == old(self).camera_count,
    {
        self.pc = Some(pc);
        true
    }

    /// Attaches a scene offering `camera_count` cameras.
    pub fn set_scene(&mut self, camera_count: usize)
        ensures
            final(self).camera_count == camera_count,
            final(self).rig == old(self).rig,
            final(self).width == old(self).width,
            final(self).height == old(self).height,
            final(self).pc == old(self).pc,
    {
        self.camera_count = camera_count;
    }

    /// An explicit request to recompute the draw order: it is granted exactly
    /// when a dataset is attached, and changes nothing else.
    pub fn request_reorder(&self) -> (reorder: bool)
        ensures
            reorder == self.pc.is_some(),
    {
        self.pc.is_some()
    }

    /// Handles a new surface size. A zero width or height changes nothing and
    /// returns `false`. Otherwise the size is recorded, `fit` adapts the
    /// camera's projection to it, and `true` asks for the surface to be
    /// configured again.
    pub fn resize<F>(&mut self, width: u32, height: u32, fit: F) -> (reconfigure: bool) where
        F: FnOnce(C, u32, u32) -> C,

        requires
            old(self).wf(),
            fit.requires((old(self).rig.camera, width, height)),
        ensures
            final(self).wf(),
            reconfigure == (width > 0 && height > 0),
            !reconfigure ==> final(self).rig == old(self).rig && final(self).width == old(self).width
                && final(self).height == old(self).height && final(self).pc == old(self).pc
                && final(self).camera_count == old(self).camera_count,
            reconfigure ==> {
                &&& final(self).width == width
                &&& final(self).height == height
                &&& fit.ensures((old(self).rig.camera, width, height), final(self).rig.camera)
                &&& final(self).rig.transition == old(self).rig.transition
                &&& final(self).pc == old(self).pc
                &&& final(self).camera_count == old(self).camera_count
            },
    {
        if width > 0 && height > 0 {
            self.width = width;
            self.height = height;
            self.rig.camera = fit(self.rig.camera, width, height);
            true
        } else {
            false
        }
    }

    /// Asks for `camera` to become the active camera over `duration`
    /// nanoseconds. With a zero duration it is applied at once, fitted by `fit`
    /// to the surface size, and the draw order is recomputed if a dataset is
    /// attached. Otherwise a transition starts from the current camera,
    /// replacing any that was running, and nothing is reordered.
    pub fn set_camera<F>(&mut self, camera: C, duration: u64, fit: F) -> (reorder: bool) where
        F: FnOnce(C, u32, u32) -> C,

        requires
            old(self).wf(),
            fit.requires((camera, old(self).width, old(self).height)),
        ensures
            final(self).wf(),
            final(self).width == old(self).width,
            final(self).height == old(self).height,
            final(self).pc == old(self).pc,
            final(self).camera_count == old(self).camera_count,
            duration == 0 ==> {
                &&& reorder == old(self).pc.is_some()
                &&& final(self).rig.transition.is_none()
                &&& fit.ensures((camera, old(self).width, old(self).height), final(self).rig.camera)
            },
            duration > 0 ==> {
                &&& !reorder
                &&& final(self).rig.camera == old(self).rig.camera
                &&& final(self).rig.transition == Some(
                    (Transition {
                        time_left: duration,
                        total: duration,
                        start: old(self).rig.camera,
                        target: camera,
                    }),
                )
            },
    {
        if self.rig.request(camera, duration) {
            self.rig.camera = fit(self.rig.camera, self.width, self.height);
            self.pc.is_some()
        } else {
            false
        }
    }

    /// Advances the session by `dt` nanoseconds (see `CameraRig::update`).
    /// When a transition ends in this frame the camera, now its target, is
    /// fitted by `fit` to the surface size and the draw order is recomputed if
    /// a dataset is attached; on any other frame nothing is reordered.
    pub fn update<N, L, F>(&mut self, dt: u64, navigate: N, lerp: L, fit: F) -> (reorder: bool) where
        N: FnOnce(C, u64) -> C,
        L: FnOnce(C, C, u32) -> C,
        F: FnOnce(C, u32, u32) -> C,

        requires
            old(self).wf(),
            navigate.requires((old(self).rig.camera, dt)),
            forall|a: C, b: C, x: u32| x <= BLEND_ONE ==> lerp.requires((a, b, x)),
            forall|c: C| fit.requires((c, old(self).width, old(self).height)),
        ensures
            final(self).wf(),
            final(self).width == old(self).width,
            final(self).height == old(self).height,
            final(self).pc == old(self).pc,
            final(self).camera_count == old(self).camera_count,
            match old(self).rig.transition {
                None => {
                    &&& !reorder
                    &&& final(self).rig.transition.is_none()
                    &&& navigate.ensures((old(self).rig.camera, dt), final(self).rig.camera)
                },
                Some(t) => if dt >= t.time_left {
                    &&& reorder == old(self).pc.is_some()
                    &&& final(self).rig.transition.is_none()
                    &&& fit.ensures((t.target, old(self).width, old(self).height), final(self).rig.camera)
                } else {
                    let left = (t.time_left - dt) as u64;
                    let amount = crate::transition::blend_spec(left as int, t.total as int);
                    &&& !reorder
                    &&& final(self).rig.transition == Some(Transition { time_left: left, ..t })
                    &&& lerp.ensures((t.start, t.target, amount as u32), final(self).rig.camera)
                },
            },
    {
        let tick = self.rig.update(dt, navigate, lerp);
        match tick {
            Tick::Settled => {
                self.rig.camera = fit(self.rig.camera, self.width, self.height);
                self.pc.is_some()
            },
            _ => false,
        }
    }

    /// What to do after acquiring the next image failed with `fault`: a lost
    /// surface is configured again with the last configured size, running out
    /// of memory ends the loop, and anything else skips the frame.
    pub fn recovery(&self, fault: SurfaceFault) -> (r: Recovery)
        ensures
            r == match fault {
                SurfaceFault::Lost => Recovery::Reconfigure { width: self.width, height: self.height },
                SurfaceFault::OutOfMemory => Recovery::Exit,
                _ => Recovery::Skip,
            },
    {
        match fault {
            SurfaceFault::Lost => Recovery::Reconfigure { width: self.width, height: self.height },
            SurfaceFault::OutOfMemory => Recovery::Exit,
            _ => Recovery::Skip,
        }
    }

    /// The scene camera that a random draw `draw` selects: none without a
    /// scene, otherwise the draw reduced modulo the number of cameras.
    pub fn camera_for_draw(&self, draw: usize) -> (r: Option<usize>)
        ensures
            self.camera_count == 0 ==> r.is_none(),
            self.camera_count > 0 ==> r == Some((draw % self.camera_count) as usize),
    {
        if self.camera_count == 0 {
            None
        } else {
            Some(draw % self.camera_count)
        }
    }

    /// The command for a released `key`. A reorder is asked for only with a
    /// dataset attached and a camera selected only with a scene loaded; a
    /// random pick lands on one of the scene's cameras.
    pub fn key_released(&self, key: Key) -> (cmd: Command)
        ensures
            match key {
                Key::Resort => cmd == if self.pc.is_some() {
                    Command::Reorder
                } else {
                    Command::Ignore
                },
                Key::Number(n) => cmd == if self.camera_count > 0 {
                    Command::SelectCamera(n)
                } else {
                    Command::Ignore
                },
                Key::Random => if self.camera_count > 0 {
                    cmd matches Command::SelectCamera(i) && i < self.camera_count
                } else {
                    cmd == Command::Ignore
                },
                Key::Other => cmd == Command::Ignore,
            },
    {
        match key {
            Key::Resort => if self.pc.is_some() {
                Command::Reorder
            } else {
                Command::Ignore
            },
            Key::Number(n) => if self.camera_count > 0 {
                Command::SelectCamera(n)
            } else {
                Command::Ignore
            },
            Key::Random => match self.random_camera() {
                Some(i) => Command::SelectCamera(i),
                None => Command::Ignore,
            },
            Key::Other => Command::Ignore,
        }
    }

    /// Picks a scene camera at random: none without a scene, otherwise an
    /// index below the number of cameras.
    pub fn random_camera(&self) -> (r: Option<usize>)
        ensures
            r.is_none() == (self.camera_count == 0),
            r matches Some(i) ==> i < self.camera_count,
    {
        if self.camera_count == 0 {
            None
        } else {
            let draw = random_usize();
            self.camera_for_draw(draw)
        }
    }
}

} // verus!
