use splat_viewer::easing::{progress, smoothstep, BLEND_ONE};
use splat_viewer::session::{Command, Key, Recovery, SurfaceFault, SCENE_TRANSITION_NANOS, WindowContext};
use splat_viewer::transition::{CameraRig, Tick};

#[derive(Clone, Copy, Debug, PartialEq)]
struct Cam {
    x: f64,
    fov: f64,
    aspect: f64,
}

const MS: u64 = 1_000_000;

fn cam(x: f64) -> Cam {
    Cam { x, fov: 45.0, aspect: 1.0 }
}

fn navigate(c: Cam, dt: u64) -> Cam {
    Cam { x: c.x + dt as f64 / 1e9, ..c }
}

fn lerp(a: Cam, b: Cam, t: u32) -> Cam {
    let f = t as f64 / BLEND_ONE as f64;
    Cam { x: a.x + (b.x - a.x) * f, fov: a.fov + (b.fov - a.fov) * f, aspect: a.aspect }
}

fn fit(c: Cam, w: u32, h: u32) -> Cam {
    Cam { aspect: w as f64 / h as f64, ..c }
}

fn session_with_dataset() -> WindowContext<Cam, Vec<u32>> {
    let mut s: WindowContext<Cam, Vec<u32>> = WindowContext::new(cam(0.0), 800, 600);
    assert!(s.set_point_cloud(vec![3, 1, 2]));
    s
}

#[test]
fn smoothstep_fixed_points() {
    assert_eq!(smoothstep(0), 0);
    assert_eq!(smoothstep(BLEND_ONE), BLEND_ONE);
    assert_eq!(smoothstep(BLEND_ONE / 2), BLEND_ONE / 2);
    assert_eq!(smoothstep(BLEND_ONE / 4 * 3), 55296);
}

#[test]
fn smoothstep_never_decreases() {
    let mut prev = smoothstep(0);
    let mut x: u32 = 1;
    while x <= BLEND_ONE {
        let y = smoothstep(x);
        assert!(y >= prev);
        prev = y;
        x += 97;
    }
}

#[test]
fn progress_is_elapsed_share() {
    assert_eq!(progress(150 * MS, 200 * MS), BLEND_ONE / 4);
    assert_eq!(progress(200 * MS, 200 * MS), 0);
    assert_eq!(progress(0, 200 * MS), BLEND_ONE);
    assert_eq!(progress(1, 3), 43690);
}

#[test]
fn rig_overshoot_settles_on_target() {
    let mut rig = CameraRig::new(cam(0.0));
    assert!(!rig.request(cam(10.0), 30 * MS));
    assert!(rig.is_animating());
    let tick = rig.update(500 * MS, navigate, lerp);
    assert_eq!(tick, Tick::Settled);
    assert_eq!(rig.camera, cam(10.0));
    assert!(rig.transition.is_none());
}

#[test]
fn rig_counts_down_time_left() {
    let mut rig = CameraRig::new(cam(0.0));
    rig.request(cam(8.0), 100 * MS);
    let tick = rig.update(25 * MS, navigate, lerp);
    let t = rig.transition.unwrap();
    assert_eq!(t.time_left, 75 * MS);
    assert_eq!(t.total, 100 * MS);
    assert_eq!(tick, Tick::Blended { amount: smoothstep(BLEND_ONE / 4) });
    assert_eq!(rig.camera, lerp(cam(0.0), cam(8.0), smoothstep(BLEND_ONE / 4)));
}

#[test]
fn idle_session_follows_navigation() {
    let mut s: WindowContext<Cam, Vec<u32>> = WindowContext::new(cam(0.0), 800, 600);
    let mut expected = s.rig.camera;
    for _ in 0..5 {
        let reorder = s.update(16 * MS, navigate, lerp, fit);
        expected = navigate(expected, 16 * MS);
        assert!(!reorder);
        assert_eq!(s.rig.camera, expected);
        assert!(s.rig.transition.is_none());
    }
}

#[test]
fn idle_session_with_dataset_never_reorders() {
    let mut s = session_with_dataset();
    for _ in 0..5 {
        assert!(!s.update(16 * MS, navigate, lerp, fit));
    }
}

#[test]
fn animated_transition_settles_after_four_steps() {
    let mut s = session_with_dataset();
    let b = Cam { x: 5.0, fov: 60.0, aspect: 4.0 / 3.0 };
    assert!(!s.set_camera(b, SCENE_TRANSITION_NANOS, fit));
    assert_eq!(SCENE_TRANSITION_NANOS, 200 * MS);
    let mut fired = 0;
    for step in 1..=4 {
        if s.update(50 * MS, navigate, lerp, fit) {
            fired += 1;
            assert_eq!(step, 4);
        }
        if step < 4 {
            assert!(s.rig.is_animating());
        }
    }
    assert_eq!(fired, 1);
    assert!(!s.rig.is_animating());
    assert_eq!(s.rig.camera, b);
}

#[test]
fn zero_duration_applies_at_once() {
    let mut s = session_with_dataset();
    let b = Cam { x: 3.0, fov: 50.0, aspect: 2.0 };
    assert!(s.set_camera(b, 0, fit));
    assert!(!s.rig.is_animating());
    assert_eq!(s.rig.camera, fit(b, 800, 600));
    assert!(!s.update(16 * MS, navigate, lerp, fit));
}

#[test]
fn zero_duration_without_dataset_does_not_reorder() {
    let mut s: WindowContext<Cam, Vec<u32>> = WindowContext::new(cam(0.0), 800, 600);
    assert!(!s.set_camera(cam(1.0), 0, fit));
    assert_eq!(s.rig.camera, fit(cam(1.0), 800, 600));
}

#[test]
fn new_request_replaces_running_transition() {
    let mut s = session_with_dataset();
    s.set_camera(cam(4.0), 200 * MS, fit);
    s.update(100 * MS, navigate, lerp, fit);
    let mid = s.rig.camera;
    s.set_camera(cam(-4.0), 100 * MS, fit);
    let t = s.rig.transition.unwrap();
    assert_eq!(t.start, mid);
    assert_eq!(t.target, cam(-4.0));
    assert_eq!(t.time_left, 100 * MS);
    assert!(s.update(100 * MS, navigate, lerp, fit));
    assert_eq!(s.rig.camera, fit(cam(-4.0), 800, 600));
}

#[test]
fn zero_sized_resize_is_ignored() {
    let mut s: WindowContext<Cam, Vec<u32>> = WindowContext::new(cam(0.0), 800, 600);
    assert!(!s.resize(0, 300, fit));
    assert!(!s.resize(300, 0, fit));
    assert_eq!((s.width, s.height), (800, 600));
    assert_eq!(s.rig.camera, cam(0.0));
    assert!(s.resize(1000, 500, fit));
    assert_eq!((s.width, s.height), (1000, 500));
    assert_eq!(s.rig.camera.aspect, 2.0);
}

#[test]
fn lost_surface_reconfigures_with_last_size() {
    let mut s: WindowContext<Cam, Vec<u32>> = WindowContext::new(cam(1.5), 800, 600);
    s.resize(1024, 768, fit);
    let before = s.rig.camera;
    assert_eq!(
        s.recovery(SurfaceFault::Lost),
        Recovery::Reconfigure { width: 1024, height: 768 }
    );
    assert_eq!(s.rig.camera, before);
}

#[test]
fn other_surface_faults() {
    let s: WindowContext<Cam, Vec<u32>> = WindowContext::new(cam(0.0), 800, 600);
    assert_eq!(s.recovery(SurfaceFault::OutOfMemory), Recovery::Exit);
    assert_eq!(s.recovery(SurfaceFault::Timeout), Recovery::Skip);
    assert_eq!(s.recovery(SurfaceFault::Outdated), Recovery::Skip);
}

#[test]
fn reorder_request_needs_dataset() {
    let s: WindowContext<Cam, Vec<u32>> = WindowContext::new(cam(0.0), 800, 600);
    assert!(!s.request_reorder());
    let s = session_with_dataset();
    assert!(s.request_reorder());
    assert!(s.request_reorder());
}

#[test]
fn random_camera_needs_scene() {
    let mut s: WindowContext<Cam, Vec<u32>> = WindowContext::new(cam(0.0), 800, 600);
    assert_eq!(s.camera_for_draw(17), None);
    assert_eq!(s.random_camera(), None);
    s.set_scene(5);
    assert_eq!(s.camera_for_draw(17), Some(2));
    assert_eq!(s.camera_for_draw(usize::MAX), Some(usize::MAX % 5));
    for _ in 0..50 {
        let i = s.random_camera().unwrap();
        assert!(i < 5);
    }
}

#[test]
fn point_cloud_is_kept_and_sorted_once_on_attach() {
    let mut s: WindowContext<Cam, Vec<u32>> = WindowContext::new(cam(0.0), 640, 480);
    assert!(s.pc.is_none());
    assert!(s.set_point_cloud(vec![7, 8]));
    assert_eq!(s.pc, Some(vec![7, 8]));
    assert_eq!(s.rig.camera, cam(0.0));
}

#[test]
fn released_keys_map_to_commands() {
    let mut s: WindowContext<Cam, Vec<u32>> = WindowContext::new(cam(0.0), 640, 480);
    assert_eq!(s.key_released(Key::Resort), Command::Ignore);
    assert_eq!(s.key_released(Key::Number(2)), Command::Ignore);
    assert_eq!(s.key_released(Key::Random), Command::Ignore);
    assert_eq!(s.key_released(Key::Other), Command::Ignore);
    s.set_point_cloud(vec![1]);
    s.set_scene(3);
    assert_eq!(s.key_released(Key::Resort), Command::Reorder);
    assert_eq!(s.key_released(Key::Number(2)), Command::SelectCamera(2));
    match s.key_released(Key::Random) {
        Command::SelectCamera(i) => assert!(i < 3),
        other => panic!("unexpected {:?}", other),
    }
    assert_eq!(s.key_released(Key::Other), Command::Ignore);
}
