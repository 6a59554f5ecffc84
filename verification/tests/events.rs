use r3d3::camera::{Aspect, Movement, TargetCamera, ROTATE_STEP, ZOOM_STEP};
use r3d3::events::{apply_key, handle_camera_event, Event, Key};
use r3d3::trig::TAU;

fn scene_camera() -> TargetCamera {
    TargetCamera::new(
        Aspect { width: 800, height: 600 },
        1_570_000,
        10_000,
        1_000_000_000,
        785_000,
        2_000_000,
    )
}

#[test]
fn keys_set_and_clear_their_flags() {
    let none = Movement::none();
    let cases = [
        (Key::LShift, Movement { faster: true, ..none }),
        (Key::RShift, Movement { faster: true, ..none }),
        (Key::A, Movement { left: true, ..none }),
        (Key::W, Movement { forward: true, ..none }),
        (Key::S, Movement { backward: true, ..none }),
        (Key::D, Movement { right: true, ..none }),
        (Key::Space, Movement { up: true, ..none }),
        (Key::LCtrl, Movement { down: true, ..none }),
        (Key::C, none),
        (Key::Other, none),
    ];
    for (key, expected) in cases {
        let mut cam = scene_camera();
        handle_camera_event(&mut cam, &Event::KeyDown { key });
        assert_eq!(cam.movement(), expected);
        assert_eq!(apply_key(none, key, true), expected);
        handle_camera_event(&mut cam, &Event::KeyUp { key });
        assert_eq!(cam.movement(), none);
        assert_eq!(apply_key(expected, key, false), none);
    }
}

#[test]
fn keys_leave_the_other_flags_alone() {
    let mut cam = scene_camera();
    handle_camera_event(&mut cam, &Event::KeyDown { key: Key::W });
    handle_camera_event(&mut cam, &Event::KeyDown { key: Key::LShift });
    handle_camera_event(&mut cam, &Event::KeyDown { key: Key::D });
    handle_camera_event(&mut cam, &Event::KeyUp { key: Key::W });
    handle_camera_event(&mut cam, &Event::KeyUp { key: Key::A });
    let expected = Movement { right: true, faster: true, ..Movement::none() };
    assert_eq!(cam.movement(), expected);
    assert!(!cam.has_pending());
}

#[test]
fn wheel_zooms() {
    let mut cam = scene_camera();
    handle_camera_event(&mut cam, &Event::MouseWheel { y: 3 });
    assert!(cam.has_pending());
    cam.update(0);
    assert_eq!(cam.distance(), 2_000_000 - 3 * ZOOM_STEP);
    handle_camera_event(&mut cam, &Event::MouseWheel { y: i32::MIN });
    cam.update(0);
    assert_eq!(cam.distance(), 1_000_010_000);
    handle_camera_event(&mut cam, &Event::MouseWheel { y: i32::MAX });
    cam.update(0);
    assert_eq!(cam.distance(), 110_000);
}

#[test]
fn pointer_rotates_only_while_the_right_button_is_held() {
    let mut cam = scene_camera();
    handle_camera_event(&mut cam, &Event::MouseMotion { xrel: 10, yrel: 4, right_button: false });
    assert!(!cam.has_pending());
    handle_camera_event(&mut cam, &Event::MouseMotion { xrel: 10, yrel: 4, right_button: true });
    assert!(cam.has_pending());
    cam.update(0);
    assert_eq!(cam.yaw(), 10 * ROTATE_STEP);
    assert_eq!(cam.pitch(), 785_000 - 4 * ROTATE_STEP);
}

#[test]
fn pointer_at_the_ends_of_its_range() {
    let mut cam = scene_camera();
    let e = Event::MouseMotion { xrel: i32::MIN, yrel: i32::MIN, right_button: true };
    handle_camera_event(&mut cam, &e);
    cam.update(0);
    assert_eq!(cam.pitch(), 3_131_592);
    assert!(0 <= cam.yaw() && cam.yaw() < TAU);
    let e = Event::MouseMotion { xrel: i32::MAX, yrel: i32::MAX, right_button: true };
    handle_camera_event(&mut cam, &e);
    cam.update(0);
    assert_eq!(cam.pitch(), 10_000);
}

#[test]
fn other_events_mean_nothing_to_the_camera() {
    let mut cam = scene_camera();
    for e in [Event::Quit, Event::Other, Event::Resized { width: 5, height: 5 }] {
        handle_camera_event(&mut cam, &e);
        assert!(!cam.has_pending());
        assert_eq!(cam.movement(), Movement::none());
        assert_eq!(cam.projection().aspect, Aspect { width: 800, height: 600 });
    }
}
