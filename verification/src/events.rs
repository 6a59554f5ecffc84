//! Input events and what they mean to the camera.

use vstd::prelude::*;
use crate::camera::{CameraModel, Movement, TargetCamera};

verus! {

/// The keys that the viewer knows; every other key is `Other`.
#[derive(Clone, Copy, Debug, PartialEq, Eq, Structural)]
pub enum Key {
    LShift,
    RShift,
    LCtrl,
    Space,
    A,
    C,
    D,
    S,
    W,
    Other,
}

/// One input event; every event that the viewer has no use for is `Other`.
#[derive(Clone, Copy, Debug, PartialEq, Eq, Structural)]
pub enum Event {
    /// The user asked to leave.
    Quit,
    KeyDown { key: Key },
    KeyUp { key: Key },
    /// The window has a new size in pixels.
    Resized { width: i32, height: i32 },
    /// The wheel turned by `y` ticks, away from the user if positive.
    MouseWheel { y: i32 },
    /// The pointer moved by `xrel` to the right and `yrel` down.
    MouseMotion { xrel: i32, yrel: i32, right_button: bool },
    Other,
}

/// The flags after `key` went down (`pressed`) or up: shift is `faster`,
/// `W`, `S`, `A`, `D` are forward, backward, left and right, space is up and
/// left control is down. Other keys change nothing.
pub open spec fn with_key(m: Movement, key: Key, pressed: bool) -> Movement {
    match key {
        Key::LShift => Movement { faster: pressed, ..m },
        Key::RShift => Movement { faster: pressed, ..m },
        Key::A => Movement { left: pressed, ..m },
        Key::W => Movement { forward: pressed, ..m },
        Key::S => Movement { backward: pressed, ..m },
        Key::D => Movement { right: pressed, ..m },
        Key::Space => Movement { up: pressed, ..m },
        Key::LCtrl => Movement { down: pressed, ..m },
        _ => m,
    }
}

/// The camera after one event: the wheel zooms, keys set and clear movement
/// flags, and the pointer rotates while the right button is held, a move up
/// the screen counting as positive. Every other event changes nothing.
pub open spec fn camera_after(c: CameraModel, e: Event) -> CameraModel {
    match e {
        Event::MouseWheel { y } => c.zoom(y as int),
        Event::KeyDown { key } => c.with_movement(with_key(c.movement, key, true)),
        Event::KeyUp { key } => c.with_movement(with_key(c.movement, key, false)),
        Event::MouseMotion { xrel, yrel, right_button } => if right_button {
            c.rotate(xrel as int, -(yrel as int))
        } else {
            c
        },
        _ => c,
    }
}

/// The flags after `key` went down or up.
pub fn apply_key(m: Movement, key: Key, pressed: bool) -> (r: Movement)
    ensures
        r == with_key(m, key, pressed),
{
    let mut r = m;
    match key {
        Key::LShift => {
            r.faster = pressed;
        },
        Key::RShift => {
            r.faster = pressed;
        },
        Key::A => {
            r.left = pressed;
        },
        Key::W => {
            r.forward = pressed;
        },
        Key::S => {
            r.backward = pressed;
        },
        Key::D => {
            r.right = pressed;
        },
        Key::Space => {
            r.up = pressed;
        },
        Key::LCtrl => {
            r.down = pressed;
        },
        _ => {},
    }
    r
}

/// Hands one event to the camera.
pub fn handle_camera_event(camera: &mut TargetCamera, e: &Event)
    ensures
        final(camera)@ == camera_after(old(camera)@, *e),
        final(camera)@.wf(),
{
    proof {
        use_type_invariant(&*camera);
    }
    match *e {
        Event::MouseWheel { y } => {
            camera.zoom(y as i64);
        },
        Event::KeyDown { key } => {
            let m = apply_key(camera.movement(), key, true);
            camera.set_movement(m);
        },
        Event::KeyUp { key } => {
            let m = apply_key(camera.movement(), key, false);
            camera.set_movement(m);
        },
        Event::MouseMotion { xrel, yrel, right_button } => {
            if right_button {
                camera.rotate(xrel as i64, -(yrel as i64));
            }
        },
        _ => {},
    }
}

} // verus!
