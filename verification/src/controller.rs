use crate::camera::{add_angle, clamp_pitch, FreeCamera};
use vstd::prelude::*;

verus! {

/// The movement keys the controller understands. The input collaborator
/// maps whatever physical key codes it receives onto these.
#[derive(Clone, Copy, Debug, PartialEq, Eq, Structural)]
pub enum Key {
    Forward,
    Backward,
    StrafeLeft,
    StrafeRight,
    Other,
}

/// One event of the input stream, as the window collaborator delivers it.
#[derive(Clone, Copy, Debug, PartialEq, Eq, Structural)]
pub enum InputEvent {
    /// The window was asked to close. The controller ignores it; the
    /// frame loop is what stops.
    Closed,
    /// The output surface changed size; the pointer reference point moves
    /// to the new center.
    Resized { width: u32, height: u32 },
    /// The pointer moved; the pending rotation delta becomes its offset
    /// from the reference point (up on screen meaning a positive tilt).
    PointerMoved { x: i32, y: i32 },
    /// A movement key was pressed or released.
    KeyChanged { key: Key, pressed: bool },
}

/// The fastest rotation the controller accepts: one radian per pixel of
/// pointer travel, in microradians. The bound keeps the scaled rotation
/// deltas far inside the range the camera accepts.
pub const MAX_ROT_SPEED_URAD: u32 = 1_000_000;

/// What `Controller::update` asks of the frame loop besides the camera
/// rotation it has already applied: how far to move, and where to snap
/// the pointer back to.
#[derive(Clone, Copy, Debug, PartialEq, Eq, Structural)]
pub struct MoveCommand {
    /// Forward steps, in multiples of the loop's move speed: 1, 0 or -1.
    pub advance: i64,
    /// Rightward steps, in multiples of the loop's move speed: 1, 0 or -1.
    pub strafe: i64,
    /// Where to re-center the pointer (the reference point).
    pub center_x: i32,
    pub center_y: i32,
}

/// Maps the raw input stream to camera commands: key changes toggle
/// movement flags, pointer motion sets a pending rotation delta relative
/// to the screen center, and once per frame `update` turns both into
/// camera movement — resetting the pending delta, which is frame-relative.
pub struct Controller {
    rx: i64,
    ry: i64,
    front: bool,
    back: bool,
    left: bool,
    right: bool,
    rot_speed: u32,
    center_x: i32,
    center_y: i32,
}

impl Controller {
    /// Pending leftward-negative rotation delta, pixels.
    pub closed spec fn spec_rx(&self) -> i64 {
        self.rx
    }

    /// Pending upward-positive rotation delta, pixels.
    pub closed spec fn spec_ry(&self) -> i64 {
        self.ry
    }

    /// The four movement flags: forward, backward, strafe left, strafe
    /// right — true while the matching key is held.
    pub closed spec fn spec_front(&self) -> bool {
        self.front
    }

    pub closed spec fn spec_back(&self) -> bool {
        self.back
    }

    pub closed spec fn spec_left(&self) -> bool {
        self.left
    }

    pub closed spec fn spec_right(&self) -> bool {
        self.right
    }

    /// Rotation speed, microradians per pixel.
    pub closed spec fn spec_rot_speed(&self) -> u32 {
        self.rot_speed
    }

    /// The pointer reference point.
    pub closed spec fn spec_center_x(&self) -> i32 {
        self.center_x
    }

    pub closed spec fn spec_center_y(&self) -> i32 {
        self.center_y
    }

    /// The controller invariant: the rotation speed is within its bound
    /// and the pending deltas are small enough that scaling them can
    /// never overflow (a pointer offset fits one `i32` subtraction).
    pub open spec fn wf(&self) -> bool {
        &&& self.spec_rot_speed() <= MAX_ROT_SPEED_URAD
        &&& -0x1_0000_0000 <= self.spec_rx() <= 0x1_0000_0000
        &&& -0x1_0000_0000 <= self.spec_ry() <= 0x1_0000_0000
    }

    /// A fresh controller: no pending rotation, no key held, full
    /// rotation speed, reference point at the origin.
    pub fn new() -> (c: Controller)
        ensures
            c.wf(),
            c.spec_rx() == 0,
            c.spec_ry() == 0,
            !c.spec_front() && !c.spec_back() && !c.spec_left() && !c.spec_right(),
            c.spec_rot_speed() == MAX_ROT_SPEED_URAD,
            c.spec_center_x() == 0,
            c.spec_center_y() == 0,
    {
        Controller {
            rx: 0,
            ry: 0,
            front: false,
            back: false,
            left: false,
            right: false,
            rot_speed: MAX_ROT_SPEED_URAD,
            center_x: 0,
            center_y: 0,
        }
    }

    /// Set the rotation speed, microradians per pixel of pointer travel.
    pub fn set_rot_speed(&mut self, urad_per_pixel: u32)
        requires
            urad_per_pixel <= MAX_ROT_SPEED_URAD,
        ensures
            final(self).spec_rot_speed() == urad_per_pixel,
            final(self).spec_rx() == old(self).spec_rx(),
            final(self).spec_ry() == old(self).spec_ry(),
            final(self).spec_front() == old(self).spec_front(),
            final(self).spec_back() == old(self).spec_back(),
            final(self).spec_left() == old(self).spec_left(),
            final(self).spec_right() == old(self).spec_right(),
            final(self).spec_center_x() == old(self).spec_center_x(),
            final(self).spec_center_y() == old(self).spec_center_y(),
    {
        self.rot_speed = urad_per_pixel;
    }

    /// The pending rotation delta `(rx, ry)`, pixels.
    pub fn rotation_delta(&self) -> (r: (i64, i64))
        ensures
            r.0 == self.spec_rx(),
            r.1 == self.spec_ry(),
    {
        (self.rx, self.ry)
    }

    /// The pointer reference point.
    pub fn center(&self) -> (r: (i32, i32))
        ensures
            r.0 == self.spec_center_x(),
            r.1 == self.spec_center_y(),
    {
        (self.center_x, self.center_y)
    }

    /// The movement flags `(front, back, left, right)`.
    pub fn flags(&self) -> (r: (bool, bool, bool, bool))
        ensures
            r.0 == self.spec_front(),
            r.1 == self.spec_back(),
            r.2 == self.spec_left(),
            r.3 == self.spec_right(),
    {
        (self.front, self.back, self.left, self.right)
    }

    /// The event phase: fold one input event into the controller state.
    /// No camera mutation happens here.
    pub fn process_event(&mut self, event: InputEvent)
        requires
            old(self).wf(),
        ensures
            final(self).wf(),
            final(self).spec_rx() == (match event {
                InputEvent::PointerMoved { x, y } => x as int - old(self).spec_center_x() as int,
                _ => old(self).spec_rx() as int,
            }),
            final(self).spec_ry() == (match event {
                InputEvent::PointerMoved { x, y } => old(self).spec_center_y() as int - y as int,
                _ => old(self).spec_ry() as int,
            }),
            final(self).spec_center_x() == (match event {
                InputEvent::Resized { width, height } => (width as int) / 2,
                _ => old(self).spec_center_x() as int,
            }),
            final(self).spec_center_y() == (match event {
                InputEvent::Resized { width, height } => (height as int) / 2,
                _ => old(self).spec_center_y() as int,
            }),
            final(self).spec_front() == (match event {
                InputEvent::KeyChanged { key: Key::Forward, pressed } => pressed,
                _ => old(self).spec_front(),
            }),
            final(self).spec_back() == (match event {
                InputEvent::KeyChanged { key: Key::Backward, pressed } => pressed,
                _ => old(self).spec_back(),
            }),
            final(self).spec_left() == (match event {
                InputEvent::KeyChanged { key: Key::StrafeLeft, pressed } => pressed,
                _ => old(self).spec_left(),
            }),
            final(self).spec_right() == (match event {
                InputEvent::KeyChanged { key: Key::StrafeRight, pressed } => pressed,
                _ => old(self).spec_right(),
            }),
            final(self).spec_rot_speed() == old(self).spec_rot_speed(),
    {
        match event {
            InputEvent::Closed => {},
            InputEvent::Resized { width, height } => {
                self.center_x = (width / 2) as i32;
                self.center_y = (height / 2) as i32;
            },
            InputEvent::PointerMoved { x, y } => {
                self.rx = x as i64 - self.center_x as i64;
                self.ry = self.center_y as i64 - y as i64;
            },
            InputEvent::KeyChanged { key, pressed } => {
                match key {
                    Key::Forward => self.front = pressed,
                    Key::Backward => self.back = pressed,
                    Key::StrafeLeft => self.left = pressed,
                    Key::StrafeRight => self.right = pressed,
                    Key::Other => {},
                }
            },
        }
    }

    /// The update phase, once per frame after the pending events are
    /// drained: applies the pending rotation to the camera scaled by the
    /// rotation speed, resets the rotation delta to zero (pointer motion
    /// is frame-relative, never persistent), and hands back the movement
    /// command for the frame loop to perform — including the re-centering
    /// of the pointer, which only the input collaborator can do.
    pub fn update(&mut self, camera: &mut FreeCamera) -> (cmd: MoveCommand)
        requires
            old(self).wf(),
            old(camera).wf(),
        ensures
            final(self).wf(),
            final(camera).wf(),
            final(camera).spec_pitch() == clamp_pitch(
                old(camera).spec_pitch() + old(self).spec_ry() * old(self).spec_rot_speed(),
            ),
            final(camera).spec_yaw() == add_angle(
                old(camera).spec_yaw() as int,
                -(old(self).spec_rx() * old(self).spec_rot_speed()),
            ),
            final(self).spec_rx() == 0,
            final(self).spec_ry() == 0,
            final(self).spec_front() == old(self).spec_front(),
            final(self).spec_back() == old(self).spec_back(),
            final(self).spec_left() == old(self).spec_left(),
            final(self).spec_right() == old(self).spec_right(),
            final(self).spec_rot_speed() == old(self).spec_rot_speed(),
            final(self).spec_center_x() == old(self).spec_center_x(),
            final(self).spec_center_y() == old(self).spec_center_y(),
            cmd.advance == (if old(self).spec_front() {
                1int
            } else {
                0int
            }) - (if old(self).spec_back() {
                1int
            } else {
                0int
            }),
            cmd.strafe == (if old(self).spec_right() {
                1int
            } else {
                0int
            }) - (if old(self).spec_left() {
                1int
            } else {
                0int
            }),
            cmd.center_x == old(self).spec_center_x(),
            cmd.center_y == old(self).spec_center_y(),
    {
        let adv: i64 = (if self.front {
            1
        } else {
            0
        }) - (if self.back {
            1
        } else {
            0
        });
        let st: i64 = (if self.right {
            1
        } else {
            0
        }) - (if self.left {
            1
        } else {
            0
        });
        proof {
            assert(-0x4000_0000_0000_0000 <= self.ry * (self.rot_speed as i64)
                <= 0x4000_0000_0000_0000 && -0x4000_0000_0000_0000 <= self.rx * (
            self.rot_speed as i64) <= 0x4000_0000_0000_0000) by (nonlinear_arith)
                requires
                    -0x1_0000_0000 <= self.rx as int <= 0x1_0000_0000,
                    -0x1_0000_0000 <= self.ry as int <= 0x1_0000_0000,
                    0 <= self.rot_speed as int <= 1_000_000,
            ;
        }
        let dry: i64 = self.ry * (self.rot_speed as i64);
        let drx: i64 = self.rx * (self.rot_speed as i64);
        camera.rotate_up(dry);
        camera.rotate_left(-drx);
        self.rx = 0;
        self.ry = 0;
        MoveCommand { advance: adv, strafe: st, center_x: self.center_x, center_y: self.center_y }
    }
}

} // verus!
