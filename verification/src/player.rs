//! Movement intent of the player, fed from the keyboard.

use vstd::prelude::*;
use winit::event::ElementState;
use winit::keyboard::KeyCode;

verus! {

/// The physical key codes of `winit`, one variant per key.
#[verifier::external_type_specification]
pub struct ExKeyCode(KeyCode);

/// Whether a key went down or came up, as `winit` reports it.
#[verifier::external_type_specification]
pub struct ExElementState(ElementState);

/// Which of the six movement keys are held down.
pub struct PlayerController {
    pub forward: bool,
    pub backward: bool,
    pub left: bool,
    pub right: bool,
    pub up: bool,
    pub down: bool,
}

/// Net pull along one axis: `1` when only the positive key is held, `-1`
/// when only the negative one is, `0` when neither or both are.
pub open spec fn net_axis(positive: bool, negative: bool) -> int {
    (if positive { 1int } else { 0int }) - (if negative { 1int } else { 0int })
}

/// Net pull of the held keys along the three axes the player moves on: the
/// camera's horizontal front, its horizontal right, and the world's up.
/// Each is `-1`, `0` or `1`.
#[derive(Clone, Copy, PartialEq, Eq, Debug, Structural)]
pub struct MoveAxes {
    pub forward: i8,
    pub right: i8,
    pub up: i8,
}

impl Default for PlayerController {
    fn default() -> (controller: PlayerController)
        ensures
            controller == PlayerController::idle(),
    {
        PlayerController {
            forward: false,
            backward: false,
            left: false,
            right: false,
            up: false,
            down: false,
        }
    }
}

/// Computes the net pull of a pair of opposite keys.
pub fn axis(positive: bool, negative: bool) -> (pull: i8)
    ensures
        pull == net_axis(positive, negative),
{
    if positive == negative {
        0
    } else if positive {
        1
    } else {
        -1
    }
}

/// With no key held the player is pulled nowhere.
pub proof fn lemma_no_key_no_pull(controller: PlayerController)
    requires
        !controller.forward,
        !controller.backward,
        !controller.left,
        !controller.right,
        !controller.up,
        !controller.down,
    ensures
        controller.pull() == (MoveAxes { forward: 0, right: 0, up: 0 }),
{
}

/// Opposite keys held together cancel: with forward and backward both held
/// and nothing else, the player is pulled nowhere, and on each axis two
/// opposite keys held together pull as none of them does.
pub proof fn lemma_opposite_keys_cancel(controller: PlayerController)
    ensures
        controller.forward && controller.backward ==> controller.pull().forward == 0,
        controller.left && controller.right ==> controller.pull().right == 0,
        controller.up && controller.down ==> controller.pull().up == 0,
        controller.forward && controller.backward && !controller.left && !controller.right
            && !controller.up && !controller.down ==> controller.pull() == (MoveAxes {
            forward: 0,
            right: 0,
            up: 0,
        }),
{
}

impl PlayerController {
    /// The controller with no key held.
    pub open spec fn idle() -> PlayerController {
        PlayerController {
            forward: false,
            backward: false,
            left: false,
            right: false,
            up: false,
            down: false,
        }
    }

    /// The controller after `key` was reported as held (`pressed`) or let go.
    /// Keys other than the six movement keys change nothing.
    pub open spec fn with_key(self, key: KeyCode, pressed: bool) -> PlayerController {
        match key {
            KeyCode::KeyW => PlayerController { forward: pressed, ..self },
            KeyCode::KeyS => PlayerController { backward: pressed, ..self },
            KeyCode::KeyA => PlayerController { left: pressed, ..self },
            KeyCode::KeyD => PlayerController { right: pressed, ..self },
            KeyCode::Space => PlayerController { up: pressed, ..self },
            KeyCode::ShiftLeft => PlayerController { down: pressed, ..self },
            _ => self,
        }
    }

    /// The pull of the held keys: forward against backward, right against
    /// left, up against down.
    pub open spec fn pull(self) -> MoveAxes {
        MoveAxes {
            forward: net_axis(self.forward, self.backward) as i8,
            right: net_axis(self.right, self.left) as i8,
            up: net_axis(self.up, self.down) as i8,
        }
    }

    /// Works out along which axes, and which way, the held keys pull.
    pub fn axes(&self) -> (axes: MoveAxes)
        ensures
            axes == self.pull(),
            axes.forward == net_axis(self.forward, self.backward),
            axes.right == net_axis(self.right, self.left),
            axes.up == net_axis(self.up, self.down),
    {
        MoveAxes {
            forward: axis(self.forward, self.backward),
            right: axis(self.right, self.left),
            up: axis(self.up, self.down),
        }
    }

    /// Records the new state of `key`.
    pub fn process_keyboard(&mut self, key: KeyCode, state: ElementState)
        ensures
            *final(self) == old(self).with_key(key, state is Pressed),
    {
        let pressed = match state {
            ElementState::Pressed => true,
            ElementState::Released => false,
        };
        match key {
            KeyCode::KeyW => self.forward = pressed,
            KeyCode::KeyS => self.backward = pressed,
            KeyCode::KeyA => self.left = pressed,
            KeyCode::KeyD => self.right = pressed,
            KeyCode::Space => self.up = pressed,
            KeyCode::ShiftLeft => self.down = pressed,
            _ => (),
        }
    }
}

} // verus!
