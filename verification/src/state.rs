//! The frame lifecycle: what is updated and drawn when, and what follows
//! from the outcome of a frame.

use crate::gpu_context::WindowSurface;
use crate::player::PlayerController;
use crate::world::{World, SOLID, VOXEL_COUNT};
use vstd::prelude::*;
use wgpu::SurfaceError;

verus! {

/// Why `wgpu` could not hand out the next frame of a surface.
#[verifier::external_type_specification]
pub struct ExSurfaceError(SurfaceError);

/// Bind group of the camera uniform in the render pipeline's layout.
pub const CAMERA_BIND_GROUP: u32 = 0;

/// Bind group of the voxel storage buffer in the render pipeline's layout.
pub const WORLD_BIND_GROUP: u32 = 1;

/// Vertices of the one full-screen triangle a frame draws.
pub const FRAME_VERTICES: u32 = 3;

/// Where the state stands within a frame.
#[derive(Clone, Copy, PartialEq, Eq, Debug, Structural)]
pub enum Phase {
    /// Between frames.
    Ready,
    /// The camera and the player are being moved.
    Updating,
    /// The frame is being drawn.
    Rendering,
    /// The surface was lost while drawing and is not configured anew yet.
    Lost,
}

/// What the host does once a frame has ended.
#[derive(Clone, Copy, PartialEq, Eq, Debug, Structural)]
pub enum FrameAction {
    /// The frame was presented; go on.
    Continue,
    /// The surface was lost: resize to the last known size, which is given.
    Recover { width: u32, height: u32 },
    /// Memory ran out: shut the frame loop down.
    Shutdown,
    /// The frame was dropped: report it and go on.
    Skip,
}

/// What the outcome of drawing a frame asks for on a surface of the given
/// size.
pub open spec fn action_after(outcome: Result<(), SurfaceError>, width: u32, height: u32)
    -> FrameAction {
    match outcome {
        Ok(_) => FrameAction::Continue,
        Err(SurfaceError::Lost) => FrameAction::Recover { width, height },
        Err(SurfaceError::OutOfMemory) => FrameAction::Shutdown,
        Err(_) => FrameAction::Skip,
    }
}

/// The phase that drawing a frame ends in.
pub open spec fn phase_after(outcome: Result<(), SurfaceError>) -> Phase {
    match outcome {
        Err(SurfaceError::Lost) => Phase::Lost,
        _ => Phase::Ready,
    }
}

/// Resizing to the size the surface already has, as is done to recover a
/// lost surface, leaves the stored configuration as it was and ends in a
/// phase other than `Lost`; a state that was lost is ready again.
pub proof fn lemma_recovery_keeps_configuration(state: State)
    ensures
        ({
            let recovered = state.resized(
                state.display.config.width,
                state.display.config.height,
            );
            &&& recovered.display == state.display
            &&& recovered.player_controller == state.player_controller
            &&& recovered.world == state.world
            &&& recovered.phase != Phase::Lost
            &&& state.phase == Phase::Lost ==> recovered.phase == Phase::Ready
        }),
{
}

/// All that lives from frame to frame on the processor's side.
pub struct State {
    pub display: WindowSurface,
    pub player_controller: PlayerController,
    pub world: World,
    pub phase: Phase,
}

impl State {
    /// This state in another phase.
    pub open spec fn in_phase(self, phase: Phase) -> State {
        State { phase, ..self }
    }

    /// This state after the window took the size `width` by `height`.
    pub open spec fn resized(self, width: u32, height: u32) -> State {
        State {
            display: if width > 0 && height > 0 {
                self.display.with_size(width, height)
            } else {
                self.display
            },
            phase: if self.phase == Phase::Lost {
                Phase::Ready
            } else {
                self.phase
            },
            ..self
        }
    }

    /// Starts between frames, with no key held and a world of solid voxels.
    pub fn new(display: WindowSurface) -> (state: State)
        ensures
            state.phase == Phase::Ready,
            state.display == display,
            state.player_controller == PlayerController::idle(),
            state.world@.len() == VOXEL_COUNT,
            forall|i: int| 0 <= i < VOXEL_COUNT ==> state.world@[i] == SOLID,
    {
        State {
            display,
            player_controller: PlayerController::default(),
            world: World::new(),
            phase: Phase::Ready,
        }
    }

    /// Takes over the window's new size, unless it has a zero side, and says
    /// whether the surface has to be configured anew. A lost surface counts
    /// as recovered afterwards.
    pub fn resize(&mut self, width: u32, height: u32) -> (reconfigure: bool)
        ensures
            reconfigure == (width > 0 && height > 0),
            *final(self) == old(self).resized(width, height),
    {
        let reconfigure = self.display.resize(width, height);
        if self.phase == Phase::Lost {
            self.phase = Phase::Ready;
        }
        reconfigure
    }

    /// Opens a frame. Between frames it hands out the viewport's width and
    /// height for the camera; in any other phase nothing changes.
    pub fn begin_update(&mut self) -> (viewport: Option<(usize, usize)>)
        ensures
            old(self).phase == Phase::Ready ==> *final(self) == old(self).in_phase(Phase::Updating)
                && viewport == Some(
                (old(self).display.config.width as usize, old(self).display.config.height as usize),
            ),
            old(self).phase != Phase::Ready ==> *final(self) == *old(self) && viewport is None,
    {
        if self.phase == Phase::Ready {
            self.phase = Phase::Updating;
            Some(self.display.viewport())
        } else {
            None
        }
    }

    /// Goes from updating to drawing and says whether it did; in any other
    /// phase nothing changes.
    pub fn begin_render(&mut self) -> (started: bool)
        ensures
            started == (old(self).phase == Phase::Updating),
            started ==> *final(self) == old(self).in_phase(Phase::Rendering),
            !started ==> *final(self) == *old(self),
    {
        if self.phase == Phase::Updating {
            self.phase = Phase::Rendering;
            true
        } else {
            false
        }
    }

    /// Closes the frame that is being drawn with the outcome of drawing it,
    /// and says what the host has to do. Outside of drawing nothing changes
    /// and nothing is asked for.
    pub fn finish_render(&mut self, outcome: Result<(), SurfaceError>) -> (action: Option<
        FrameAction,
    >)
        ensures
            old(self).phase == Phase::Rendering ==> *final(self) == old(self).in_phase(
                phase_after(outcome),
            ) && action == Some(
                action_after(
                    outcome,
                    old(self).display.config.width,
                    old(self).display.config.height,
                ),
            ),
            old(self).phase != Phase::Rendering ==> *final(self) == *old(self) && action is None,
    {
        if self.phase != Phase::Rendering {
            return None;
        }
        match outcome {
            Ok(_) => {
                self.phase = Phase::Ready;
                Some(FrameAction::Continue)
            },
            Err(SurfaceError::Lost) => {
                self.phase = Phase::Lost;
                Some(
                    FrameAction::Recover {
                        width: self.display.config.width,
                        height: self.display.config.height,
                    },
                )
            },
            Err(SurfaceError::OutOfMemory) => {
                self.phase = Phase::Ready;
                Some(FrameAction::Shutdown)
            },
            Err(_) => {
                self.phase = Phase::Ready;
                Some(FrameAction::Skip)
            },
        }
    }
}

} // verus!
