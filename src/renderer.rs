//! The frame orchestrator: surface and depth-buffer lifetime across resizes,
//! and the order of the work done for each frame.
//!
//! The GPU work itself is done by the caller: `frame_step` takes what came
//! of the previous action and answers with the next one.
use crate::camera::{aspect_of, get_aspect, AspectRatio};
use vstd::prelude::*;

verus! {

/// Number of instance records the instance buffer is created with.
pub const MAX_INSTANCES: usize = 100;

#[derive(Debug, Copy, Clone, PartialEq, Eq, Structural)]
pub enum PresentMode {
    /// Presentation waits for the vertical blank.
    AutoVsync,
    /// Presentation does not wait.
    AutoNoVsync,
}

/// The parts of the swapchain configuration that the renderer decides.
#[derive(Debug, Copy, Clone, PartialEq, Eq, Structural)]
pub struct SwapchainConfig {
    pub width: u32,
    pub height: u32,
    pub present_mode: PresentMode,
}

/// Extent of the depth-only image; it has a single layer.
#[derive(Debug, Copy, Clone, PartialEq, Eq, Structural)]
pub struct DepthTexture {
    pub width: u32,
    pub height: u32,
}

impl DepthTexture {
    /// A depth image that matches the swapchain.
    pub fn new(config: &SwapchainConfig) -> (r: DepthTexture)
        ensures
            r.width == config.width,
            r.height == config.height,
    {
        DepthTexture { width: config.width, height: config.height }
    }
}

/// Why the next swapchain image could not be acquired.
#[derive(Debug, Copy, Clone, PartialEq, Eq, Structural)]
pub enum SurfaceError {
    Timeout,
    Outdated,
    Lost,
    OutOfMemory,
}

/// Where the current frame stands.
#[derive(Debug, Copy, Clone, PartialEq, Eq, Structural)]
pub enum FramePhase {
    Idle,
    UploadingInstances,
    UploadingCamera,
    /// Waiting for a swapchain image; `retried` once the surface has been
    /// reconfigured for this frame.
    Acquiring { retried: bool },
    Recording,
    Presenting,
    /// A fatal error ended rendering.
    Failed,
}

/// What the caller reports back.
#[derive(Debug, Copy, Clone, PartialEq, Eq, Structural)]
pub enum FrameEvent {
    /// A redraw was requested.
    Begin,
    /// The last action completed.
    Done,
    /// Acquiring a swapchain image failed.
    AcquireFailed(SurfaceError),
}

/// What the caller does next.
#[derive(Debug, Copy, Clone, PartialEq, Eq, Structural)]
pub enum FrameAction {
    /// Convert the transforms to instance records and write the instance buffer.
    UploadInstances,
    /// Write the camera uniform, built with this aspect ratio.
    UploadCamera(AspectRatio),
    /// Acquire the next swapchain image.
    AcquireImage,
    /// Configure the surface again with this configuration, then acquire.
    ReconfigureAndAcquire(SwapchainConfig),
    /// Record the render pass (clear, bind uniforms, pipeline and buffers,
    /// draw the instances) and submit it.
    RecordAndSubmit,
    /// Present the image.
    Present,
    /// The frame is complete.
    Finished,
    /// Stop rendering.
    Fatal(SurfaceError),
    /// The event does not apply in this phase; nothing to do.
    Ignore,
}

pub struct RendererView {
    pub swapchain: SwapchainConfig,
    pub depth: DepthTexture,
    pub phase: FramePhase,
}

/// A side of the surface, at least one pixel.
pub open spec fn at_least_one(n: u32) -> u32 {
    if n == 0 {
        1
    } else {
        n
    }
}

pub open spec fn present_mode_for(vsync: bool) -> PresentMode {
    if vsync {
        PresentMode::AutoVsync
    } else {
        PresentMode::AutoNoVsync
    }
}

/// The renderer after a resize: the swapchain takes the new size (at least
/// 1x1), the depth image is recreated to match; nothing else changes.
pub open spec fn resized(v: RendererView, width: u32, height: u32) -> RendererView {
    let swapchain = SwapchainConfig {
        width: at_least_one(width),
        height: at_least_one(height),
        present_mode: v.swapchain.present_mode,
    };
    RendererView {
        swapchain,
        depth: DepthTexture { width: swapchain.width, height: swapchain.height },
        phase: v.phase,
    }
}

/// The next phase and action of a frame.
pub open spec fn frame_transition(
    phase: FramePhase,
    event: FrameEvent,
    swapchain: SwapchainConfig,
) -> (FramePhase, FrameAction) {
    match (phase, event) {
        (FramePhase::Idle, FrameEvent::Begin) => (
            FramePhase::UploadingInstances,
            FrameAction::UploadInstances,
        ),
        (FramePhase::UploadingInstances, FrameEvent::Done) => (
            FramePhase::UploadingCamera,
            FrameAction::UploadCamera(aspect_of(swapchain.width, swapchain.height)),
        ),
        (FramePhase::UploadingCamera, FrameEvent::Done) => (
            FramePhase::Acquiring { retried: false },
            FrameAction::AcquireImage,
        ),
        (FramePhase::Acquiring { .. }, FrameEvent::Done) => (
            FramePhase::Recording,
            FrameAction::RecordAndSubmit,
        ),
        (FramePhase::Acquiring { retried }, FrameEvent::AcquireFailed(e)) => {
            if !retried && (e == SurfaceError::Outdated || e == SurfaceError::Lost) {
                (FramePhase::Acquiring { retried: true }, FrameAction::ReconfigureAndAcquire(swapchain))
            } else {
                (FramePhase::Failed, FrameAction::Fatal(e))
            }
        },
        (FramePhase::Recording, FrameEvent::Done) => (FramePhase::Presenting, FrameAction::Present),
        (FramePhase::Presenting, FrameEvent::Done) => (FramePhase::Idle, FrameAction::Finished),
        _ => (phase, FrameAction::Ignore),
    }
}

/// Owns the swapchain configuration and the depth image, and sequences frames.
pub struct Renderer {
    swapchain_config: SwapchainConfig,
    depth_texture: DepthTexture,
    phase: FramePhase,
}

impl View for Renderer {
    type V = RendererView;

    closed spec fn view(&self) -> RendererView {
        RendererView {
            swapchain: self.swapchain_config,
            depth: self.depth_texture,
            phase: self.phase,
        }
    }
}

fn at_least_one_pixel(n: u32) -> (r: u32)
    ensures
        r == at_least_one(n),
{
    if n == 0 {
        1
    } else {
        n
    }
}

impl Renderer {
    /// The depth image always matches the swapchain, which is never empty.
    pub open spec fn wf(&self) -> bool {
        &&& self@.swapchain.width >= 1
        &&& self@.swapchain.height >= 1
        &&& self@.depth.width == self@.swapchain.width
        &&& self@.depth.height == self@.swapchain.height
    }

    /// A renderer for a surface of the given size, idle.
    pub fn new(width: u32, height: u32, vsync: bool) -> (r: Renderer)
        ensures
            r.wf(),
            r@.swapchain == (SwapchainConfig {
                width: at_least_one(width),
                height: at_least_one(height),
                present_mode: present_mode_for(vsync),
            }),
            r@.phase == FramePhase::Idle,
    {
        let present_mode = if vsync {
            PresentMode::AutoVsync
        } else {
            PresentMode::AutoNoVsync
        };
        let swapchain_config = SwapchainConfig {
            width: at_least_one_pixel(width),
            height: at_least_one_pixel(height),
            present_mode,
        };
        let depth_texture = DepthTexture::new(&swapchain_config);
        Renderer { swapchain_config, depth_texture, phase: FramePhase::Idle }
    }

    pub fn swapchain_config(&self) -> (r: SwapchainConfig)
        ensures
            r == self@.swapchain,
    {
        self.swapchain_config
    }

    pub fn depth_texture(&self) -> (r: DepthTexture)
        ensures
            r == self@.depth,
    {
        self.depth_texture
    }

    pub fn phase(&self) -> (r: FramePhase)
        ensures
            r == self@.phase,
    {
        self.phase
    }

    /// The aspect ratio of the current swapchain.
    pub fn aspect(&self) -> (r: AspectRatio)
        ensures
            r == aspect_of(self@.swapchain.width, self@.swapchain.height),
    {
        get_aspect(self.swapchain_config.width, self.swapchain_config.height)
    }

    /// Takes the new surface size; the caller then configures the surface and
    /// recreates the depth image from `swapchain_config` and `depth_texture`.
    pub fn resize(&mut self, width: u32, height: u32)
        requires
            old(self).wf(),
        ensures
            final(self).wf(),
            final(self)@ == resized(old(self)@, width, height),
    {
        self.swapchain_config.width = at_least_one_pixel(width);
        self.swapchain_config.height = at_least_one_pixel(height);
        self.depth_texture = DepthTexture::new(&self.swapchain_config);
    }

    /// Advances the current frame by one event.
    pub fn frame_step(&mut self, event: FrameEvent) -> (r: FrameAction)
        requires
            old(self).wf(),
        ensures
            final(self).wf(),
            (final(self)@.phase, r) == frame_transition(
                old(self)@.phase,
                event,
                old(self)@.swapchain,
            ),
            final(self)@.swapchain == old(self)@.swapchain,
            final(self)@.depth == old(self)@.depth,
    {
        let (phase, action) = match (self.phase, event) {
            (FramePhase::Idle, FrameEvent::Begin) => (
                FramePhase::UploadingInstances,
                FrameAction::UploadInstances,
            ),
            (FramePhase::UploadingInstances, FrameEvent::Done) => (
                FramePhase::UploadingCamera,
                FrameAction::UploadCamera(self.aspect()),
            ),
            (FramePhase::UploadingCamera, FrameEvent::Done) => (
                FramePhase::Acquiring { retried: false },
                FrameAction::AcquireImage,
            ),
            (FramePhase::Acquiring { .. }, FrameEvent::Done) => (
                FramePhase::Recording,
                FrameAction::RecordAndSubmit,
            ),
            (FramePhase::Acquiring { retried }, FrameEvent::AcquireFailed(e)) => {
                let transient = match e {
                    SurfaceError::Outdated | SurfaceError::Lost => true,
                    _ => false,
                };
                if !retried && transient {
                    (
                        FramePhase::Acquiring { retried: true },
                        FrameAction::ReconfigureAndAcquire(self.swapchain_config),
                    )
                } else {
                    (FramePhase::Failed, FrameAction::Fatal(e))
                }
            },
            (FramePhase::Recording, FrameEvent::Done) => (
                FramePhase::Presenting,
                FrameAction::Present,
            ),
            (FramePhase::Presenting, FrameEvent::Done) => (FramePhase::Idle, FrameAction::Finished),
            _ => (self.phase, FrameAction::Ignore),
        };
        self.phase = phase;
        action
    }
}

/// Resizing twice to the same size leaves the swapchain and the depth image as
/// one resize does, and touches nothing else.
pub proof fn lemma_resize_idempotent(v: RendererView, width: u32, height: u32)
    ensures
        resized(resized(v, width, height), width, height) == resized(v, width, height),
        resized(v, width, height).phase == v.phase,
{
}

/// Position of a phase in the order of a frame's work.
pub open spec fn stage_of(phase: FramePhase) -> nat {
    match phase {
        FramePhase::Idle => 0,
        FramePhase::UploadingInstances => 1,
        FramePhase::UploadingCamera => 2,
        FramePhase::Acquiring { .. } => 3,
        FramePhase::Recording => 4,
        FramePhase::Presenting => 5,
        FramePhase::Failed => 6,
    }
}

/// A frame moves through its stages in order, one at a time: both uploads
/// come before the image is acquired, and nothing is recorded before an image
/// is held. The image is requested again at most once per frame, and only
/// after an outdated or lost surface.
pub proof fn lemma_frame_order(phase: FramePhase, event: FrameEvent, swapchain: SwapchainConfig)
    ensures
        ({
            let (next, action) = frame_transition(phase, event, swapchain);
            &&& next == phase || next == FramePhase::Failed || stage_of(next) == stage_of(phase)
                + 1 || (phase == FramePhase::Presenting && next == FramePhase::Idle) || (phase
                == FramePhase::Acquiring { retried: false } && next == FramePhase::Acquiring {
                retried: true,
            })
            &&& action == FrameAction::AcquireImage ==> phase == FramePhase::UploadingCamera
            &&& action == FrameAction::RecordAndSubmit ==> stage_of(phase) == 3
            &&& (action is ReconfigureAndAcquire) ==> phase == FramePhase::Acquiring {
                retried: false,
            } && (event == FrameEvent::AcquireFailed(SurfaceError::Outdated) || event
                == FrameEvent::AcquireFailed(SurfaceError::Lost))
            &&& phase == FramePhase::Failed ==> next == FramePhase::Failed
        }),
{
}

} // verus!
