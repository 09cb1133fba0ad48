//! Drawing the overlay in programs that present with Direct3D 11.

use crate::render::{RenderData, Renderer, UpdateSharedHandle};
use crate::renderers::Renderers;
use vstd::prelude::*;

verus! {

/// Creation flag of a device that one thread uses.
pub const CREATE_DEVICE_SINGLETHREADED: u32 = 1;

/// Flag of a context state that one thread uses.
pub const CONTEXT_STATE_SINGLETHREADED: u32 = 1;

pub const FEATURE_LEVEL_11_0: i32 = 0xb000;

pub const SDK_VERSION: u32 = 7;

/// What is drawn in a window.
#[derive(Debug, Clone, Copy, PartialEq, Eq)]
pub struct DrawPlan {
    /// The texture to draw from now on, where it changed.
    pub update: Option<UpdateSharedHandle>,
    pub position: (i32, i32),
    pub size: (u32, u32),
    pub screen: (u32, u32),
}

/// What is drawn in a window.
pub open spec fn plan(render: RenderData) -> Option<DrawPlan> {
    if render.renderer == Some(Renderer::Dx11) {
        match render.surface.inner {
            Some(surface) => Some(
                DrawPlan {
                    update: render.surface.pending(),
                    position: render.position,
                    size: surface.size,
                    screen: render.window_size,
                },
            ),
            None => None,
        }
    } else {
        None
    }
}

/// The window after a present. The first renderer that presents to a window takes it, and one
/// that OpenGL has taken is taken over: to draw with OpenGL on such a swapchain can deadlock.
pub open spec fn presented(render: RenderData) -> RenderData {
    match render.renderer {
        None => RenderData { renderer: Some(Renderer::Dx11), ..render },
        Some(Renderer::Opengl) => RenderData { renderer: Some(Renderer::Dx11), ..render },
        Some(Renderer::Dx11) => if render.surface.inner is Some {
            RenderData { surface: render.surface.seen(), ..render }
        } else {
            render
        },
        Some(_) => render,
    }
}

/// Decides what to draw in a window.
pub fn draw_overlay(render: &mut RenderData) -> (r: Option<DrawPlan>)
    ensures
        r == plan(*old(render)),
        *final(render) == presented(*old(render)),
{
    match render.renderer {
        Some(Renderer::Dx11) => {},
        Some(Renderer::Opengl) => {
            render.renderer = Some(Renderer::Dx11);
            return None;
        },
        Some(_) => return None,
        None => {
            render.renderer = Some(Renderer::Dx11);
            return None;
        },
    }
    let size = match render.surface.get() {
        Some(surface) => surface.size,
        None => return None,
    };
    let update = render.surface.take_update();
    Some(DrawPlan { update, position: render.position, size, screen: render.window_size })
}

/// A window that another renderer but OpenGL has taken is neither drawn nor changed, and no
/// window is drawn at the present at which it is taken.
pub proof fn law_renderer_claim(render: RenderData)
    ensures
        render.renderer is Some && render.renderer != Some(Renderer::Dx11) && render.renderer
            != Some(Renderer::Opengl) ==> plan(render) is None && presented(render) == render,
        render.renderer is None || render.renderer == Some(Renderer::Opengl) ==> plan(render)
            is None && presented(render).renderer == Some(Renderer::Dx11),
{
}

/// While there is no surface, a change stays to be told: the present at which the surface is
/// there tells it.
pub proof fn law_update_waits_for_surface(render: RenderData)
    requires
        render.renderer == Some(Renderer::Dx11),
        render.surface.inner is None,
    ensures
        presented(render) == render,
{
}

/// The flag of the context state for a device.
pub open spec fn state_flag(creation_flags: u32) -> u32 {
    if creation_flags & CREATE_DEVICE_SINGLETHREADED != 0 {
        CONTEXT_STATE_SINGLETHREADED
    } else {
        0
    }
}

/// The flag of the context state for a device: one thread uses it where one uses the device.
pub fn context_state_flag(creation_flags: u32) -> (r: u32)
    ensures
        r == state_flag(creation_flags),
{
    if creation_flags & CREATE_DEVICE_SINGLETHREADED != 0 {
        CONTEXT_STATE_SINGLETHREADED
    } else {
        0
    }
}

/// The renderer of a swapchain: the one it has, or else the one that was made for it, if any was.
pub fn with_or_init_renderer_data<E>(
    renderers: &mut Renderers,
    swapchain: u64,
    made: Result<u64, E>,
) -> (r: Result<u64, E>)
    ensures
        old(renderers)@.dom().contains(swapchain) ==> r == Ok::<u64, E>(old(renderers)@[swapchain]),
        old(renderers)@.dom().contains(swapchain) ==> final(renderers)@ == old(renderers)@,
        !old(renderers)@.dom().contains(swapchain) ==> r == made && final(renderers)@ == (
        match made {
            Ok(renderer) => old(renderers)@.insert(swapchain, renderer),
            Err(_) => old(renderers)@,
        }),
{
    renderers.get_or_insert(swapchain, made)
}

/// Forgets the renderer of a swapchain that goes. The renderer is handed back to be given up.
pub fn cleanup_swapchain(renderers: &mut Renderers, swapchain: u64) -> (r: Option<u64>)
    ensures
        final(renderers)@ == old(renderers)@.remove(swapchain),
        r == (if old(renderers)@.dom().contains(swapchain) {
            Some(old(renderers)@[swapchain])
        } else {
            None
        }),
{
    renderers.forget(swapchain)
}

/// How far the making of a renderer has come, and so what to ask of the device.
#[derive(Debug, Clone, Copy, PartialEq, Eq, Structural)]
pub enum RendererInit {
    GetDevice,
    /// Make a context state of a feature level with a flag. That it is not made is a fault of the program.
    CreateState { flag: u32, feature_level: i32, sdk_version: u32 },
    CreateRenderer,
    /// Have the renderer forgotten once the swapchain goes.
    RegisterCleanup,
    Ready,
    Failed,
}

/// What came back from the device.
#[derive(Debug, Clone, Copy, PartialEq, Eq, Structural)]
pub enum InitReply {
    /// The creation flags of the device, if the swapchain gave it.
    Device(Option<u32>),
    /// Whether the call succeeded.
    Done(bool),
}

impl RendererInit {
    /// Whether `reply` answers what is asked.
    pub open spec fn awaits(self, reply: InitReply) -> bool {
        match self {
            RendererInit::GetDevice => reply is Device,
            RendererInit::CreateState { .. } => reply == InitReply::Done(true),
            RendererInit::CreateRenderer => reply is Done,
            RendererInit::RegisterCleanup => reply is Done,
            RendererInit::Ready => false,
            RendererInit::Failed => false,
        }
    }

    /// Where the making stands after `reply`. The renderer is there even where its cleanup could
    /// not be registered.
    pub open spec fn next(self, reply: InitReply) -> RendererInit {
        match (self, reply) {
            (RendererInit::GetDevice, InitReply::Device(Some(flags))) => {
                RendererInit::CreateState {
                    flag: state_flag(flags),
                    feature_level: FEATURE_LEVEL_11_0,
                    sdk_version: SDK_VERSION,
                }
            },
            (RendererInit::CreateState { .. }, _) => RendererInit::CreateRenderer,
            (RendererInit::CreateRenderer, InitReply::Done(true)) => RendererInit::RegisterCleanup,
            (RendererInit::RegisterCleanup, _) => RendererInit::Ready,
            _ => RendererInit::Failed,
        }
    }

    /// Tells what came back from the device.
    pub fn advance(&mut self, reply: InitReply)
        requires
            old(self).awaits(reply),
        ensures
            *final(self) == old(self).next(reply),
    {
        *self =
        match (*self, reply) {
            (RendererInit::GetDevice, InitReply::Device(Some(flags))) => {
                RendererInit::CreateState {
                    flag: context_state_flag(flags),
                    feature_level: FEATURE_LEVEL_11_0,
                    sdk_version: SDK_VERSION,
                }
            },
            (RendererInit::CreateState { .. }, _) => RendererInit::CreateRenderer,
            (RendererInit::CreateRenderer, InitReply::Done(made)) => {
                if made {
                    RendererInit::RegisterCleanup
                } else {
                    RendererInit::Failed
                }
            },
            (RendererInit::RegisterCleanup, _) => RendererInit::Ready,
            _ => RendererInit::Failed,
        };
    }
}

/// Why nothing was drawn.
#[derive(Debug, Clone, Copy, PartialEq, Eq, Structural)]
pub enum DrawError {
    Context,
    BackBuffer,
    CreateTarget,
    NoTarget,
    /// The renderer failed.
    Renderer,
}

impl DrawError {
    pub open spec fn text(self) -> Option<Seq<char>> {
        match self {
            DrawError::Context => Some("failed to get dx11 immediate context"@),
            DrawError::BackBuffer => Some("failed to get dx11 backbuffer"@),
            DrawError::CreateTarget => Some("failed to create rtv"@),
            DrawError::NoTarget => Some("dx11 rtv was not created"@),
            DrawError::Renderer => None,
        }
    }

    /// What went wrong, where the renderer does not tell.
    pub fn message(&self) -> (r: Option<&'static str>)
        ensures
            match r {
                Some(text) => self.text() == Some(text@),
                None => self.text() is None,
            },
    {
        match self {
            DrawError::Context => Some("failed to get dx11 immediate context"),
            DrawError::BackBuffer => Some("failed to get dx11 backbuffer"),
            DrawError::CreateTarget => Some("failed to create rtv"),
            DrawError::NoTarget => Some("dx11 rtv was not created"),
            DrawError::Renderer => None,
        }
    }
}

/// What came back from the device.
#[derive(Debug, Clone, Copy, PartialEq, Eq, Structural)]
pub enum DrawReply {
    /// Whether the call succeeded.
    Done(bool),
    /// Whether the render target was made, and if so whether that gave anything.
    Target(Option<bool>),
}

/// How far a draw has come, and so what to ask of the device.
#[derive(Debug, Clone, Copy, PartialEq, Eq, Structural)]
pub enum DrawStage {
    /// Give the renderer another texture.
    UpdateTexture(UpdateSharedHandle),
    GetContext,
    /// Put the renderer's state in place of the program's, which is kept. Done is whether there
    /// was one to keep.
    SwapState,
    GetBackBuffer,
    CreateTarget,
    SetTarget,
    Draw,
    ClearTarget { error: Option<DrawError> },
    RestoreState { error: Option<DrawError> },
    Finished { error: Option<DrawError> },
}

impl DrawStage {
    /// Whether `reply` answers what is asked.
    pub open spec fn awaits(self, reply: DrawReply) -> bool {
        match self {
            DrawStage::CreateTarget => reply is Target,
            DrawStage::Finished { .. } => false,
            _ => reply is Done,
        }
    }

    /// Where a draw begins.
    pub open spec fn first(update: Option<UpdateSharedHandle>) -> DrawStage {
        match update {
            Some(update) => DrawStage::UpdateTexture(update),
            None => DrawStage::GetContext,
        }
    }

    /// Where the draw stands after `reply`.
    pub open spec fn next(self, reply: DrawReply) -> DrawStage {
        let done = reply == DrawReply::Done(true);
        match self {
            DrawStage::UpdateTexture(_) => DrawStage::GetContext,
            DrawStage::GetContext => if done {
                DrawStage::SwapState
            } else {
                DrawStage::Finished { error: Some(DrawError::Context) }
            },
            DrawStage::SwapState => if done {
                DrawStage::GetBackBuffer
            } else {
                DrawStage::Finished { error: None }
            },
            DrawStage::GetBackBuffer => if done {
                DrawStage::CreateTarget
            } else {
                DrawStage::RestoreState { error: Some(DrawError::BackBuffer) }
            },
            DrawStage::CreateTarget => match reply {
                DrawReply::Target(Some(true)) => DrawStage::SetTarget,
                DrawReply::Target(Some(false)) => {
                    DrawStage::RestoreState { error: Some(DrawError::NoTarget) }
                },
                _ => DrawStage::RestoreState { error: Some(DrawError::CreateTarget) },
            },
            DrawStage::SetTarget => DrawStage::Draw,
            DrawStage::Draw => DrawStage::ClearTarget {
                error: if done {
                    None
                } else {
                    Some(DrawError::Renderer)
                },
            },
            DrawStage::ClearTarget { error } => DrawStage::RestoreState { error },
            DrawStage::RestoreState { error } => DrawStage::Finished { error },
            over => over,
        }
    }

    /// Begins a draw.
    pub fn begin(update: Option<UpdateSharedHandle>) -> (r: DrawStage)
        ensures
            r == DrawStage::first(update),
    {
        match update {
            Some(update) => DrawStage::UpdateTexture(update),
            None => DrawStage::GetContext,
        }
    }

    /// Tells the draw what came back from the device.
    pub fn advance(&mut self, reply: DrawReply)
        requires
            old(self).awaits(reply),
        ensures
            *final(self) == old(self).next(reply),
    {
        let done = match reply {
            DrawReply::Done(done) => done,
            DrawReply::Target(_) => false,
        };
        *self =
        match *self {
            DrawStage::UpdateTexture(_) => DrawStage::GetContext,
            DrawStage::GetContext => if done {
                DrawStage::SwapState
            } else {
                DrawStage::Finished { error: Some(DrawError::Context) }
            },
            DrawStage::SwapState => if done {
                DrawStage::GetBackBuffer
            } else {
                DrawStage::Finished { error: None }
            },
            DrawStage::GetBackBuffer => if done {
                DrawStage::CreateTarget
            } else {
                DrawStage::RestoreState { error: Some(DrawError::BackBuffer) }
            },
            DrawStage::CreateTarget => match reply {
                DrawReply::Target(Some(true)) => DrawStage::SetTarget,
                DrawReply::Target(Some(false)) => {
                    DrawStage::RestoreState { error: Some(DrawError::NoTarget) }
                },
                _ => DrawStage::RestoreState { error: Some(DrawError::CreateTarget) },
            },
            DrawStage::SetTarget => DrawStage::Draw,
            DrawStage::Draw => DrawStage::ClearTarget {
                error: if done {
                    None
                } else {
                    Some(DrawError::Renderer)
                },
            },
            DrawStage::ClearTarget { error } => DrawStage::RestoreState { error },
            DrawStage::RestoreState { error } => DrawStage::Finished { error },
            over => over,
        };
    }
}

/// The draw after `replies`.
pub open spec fn draw_run(start: DrawStage, replies: Seq<DrawReply>) -> DrawStage
    decreases replies.len(),
{
    if replies.len() == 0 {
        start
    } else {
        draw_run(start, replies.drop_last()).next(replies.last())
    }
}

/// Whether each of `replies` answers what the draw asked.
pub open spec fn draw_awaits(start: DrawStage, replies: Seq<DrawReply>) -> bool
    decreases replies.len(),
{
    replies.len() == 0 || (draw_awaits(start, replies.drop_last()) && draw_run(
        start,
        replies.drop_last(),
    ).awaits(replies.last()))
}

/// What a draw has changed of the program's context and not put back.
pub open spec fn borrowed(start: DrawStage, replies: Seq<DrawReply>) -> (bool, bool)
    decreases replies.len(),
{
    if replies.len() == 0 {
        (false, false)
    } else {
        let (state, target) = borrowed(start, replies.drop_last());
        match draw_run(start, replies.drop_last()) {
            DrawStage::SwapState => (replies.last() == DrawReply::Done(true), target),
            DrawStage::SetTarget => (state, true),
            DrawStage::ClearTarget { .. } => (state, false),
            DrawStage::RestoreState { .. } => (false, target),
            _ => (state, target),
        }
    }
}

/// However a draw ends, the program's state and its render targets are put back, the targets
/// first.
pub proof fn law_context_restored(
    update: Option<UpdateSharedHandle>,
    replies: Seq<DrawReply>,
)
    requires
        draw_awaits(DrawStage::first(update), replies),
    ensures
        ({
            let start = DrawStage::first(update);
            match draw_run(start, replies) {
                DrawStage::Finished { .. } => borrowed(start, replies) == (false, false),
                DrawStage::RestoreState { .. } => borrowed(start, replies) == (true, false),
                DrawStage::Draw => borrowed(start, replies) == (true, true),
                DrawStage::ClearTarget { .. } => borrowed(start, replies) == (true, true),
                DrawStage::GetBackBuffer => borrowed(start, replies) == (true, false),
                DrawStage::CreateTarget => borrowed(start, replies) == (true, false),
                DrawStage::SetTarget => borrowed(start, replies) == (true, false),
                _ => borrowed(start, replies) == (false, false),
            }
        }),
    decreases replies.len(),
{
    if replies.len() > 0 {
        law_context_restored(update, replies.drop_last());
    }
}

/// A window that is drawn with Direct3D 11 is drawn exactly where it has a surface: at its own
/// position, in the surface's size and on its own screen; a texture is told where it changed, and
/// then it is the surface's.
pub proof fn law_drawn_in_place(render: RenderData)
    ensures
        plan(render) is Some <==> render.renderer == Some(Renderer::Dx11)
            && render.surface.inner is Some,
        plan(render) matches Some(draw) ==> {
            &&& draw.position == render.position
            &&& draw.screen == render.window_size
            &&& render.surface.inner matches Some(surface) && draw.size == surface.size
            &&& draw.update is Some <==> render.surface.updated
            &&& draw.update matches Some(update) ==> update.handle
                == render.surface.inner->0.shared_handle
        },
{
}

/// A present takes a window that none or OpenGL has taken, and notes that a change of the surface
/// was told where it was; it changes nothing else.
pub proof fn law_present_changes(render: RenderData)
    ensures
        ({
            let after = presented(render);
            &&& after.position == render.position
            &&& after.window_size == render.window_size
            &&& after.interop == render.interop
            &&& after.surface.inner == render.surface.inner
            &&& plan(render) is Some ==> !after.surface.updated
            &&& plan(render) is None ==> after.surface == render.surface
            &&& render.renderer == Some(Renderer::Dx11) ==> after.renderer == render.renderer
        }),
{
}

/// A context state is for one thread exactly where the lowest bit of the device's creation flags
/// is set.
pub proof fn law_state_flag(creation_flags: u32)
    ensures
        creation_flags % 2 == 1 ==> state_flag(creation_flags) == 1,
        creation_flags % 2 == 0 ==> state_flag(creation_flags) == 0,
{
    assert(creation_flags & 1 == creation_flags % 2) by (bit_vector);
}

/// What is asked for a renderer next follows from what was asked and what came back.
pub proof fn law_init_leads_on(init: RendererInit, reply: InitReply)
    requires
        init.awaits(reply),
    ensures
        match (init, reply) {
            (RendererInit::GetDevice, InitReply::Device(Some(flags))) => init.next(reply) == (
            RendererInit::CreateState {
                flag: state_flag(flags),
                feature_level: 0xb000,
                sdk_version: 7,
            }),
            (RendererInit::GetDevice, InitReply::Device(None)) => init.next(reply) is Failed,
            (RendererInit::CreateState { .. }, _) => init.next(reply) is CreateRenderer,
            (RendererInit::CreateRenderer, InitReply::Done(true)) => init.next(reply)
                is RegisterCleanup,
            (RendererInit::CreateRenderer, InitReply::Done(false)) => init.next(reply) is Failed,
            (RendererInit::RegisterCleanup, _) => init.next(reply) is Ready,
            _ => false,
        },
{
}

/// What a draw asks next follows from what it asked and what came back, and each failure is named
/// for what failed. A texture that is not updated, and a context without a state, are no failure.
pub proof fn law_draw_leads_on(draw: DrawStage, reply: DrawReply)
    requires
        draw.awaits(reply),
    ensures
        match (draw, reply) {
            (DrawStage::UpdateTexture(_), _) => draw.next(reply) is GetContext,
            (DrawStage::GetContext, DrawReply::Done(true)) => draw.next(reply) is SwapState,
            (DrawStage::GetContext, _) => draw.next(reply) == (DrawStage::Finished {
                error: Some(DrawError::Context),
            }),
            (DrawStage::SwapState, DrawReply::Done(true)) => draw.next(reply) is GetBackBuffer,
            (DrawStage::SwapState, _) => draw.next(reply) == (DrawStage::Finished { error: None }),
            (DrawStage::GetBackBuffer, DrawReply::Done(true)) => draw.next(reply) is CreateTarget,
            (DrawStage::GetBackBuffer, _) => draw.next(reply) == (DrawStage::RestoreState {
                error: Some(DrawError::BackBuffer),
            }),
            (DrawStage::CreateTarget, DrawReply::Target(Some(true))) => draw.next(reply)
                is SetTarget,
            (DrawStage::CreateTarget, DrawReply::Target(Some(false))) => draw.next(reply) == (
            DrawStage::RestoreState { error: Some(DrawError::NoTarget) }),
            (DrawStage::CreateTarget, _) => draw.next(reply) == (DrawStage::RestoreState {
                error: Some(DrawError::CreateTarget),
            }),
            (DrawStage::SetTarget, _) => draw.next(reply) is Draw,
            (DrawStage::Draw, DrawReply::Done(true)) => draw.next(reply) == (
            DrawStage::ClearTarget { error: None }),
            (DrawStage::Draw, _) => draw.next(reply) == (DrawStage::ClearTarget {
                error: Some(DrawError::Renderer),
            }),
            (DrawStage::ClearTarget { error }, _) => draw.next(reply) == (DrawStage::RestoreState {
                error,
            }),
            (DrawStage::RestoreState { error }, _) => draw.next(reply) == (DrawStage::Finished {
                error,
            }),
            _ => false,
        },
{
}

/// A draw begins with the texture, exactly where there is another one, and with that one.
pub proof fn law_draw_begins(update: Option<UpdateSharedHandle>)
    ensures
        update matches Some(other) ==> DrawStage::first(update) == DrawStage::UpdateTexture(other),
        update is None ==> DrawStage::first(update) is GetContext,
{
}

} // verus!
