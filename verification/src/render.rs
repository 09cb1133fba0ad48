//! What a window is drawn with: its renderer, its overlay surface, and whether the renderer has
//! seen the surface yet.

use crate::event::GpuLuid;
use vstd::prelude::*;

verus! {

/// Graphics API that a window is drawn with.
#[derive(Debug, Clone, Copy, PartialEq, Eq, Hash, Structural)]
#[non_exhaustive]
pub enum Renderer {
    Dx12,
    Dx11,
    Dx9,
    Opengl,
    Vulkan,
}

/// The device that overlay surfaces are opened on, by the adapter it belongs to.
#[derive(Debug, Clone, Copy, PartialEq, Eq, Structural)]
pub struct DxInterop {
    pub gpu_id: GpuLuid,
}

/// An opened overlay surface.
#[derive(Debug, Clone, Copy, PartialEq, Eq)]
pub struct OverlaySurface {
    /// Name of the opened texture.
    pub texture: u64,
    /// Width and height in pixels.
    pub size: (u32, u32),
    /// Handle by which the texture is shared, if it is; never zero.
    pub shared_handle: Option<u32>,
}

/// The shared texture that a renderer is to draw from now on, if any. The handle is never zero.
#[derive(Debug, Clone, Copy, PartialEq, Eq, Structural)]
pub struct UpdateSharedHandle {
    pub handle: Option<u32>,
}

/// The overlay surface of a window, and whether it changed since a renderer last asked.
#[derive(Debug, Clone, Copy, PartialEq, Eq)]
pub struct SurfaceState {
    pub inner: Option<OverlaySurface>,
    pub updated: bool,
}

impl SurfaceState {
    /// No surface, and no renderer knows that yet.
    pub open spec fn fresh() -> SurfaceState {
        SurfaceState { inner: None, updated: true }
    }

    /// The state after the surface was replaced.
    pub open spec fn replaced(self, inner: Option<OverlaySurface>) -> SurfaceState {
        SurfaceState { inner, updated: true }
    }

    /// The state once a renderer has asked.
    pub open spec fn seen(self) -> SurfaceState {
        SurfaceState { inner: self.inner, updated: false }
    }

    /// What a renderer that asks is told.
    pub open spec fn pending(self) -> Option<UpdateSharedHandle> {
        if self.updated {
            Some(
                UpdateSharedHandle {
                    handle: match self.inner {
                        Some(surface) => surface.shared_handle,
                        None => None,
                    },
                },
            )
        } else {
            None
        }
    }

    /// A state without a surface.
    pub fn new() -> (r: SurfaceState)
        ensures
            r == SurfaceState::fresh(),
    {
        SurfaceState { inner: None, updated: true }
    }

    /// The surface, if there is one.
    pub fn get(&self) -> (r: Option<&OverlaySurface>)
        ensures
            r == (match self.inner {
                Some(surface) => Some(&surface),
                None => None,
            }),
    {
        self.inner.as_ref()
    }

    /// Replaces the surface. `opened` is what opening the new handle gave, or nothing where there
    /// is no new handle. Where opening failed, the window is left without a surface.
    pub fn update<E>(&mut self, opened: Option<Result<OverlaySurface, E>>) -> (r: Result<(), E>)
        ensures
            *final(self) == old(self).replaced(
                match opened {
                    Some(Ok(surface)) => Some(surface),
                    _ => None,
                },
            ),
            match opened {
                Some(Err(err)) => r == Err::<(), E>(err),
                _ => r is Ok,
            },
    {
        self.updated = true;
        self.inner = None;
        match opened {
            Some(Ok(surface)) => {
                self.inner = Some(surface);
                Ok(())
            },
            Some(Err(err)) => Err(err),
            None => Ok(()),
        }
    }

    /// Tells a renderer, once per change, which shared texture to draw.
    pub fn take_update(&mut self) -> (r: Option<UpdateSharedHandle>)
        ensures
            r == old(self).pending(),
            *final(self) == old(self).seen(),
    {
        if self.updated {
            self.updated = false;
            let handle = match &self.inner {
                Some(surface) => surface.shared_handle,
                None => None,
            };
            Some(UpdateSharedHandle { handle })
        } else {
            None
        }
    }

    /// Tells a renderer, once per change, that the surface changed.
    pub fn invalidate_update(&mut self) -> (r: bool)
        ensures
            r == old(self).updated,
            *final(self) == old(self).seen(),
    {
        if self.updated {
            self.updated = false;
            true
        } else {
            false
        }
    }
}

/// What one window is drawn with.
#[derive(Debug, Clone, Copy, PartialEq, Eq)]
pub struct RenderData {
    pub interop: DxInterop,
    /// Where the overlay stands in the window.
    pub position: (i32, i32),
    pub window_size: (u32, u32),
    pub surface: SurfaceState,
    /// Graphics API of the window, once one has presented to it.
    pub renderer: Option<Renderer>,
}

impl RenderData {
    /// A window that nothing has been drawn to.
    pub fn new(interop: DxInterop, window_size: (u32, u32)) -> (r: RenderData)
        ensures
            r.interop == interop,
            r.window_size == window_size,
            r.surface == SurfaceState::fresh(),
            r.position == (0i32, 0i32),
            r.renderer is None,
    {
        RenderData {
            interop,
            surface: SurfaceState::new(),
            position: (0, 0),
            window_size,
            renderer: None,
        }
    }

    /// The data after the surface and its position were dropped.
    pub open spec fn cleared(self) -> RenderData {
        RenderData { surface: SurfaceState::fresh(), position: (0i32, 0i32), ..self }
    }

    /// Drops the surface and its position.
    pub fn reset(&mut self)
        ensures
            *final(self) == old(self).cleared(),
    {
        self.surface = SurfaceState::new();
        self.position = (0, 0);
    }

    /// Replaces the surface, as [`SurfaceState::update`] does.
    pub fn update_surface<E>(&mut self, opened: Option<Result<OverlaySurface, E>>) -> (r: Result<
        (),
        E,
    >)
        ensures
            *final(self) == (RenderData {
                surface: old(self).surface.replaced(
                    match opened {
                        Some(Ok(surface)) => Some(surface),
                        _ => None,
                    },
                ),
                ..*old(self)
            }),
            match opened {
                Some(Err(err)) => r == Err::<(), E>(err),
                _ => r is Ok,
            },
    {
        self.surface.update(opened)
    }

    /// The data after renderers were made to look at the surface again.
    pub open spec fn invalidated(self) -> RenderData {
        RenderData { surface: SurfaceState { updated: true, ..self.surface }, ..self }
    }

    /// Makes renderers look at the surface again.
    pub fn invalidate_surface(&mut self)
        ensures
            *final(self) == old(self).invalidated(),
    {
        self.surface.updated = true;
    }
}

/// A change of the surface is told once: a renderer that asks again is told nothing.
pub proof fn law_update_told_once(state: SurfaceState)
    ensures
        state.seen().pending() is None,
        !state.seen().updated,
{
}

/// After every change of the surface, and after an invalidation, the next renderer that asks is
/// told the handle of the surface that is there now.
pub proof fn law_change_is_told(
    state: SurfaceState,
    inner: Option<OverlaySurface>,
    data: RenderData,
)
    ensures
        state.replaced(inner).pending() == Some(
            UpdateSharedHandle {
                handle: match inner {
                    Some(surface) => surface.shared_handle,
                    None => None,
                },
            },
        ),
        data.invalidated().surface.pending() == Some(
            UpdateSharedHandle {
                handle: match data.surface.inner {
                    Some(surface) => surface.shared_handle,
                    None => None,
                },
            },
        ),
        data.cleared().surface.pending() == Some(UpdateSharedHandle { handle: None }),
{
}

/// A state is replaced by exactly the surface that is given, whatever it was, and to be asked by a
/// renderer leaves the surface as it is.
pub proof fn law_surface_kept(state: SurfaceState, inner: Option<OverlaySurface>)
    ensures
        state.replaced(inner).inner == inner,
        state.replaced(inner).updated,
        state.seen().inner == state.inner,
        !state.seen().updated,
        SurfaceState::fresh().inner is None,
        SurfaceState::fresh().updated,
        state.pending() is Some <==> state.updated,
{
}

/// To drop the surface, or to have renderers look at it again, leaves the window's size, adapter
/// and renderer alone; the latter leaves the position and the surface itself alone as well.
pub proof fn law_reset_and_invalidate(data: RenderData)
    ensures
        data.cleared().surface.inner is None,
        data.cleared().position.0 == 0 && data.cleared().position.1 == 0,
        data.cleared().interop == data.interop,
        data.cleared().window_size == data.window_size,
        data.cleared().renderer == data.renderer,
        data.invalidated().surface.inner == data.surface.inner,
        data.invalidated().surface.updated,
        data.invalidated().interop == data.interop,
        data.invalidated().position == data.position,
        data.invalidated().window_size == data.window_size,
        data.invalidated().renderer == data.renderer,
        data.invalidated().invalidated() == data.invalidated(),
{
}

} // verus!
