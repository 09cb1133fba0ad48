//! Presenting, with the overlay drawn first.

use crate::render::{OverlaySurface, RenderData, Renderer};
use crate::vulkan::swapchain::RESULT_ERROR_UNKNOWN;
use vstd::prelude::*;

verus! {

/// What to do about a call to present.
#[derive(Debug)]
pub enum PresentStart {
    /// Return the result to the program.
    Return(i32),
    /// Present as the program asked.
    Through,
    /// Draw on each swapchain first.
    Draw(Present),
}

/// Drawing on the swapchains of a call to present.
#[derive(Debug)]
pub struct Present {
    pub swapchains: Vec<u64>,
    pub indices: Vec<u32>,
    pub next: usize,
    pub semaphores: Vec<u64>,
}

/// How to present.
#[derive(Debug)]
pub enum PresentEnd {
    /// As the program asked.
    Through,
    /// The same images, after these semaphores in place of the program's.
    After(Vec<u64>),
}

/// The semaphores among what the draws gave.
pub open spec fn signalled(drawn: Seq<Option<u64>>) -> Seq<u64>
    decreases drawn.len(),
{
    if drawn.len() == 0 {
        Seq::empty()
    } else {
        match drawn.last() {
            Some(semaphore) => signalled(drawn.drop_last()).push(semaphore),
            None => signalled(drawn.drop_last()),
        }
    }
}

impl Present {
    /// The images to present are one for each swapchain.
    pub open spec fn wf(self) -> bool {
        self.swapchains@.len() == self.indices@.len() && self.next <= self.swapchains@.len()
    }

    /// The draws so far gave `drawn`.
    pub open spec fn after(self, drawn: Seq<Option<u64>>) -> bool {
        self.next == drawn.len() && self.semaphores@ == signalled(drawn)
    }

    /// The swapchain to draw on next, and the image.
    pub fn target(&self) -> (r: Option<(u64, u32)>)
        requires
            self.wf(),
        ensures
            r == (if self.next < self.swapchains@.len() {
                Some((self.swapchains@[self.next as int], self.indices@[self.next as int]))
            } else {
                None
            }),
    {
        if self.next < self.swapchains.len() {
            Some((self.swapchains[self.next], self.indices[self.next]))
        } else {
            None
        }
    }

    /// Goes on after the draw on a swapchain gave `semaphore`, or nothing.
    pub fn drawn(&mut self, semaphore: Option<u64>)
        requires
            old(self).wf(),
            old(self).next < old(self).swapchains@.len(),
        ensures
            final(self).wf(),
            final(self).swapchains@ == old(self).swapchains@,
            final(self).indices@ == old(self).indices@,
            final(self).next == old(self).next + 1,
            final(self).semaphores@ == (match semaphore {
                Some(semaphore) => old(self).semaphores@.push(semaphore),
                None => old(self).semaphores@,
            }),
            forall|drawn: Seq<Option<u64>>|
                old(self).after(drawn) ==> final(self).after(#[trigger] drawn.push(semaphore)),
    {
        if let Some(semaphore) = semaphore {
            self.semaphores.push(semaphore);
        }
        assert(self.next < self.swapchains.len());
        self.next = self.next + 1;
        assert forall|drawn: Seq<Option<u64>>| old(self).after(drawn) implies self.after(
            #[trigger] drawn.push(semaphore),
        ) by {
            assert(drawn.push(semaphore).drop_last() =~= drawn);
        }
    }

    /// Ends the drawing.
    pub fn finish(self) -> (r: PresentEnd)
        ensures
            match r {
                PresentEnd::Through => self.semaphores@.len() == 0,
                PresentEnd::After(semaphores) => self.semaphores@.len() > 0 && semaphores@
                    == self.semaphores@,
            },
    {
        if self.semaphores.len() > 0 {
            PresentEnd::After(self.semaphores)
        } else {
            PresentEnd::Through
        }
    }
}

/// Answers a call to present. `queue` is whether the queue is known, `dispatch` whether its
/// device is, and `connected` whether a client is there.
pub fn present(
    queue: bool,
    dispatch: bool,
    connected: bool,
    swapchains: Vec<u64>,
    indices: Vec<u32>,
) -> (r: PresentStart)
    requires
        swapchains@.len() == indices@.len(),
    ensures
        match r {
            PresentStart::Return(result) => !(queue && dispatch) && result == RESULT_ERROR_UNKNOWN,
            PresentStart::Through => queue && dispatch && !connected,
            PresentStart::Draw(present) => {
                &&& queue && dispatch && connected
                &&& present.wf()
                &&& present.swapchains@ == swapchains@
                &&& present.indices@ == indices@
                &&& present.after(Seq::empty())
            },
        },
{
    if !queue {
        return PresentStart::Return(RESULT_ERROR_UNKNOWN);
    }
    if !dispatch {
        return PresentStart::Return(RESULT_ERROR_UNKNOWN);
    }
    if !connected {
        return PresentStart::Through;
    }
    PresentStart::Draw(Present { swapchains, indices, next: 0, semaphores: Vec::new() })
}

/// The program's own semaphores are replaced exactly where something was drawn, and then by one
/// semaphore for each draw that gave one.
pub proof fn law_semaphores(drawn: Seq<Option<u64>>)
    ensures
        signalled(drawn).len() <= drawn.len(),
        signalled(drawn).len() == 0 <==> forall|i: int|
            0 <= i < drawn.len() ==> (#[trigger] drawn[i]) is None,
        forall|s: u64| #[trigger]
            signalled(drawn).contains(s) <==> drawn.contains(Some(s)),
    decreases drawn.len(),
{
    if drawn.len() > 0 {
        let before = drawn.drop_last();
        law_semaphores(before);
        let n = before.len() as int;
        assert(forall|i: int| 0 <= i < n ==> before[i] == drawn[i]);
        if drawn.last() is None {
            if signalled(drawn).len() == 0 {
                assert forall|i: int| 0 <= i < drawn.len() implies (#[trigger] drawn[i]) is None by {
                    if i < n {
                        assert(before[i] is None);
                    }
                }
            }
        } else {
            assert(drawn[n] is Some);
        }
        assert forall|s: u64| #[trigger] signalled(drawn).contains(s) <==> drawn.contains(
            Some(s),
        ) by {
            let list = signalled(before);
            assert(drawn =~= before.push(drawn.last()));
            if drawn.contains(Some(s)) {
                let i = choose|i: int| 0 <= i < drawn.len() && drawn[i] == Some(s);
                if i < n {
                    assert(before[i] == Some(s));
                    assert(list.contains(s));
                    let j = list.index_of(s);
                    assert(signalled(drawn)[j] == s);
                } else {
                    assert(signalled(drawn)[list.len() as int] == s);
                }
            }
            if signalled(drawn).contains(s) {
                let j = signalled(drawn).index_of(s);
                if j < list.len() {
                    assert(list[j] == s);
                    assert(list.contains(s));
                    assert(before.contains(Some(s)));
                    let i = before.index_of(Some(s));
                    assert(drawn[i] == Some(s));
                } else {
                    assert(drawn[n] == Some(s));
                }
            }
        }
    }
}

/// What happened to a window that is drawn with vulkan.
#[derive(Debug, Clone, Copy, PartialEq, Eq, Structural)]
pub enum DrawEvent {
    /// The program presents to it. Says whether its swapchain has a renderer.
    Presented { has_renderer: bool },
    /// The renderer was made, or not.
    RendererMade(bool),
    /// The texture was updated, or not.
    TextureUpdated(bool),
}

/// What to do to draw the overlay.
#[derive(Debug, Clone, Copy, PartialEq, Eq)]
pub enum OverlayStep {
    /// Draw nothing.
    Skip,
    MakeRenderer,
    /// Give the renderer the texture of the surface, or none.
    UpdateTexture { surface: Option<OverlaySurface> },
    Draw { position: (i32, i32), size: (u32, u32), screen: (u32, u32) },
}

/// The step that draws, if there is a surface.
pub open spec fn draw_step(render: RenderData) -> OverlayStep {
    match render.surface.inner {
        Some(surface) => OverlayStep::Draw {
            position: render.position,
            size: surface.size,
            screen: render.window_size,
        },
        None => OverlayStep::Skip,
    }
}

/// The step of a renderer that is there: it looks at the surface first, if that changed.
pub open spec fn surface_step(render: RenderData) -> OverlayStep {
    if render.surface.updated {
        OverlayStep::UpdateTexture { surface: render.surface.inner }
    } else {
        draw_step(render)
    }
}

/// The window after a renderer has looked at the surface.
pub open spec fn surface_seen(render: RenderData) -> RenderData {
    RenderData { surface: render.surface.seen(), ..render }
}

/// What to do after `event`.
pub open spec fn overlay_step(render: RenderData, event: DrawEvent) -> OverlayStep {
    match event {
        DrawEvent::Presented { has_renderer } => {
            if render.renderer != Some(Renderer::Vulkan) {
                OverlayStep::Skip
            } else if !has_renderer {
                OverlayStep::MakeRenderer
            } else {
                surface_step(render)
            }
        },
        DrawEvent::RendererMade(made) => if made {
            surface_step(render)
        } else {
            OverlayStep::Skip
        },
        DrawEvent::TextureUpdated(updated) => if updated {
            draw_step(render)
        } else {
            OverlayStep::Skip
        },
    }
}

/// The window after `event`. The first renderer that presents to a window takes it.
pub open spec fn overlay_after(render: RenderData, event: DrawEvent) -> RenderData {
    match event {
        DrawEvent::Presented { has_renderer } => {
            if render.renderer is None {
                RenderData { renderer: Some(Renderer::Vulkan), ..render }
            } else if render.renderer == Some(Renderer::Vulkan) && has_renderer {
                surface_seen(render)
            } else {
                render
            }
        },
        DrawEvent::RendererMade(made) => if made {
            surface_seen(render)
        } else {
            render
        },
        DrawEvent::TextureUpdated(_) => render,
    }
}

fn draw_surface(render: &RenderData) -> (r: OverlayStep)
    ensures
        r == draw_step(*render),
{
    match render.surface.get() {
        Some(surface) => OverlayStep::Draw {
            position: render.position,
            size: surface.size,
            screen: render.window_size,
        },
        None => OverlayStep::Skip,
    }
}

fn look_at_surface(render: &mut RenderData) -> (r: OverlayStep)
    ensures
        r == surface_step(*old(render)),
        *final(render) == surface_seen(*old(render)),
{
    if render.surface.invalidate_update() {
        OverlayStep::UpdateTexture { surface: render.surface.inner }
    } else {
        draw_surface(render)
    }
}

/// Decides how to draw the overlay. A window that another renderer has taken is left alone, and
/// one that none has taken is taken and drawn from the next present on.
pub fn draw_overlay(render: &mut RenderData, event: DrawEvent) -> (r: OverlayStep)
    ensures
        r == overlay_step(*old(render), event),
        *final(render) == overlay_after(*old(render), event),
{
    match event {
        DrawEvent::Presented { has_renderer } => match render.renderer {
            Some(Renderer::Vulkan) => if has_renderer {
                look_at_surface(render)
            } else {
                OverlayStep::MakeRenderer
            },
            Some(_) => OverlayStep::Skip,
            None => {
                render.renderer = Some(Renderer::Vulkan);
                OverlayStep::Skip
            },
        },
        DrawEvent::RendererMade(made) => if made {
            look_at_surface(render)
        } else {
            OverlayStep::Skip
        },
        DrawEvent::TextureUpdated(updated) => if updated {
            draw_surface(render)
        } else {
            OverlayStep::Skip
        },
    }
}

/// A window that another renderer has taken is neither drawn nor changed, and no window is drawn
/// at the present at which it is taken.
pub proof fn law_renderer_claim(render: RenderData, has_renderer: bool)
    ensures
        render.renderer is Some && render.renderer != Some(Renderer::Vulkan) ==> {
            let event = DrawEvent::Presented { has_renderer };
            overlay_step(render, event) == OverlayStep::Skip && overlay_after(render, event)
                == render
        },
        render.renderer is None ==> {
            let event = DrawEvent::Presented { has_renderer };
            &&& overlay_step(render, event) == OverlayStep::Skip
            &&& overlay_after(render, event).renderer == Some(Renderer::Vulkan)
        },
{
}

/// A change of the surface reaches the renderer once: after it has looked, the next present
/// draws.
pub proof fn law_texture_updated_once(render: RenderData)
    requires
        render.renderer == Some(Renderer::Vulkan),
    ensures
        ({
            let event = DrawEvent::Presented { has_renderer: true };
            let next = overlay_after(render, event);
            overlay_step(next, event) == draw_step(render)
        }),
{
}

/// A surface is drawn at the window's position, in its own size and on the window's screen; where
/// there is none nothing is drawn.
pub proof fn law_drawn_in_place(render: RenderData)
    ensures
        render.surface.inner matches Some(surface) ==> draw_step(render) == (OverlayStep::Draw {
            position: render.position,
            size: surface.size,
            screen: render.window_size,
        }),
        render.surface.inner is None ==> draw_step(render) == OverlayStep::Skip,
{
}

/// What to do follows from what happened, and from what there is: a window that is drawn with
/// vulkan gets a renderer where it has none, its texture where it has changed, and is drawn
/// otherwise. Where a renderer was not made or a texture not updated, nothing is drawn.
pub proof fn law_overlay_leads_on(render: RenderData, event: DrawEvent)
    ensures
        ({
            let looks = if render.surface.updated {
                OverlayStep::UpdateTexture { surface: render.surface.inner }
            } else {
                draw_step(render)
            };
            overlay_step(render, event) == (match event {
                DrawEvent::Presented { has_renderer } => {
                    if render.renderer == Some(Renderer::Vulkan) {
                        if has_renderer {
                            looks
                        } else {
                            OverlayStep::MakeRenderer
                        }
                    } else {
                        OverlayStep::Skip
                    }
                },
                DrawEvent::RendererMade(true) => looks,
                DrawEvent::TextureUpdated(true) => draw_step(render),
                _ => OverlayStep::Skip,
            })
        }),
{
}

/// A window is taken by the first to present to it and by none after, a change of its surface
/// counts as seen exactly where it is looked at, and nothing else of it changes.
pub proof fn law_overlay_changes(render: RenderData, event: DrawEvent)
    ensures
        ({
            let after = overlay_after(render, event);
            let looked = match event {
                DrawEvent::Presented { has_renderer } => has_renderer && render.renderer == Some(
                    Renderer::Vulkan,
                ),
                DrawEvent::RendererMade(made) => made,
                DrawEvent::TextureUpdated(_) => false,
            };
            &&& render.renderer is Some ==> after.renderer == render.renderer
            &&& render.renderer is None && event is Presented ==> after.renderer == Some(
                Renderer::Vulkan,
            )
            &&& !(event is Presented) ==> after.renderer == render.renderer
            &&& after.surface.inner == render.surface.inner
            &&& looked ==> !after.surface.updated
            &&& !looked ==> after.surface == render.surface
            &&& after.position == render.position
            &&& after.window_size == render.window_size
            &&& after.interop == render.interop
        }),
{
}

} // verus!
