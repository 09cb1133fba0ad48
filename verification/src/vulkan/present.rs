//! Drawing on every swapchain of a call to present.

use crate::backend::{added, Backends, WindowBackend};
use crate::event::OverlayEvent;
use crate::render::{DxInterop, OverlaySurface};
use crate::vulkan::queue::{
    draw_overlay, overlay_after, overlay_step, DrawEvent, OverlayStep, Present,
};
use crate::vulkan::swapchain::{renderer_of, SwapchainData, SwapchainInfo, Swapchains};
use vstd::prelude::*;

verus! {

/// What happened to the swapchain that is drawn on.
#[derive(Debug, Clone, Copy, PartialEq, Eq)]
pub enum PresentEvent {
    /// The swapchain is next.
    Start,
    /// The device and the size of its window, if the device's adapter was found.
    Adapter(Option<(DxInterop, (u32, u32))>),
    /// Whether a renderer was made and put in its place.
    Made(bool),
    /// Whether the texture was updated.
    Updated(bool),
    /// The semaphore that the draw signals, if anything was drawn.
    Drawn(Option<u64>),
}

/// How far the drawing has come, and so what to do next.
#[derive(Debug, Clone, Copy, PartialEq, Eq)]
pub enum PresentStage {
    /// Go on with the next swapchain.
    Starting,
    /// Find the adapter of a window that is not known yet.
    FindAdapter { hwnd: u32 },
    MakeRenderer { info: SwapchainInfo },
    UpdateTexture { surface: Option<OverlaySurface> },
    Draw { position: (i32, i32), size: (u32, u32), screen: (u32, u32) },
    Over,
}

/// The drawing on the swapchains of a call to present.
#[derive(Debug)]
pub struct Presenting {
    pub drawing: Present,
    pub stage: PresentStage,
}

#[verifier::ext_equal]
pub ghost struct PresentingView {
    pub swapchains: Seq<u64>,
    pub indices: Seq<u32>,
    pub next: nat,
    pub semaphores: Seq<u64>,
    pub stage: PresentStage,
}

impl View for Presenting {
    type V = PresentingView;

    open spec fn view(&self) -> PresentingView {
        PresentingView {
            swapchains: self.drawing.swapchains@,
            indices: self.drawing.indices@,
            next: self.drawing.next as nat,
            semaphores: self.drawing.semaphores@,
            stage: self.stage,
        }
    }
}

impl PresentingView {
    /// There is an image for each swapchain, and a swapchain that is drawn on is one of them.
    pub open spec fn wf(self) -> bool {
        &&& self.swapchains.len() == self.indices.len()
        &&& self.next <= self.swapchains.len()
        &&& !(self.stage is Starting || self.stage is Over) ==> self.next < self.swapchains.len()
        &&& self.stage is Over ==> self.next == self.swapchains.len()
    }

    /// Whether `event` is what is to be done.
    pub open spec fn awaits(self, event: PresentEvent) -> bool {
        match self.stage {
            PresentStage::Starting => event is Start,
            PresentStage::FindAdapter { .. } => event is Adapter,
            PresentStage::MakeRenderer { .. } => event is Made,
            PresentStage::UpdateTexture { .. } => event is Updated,
            PresentStage::Draw { .. } => event is Drawn,
            PresentStage::Over => false,
        }
    }

    /// The swapchain that is drawn on.
    pub open spec fn target(self) -> u64 {
        self.swapchains[self.next as int]
    }

    /// The drawing after the draw on a swapchain gave `semaphore`, or nothing.
    pub open spec fn drawn(self, semaphore: Option<u64>) -> PresentingView {
        PresentingView {
            next: self.next + 1,
            semaphores: match semaphore {
                Some(semaphore) => self.semaphores.push(semaphore),
                None => self.semaphores,
            },
            stage: PresentStage::Starting,
            ..self
        }
    }

    /// The drawing at the stage to which a decision about the swapchain's window leads.
    pub open spec fn decided(self, info: SwapchainInfo, step: OverlayStep) -> PresentingView {
        match step {
            OverlayStep::Skip => self.drawn(None),
            OverlayStep::MakeRenderer => PresentingView {
                stage: PresentStage::MakeRenderer { info },
                ..self
            },
            OverlayStep::UpdateTexture { surface } => PresentingView {
                stage: PresentStage::UpdateTexture { surface },
                ..self
            },
            OverlayStep::Draw { position, size, screen } => PresentingView {
                stage: PresentStage::Draw { position, size, screen },
                ..self
            },
        }
    }

    /// The decision that `event` asks for, if it asks for one.
    pub open spec fn question(
        self,
        swapchains: Map<u64, SwapchainData>,
        event: PresentEvent,
    ) -> Option<DrawEvent> {
        match event {
            PresentEvent::Start => Some(
                DrawEvent::Presented { has_renderer: renderer_of(swapchains, self.target()) is Some },
            ),
            PresentEvent::Adapter(Some(_)) => Some(
                DrawEvent::Presented { has_renderer: renderer_of(swapchains, self.target()) is Some },
            ),
            PresentEvent::Adapter(None) => None,
            PresentEvent::Made(made) => Some(DrawEvent::RendererMade(made)),
            PresentEvent::Updated(updated) => Some(DrawEvent::TextureUpdated(updated)),
            PresentEvent::Drawn(_) => None,
        }
    }

    /// The windows once a window whose adapter was found is known.
    pub open spec fn known(
        self,
        swapchains: Map<u64, SwapchainData>,
        backends: Map<u32, WindowBackend>,
        event: PresentEvent,
    ) -> Map<u32, WindowBackend> {
        let hwnd = swapchains[self.target()].hwnd;
        match event {
            PresentEvent::Adapter(Some((interop, size))) => {
                if swapchains.dom().contains(self.target()) && !backends.dom().contains(hwnd) {
                    backends.insert(hwnd, WindowBackend::initial(interop, size))
                } else {
                    backends
                }
            },
            _ => backends,
        }
    }

    /// The drawing after `event`.
    pub open spec fn told(
        self,
        swapchains: Map<u64, SwapchainData>,
        backends: Map<u32, WindowBackend>,
        event: PresentEvent,
    ) -> PresentingView {
        let target = self.target();
        let info = swapchains[target].info();
        let windows = self.known(swapchains, backends, event);
        if event is Start && self.next == self.swapchains.len() {
            PresentingView { stage: PresentStage::Over, ..self }
        } else if let PresentEvent::Drawn(semaphore) = event {
            self.drawn(semaphore)
        } else if !swapchains.dom().contains(target) || event == PresentEvent::Adapter(None) {
            self.drawn(None)
        } else if !windows.dom().contains(info.hwnd) {
            if event is Start {
                PresentingView { stage: PresentStage::FindAdapter { hwnd: info.hwnd }, ..self }
            } else {
                self.drawn(None)
            }
        } else {
            self.decided(
                info,
                overlay_step(
                    windows[info.hwnd].render,
                    self.question(swapchains, event)->0,
                ),
            )
        }
    }

    /// The windows after `event`.
    pub open spec fn backends_after(
        self,
        swapchains: Map<u64, SwapchainData>,
        backends: Map<u32, WindowBackend>,
        event: PresentEvent,
    ) -> Map<u32, WindowBackend> {
        let target = self.target();
        let hwnd = swapchains[target].hwnd;
        let windows = self.known(swapchains, backends, event);
        if event is Start && self.next == self.swapchains.len() {
            backends
        } else if !swapchains.dom().contains(target) || !windows.dom().contains(hwnd) {
            backends
        } else {
            match self.question(swapchains, event) {
                Some(question) => windows.insert(
                    hwnd,
                    WindowBackend {
                        render: overlay_after(windows[hwnd].render, question),
                        ..windows[hwnd]
                    },
                ),
                None => windows,
            }
        }
    }
}

impl Presenting {
    /// Begins to draw on the swapchains.
    pub fn new(drawing: Present) -> (r: Presenting)
        requires
            drawing.wf(),
        ensures
            r.drawing == drawing,
            r.stage is Starting,
            r@.wf(),
    {
        Presenting { drawing, stage: PresentStage::Starting }
    }

    fn drawn(&mut self, semaphore: Option<u64>)
        requires
            old(self)@.wf(),
            old(self)@.next < old(self)@.swapchains.len(),
        ensures
            final(self)@ == old(self)@.drawn(semaphore),
            final(self)@.wf(),
    {
        self.drawing.drawn(semaphore);
        self.stage = PresentStage::Starting;
    }

    fn decide(
        &mut self,
        backends: &mut Backends,
        info: SwapchainInfo,
        backend: WindowBackend,
        question: DrawEvent,
    )
        requires
            old(self)@.wf(),
            old(self)@.next < old(self)@.swapchains.len(),
        ensures
            final(self)@ == old(self)@.decided(info, overlay_step(backend.render, question)),
            final(self)@.wf(),
            final(backends)@ == old(backends)@.insert(
                info.hwnd,
                WindowBackend { render: overlay_after(backend.render, question), ..backend },
            ),
    {
        let mut changed = backend;
        let step = draw_overlay(&mut changed.render, question);
        backends.put(info.hwnd, changed);
        match step {
            OverlayStep::Skip => {
                self.drawn(None);
            },
            OverlayStep::MakeRenderer => {
                self.stage = PresentStage::MakeRenderer { info };
            },
            OverlayStep::UpdateTexture { surface } => {
                self.stage = PresentStage::UpdateTexture { surface };
            },
            OverlayStep::Draw { position, size, screen } => {
                self.stage = PresentStage::Draw { position, size, screen };
            },
        }
    }

    /// Tells the drawing what happened. A swapchain that is not known is passed over, and so is
    /// one whose window's adapter is not found. The event tells of a window that became known.
    pub fn advance(
        &mut self,
        swapchains: &mut Swapchains,
        backends: &mut Backends,
        event: PresentEvent,
    ) -> (r: Option<OverlayEvent>)
        requires
            old(self)@.wf(),
            old(self)@.awaits(event),
        ensures
            final(self)@ == old(self)@.told(old(swapchains)@, old(backends)@, event),
            final(self)@.wf(),
            final(swapchains)@ == old(swapchains)@,
            final(backends)@ == old(self)@.backends_after(
                old(swapchains)@,
                old(backends)@,
                event,
            ),
            r == (match event {
                PresentEvent::Adapter(Some((interop, size))) => {
                    let hwnd = old(swapchains)@[old(self)@.target()].hwnd;
                    if old(swapchains)@.dom().contains(old(self)@.target()) && !old(
                        backends,
                    )@.dom().contains(hwnd) {
                        Some(added(hwnd, WindowBackend::initial(interop, size)))
                    } else {
                        None
                    }
                },
                _ => None,
            }),
    {
        let target: u64 = match self.drawing.target() {
            Some((swapchain, _)) => swapchain,
            None => {
                self.stage = PresentStage::Over;
                return None;
            },
        };
        if let PresentEvent::Drawn(semaphore) = event {
            self.drawn(semaphore);
            return None;
        }
        let info = match swapchains.get(target) {
            Some(info) => info,
            None => {
                self.drawn(None);
                return None;
            },
        };
        let mut told: Option<OverlayEvent> = None;
        let question = match event {
            PresentEvent::Start => {
                DrawEvent::Presented { has_renderer: swapchains.has_renderer(target) }
            },
            PresentEvent::Adapter(found) => match found {
                Some((interop, size)) => {
                    told = backends.init_backend(info.hwnd, interop, size);
                    DrawEvent::Presented { has_renderer: swapchains.has_renderer(target) }
                },
                None => {
                    self.drawn(None);
                    return None;
                },
            },
            PresentEvent::Made(made) => DrawEvent::RendererMade(made),
            PresentEvent::Updated(updated) => DrawEvent::TextureUpdated(updated),
            PresentEvent::Drawn(_) => return None,
        };
        match backends.get(info.hwnd) {
            Some(backend) => {
                self.decide(backends, info, backend, question);
            },
            None => {
                if let PresentEvent::Start = event {
                    self.stage = PresentStage::FindAdapter { hwnd: info.hwnd };
                } else {
                    self.drawn(None);
                }
            },
        }
        told
    }
}

/// What happened, and the swapchains and windows that there were then.
pub ghost struct Moment {
    pub swapchains: Map<u64, SwapchainData>,
    pub backends: Map<u32, WindowBackend>,
    pub event: PresentEvent,
}

/// The drawing after what happened.
pub open spec fn presenting_run(start: PresentingView, moments: Seq<Moment>) -> PresentingView
    decreases moments.len(),
{
    if moments.len() == 0 {
        start
    } else {
        let now = moments.last();
        presenting_run(start, moments.drop_last()).told(now.swapchains, now.backends, now.event)
    }
}

/// Whether each event is what was to be done.
pub open spec fn presenting_awaits(start: PresentingView, moments: Seq<Moment>) -> bool
    decreases moments.len(),
{
    moments.len() == 0 || (presenting_awaits(start, moments.drop_last()) && presenting_run(
        start,
        moments.drop_last(),
    ).awaits(moments.last().event))
}

/// The semaphores that draws gave.
pub open spec fn given(moments: Seq<Moment>) -> Seq<u64>
    decreases moments.len(),
{
    if moments.len() == 0 {
        Seq::empty()
    } else {
        match moments.last().event {
            PresentEvent::Drawn(Some(semaphore)) => given(moments.drop_last()).push(semaphore),
            _ => given(moments.drop_last()),
        }
    }
}

/// Whatever becomes of swapchains and windows meanwhile, the drawing is over only once every
/// swapchain was gone through, and the present then waits for exactly the semaphores that draws
/// gave, in their order.
pub proof fn law_present_waits_for_draws(start: PresentingView, moments: Seq<Moment>)
    requires
        start.wf(),
        start.stage is Starting,
        start.next == 0,
        start.semaphores.len() == 0,
        presenting_awaits(start, moments),
    ensures
        ({
            let now = presenting_run(start, moments);
            &&& now.wf()
            &&& now.swapchains == start.swapchains
            &&& now.indices == start.indices
            &&& now.semaphores == given(moments)
            &&& now.stage is Over ==> now.next == start.swapchains.len()
        }),
    decreases moments.len(),
{
    if moments.len() > 0 {
        law_present_waits_for_draws(start, moments.drop_last());
    } else {
        assert(start.semaphores =~= Seq::<u64>::empty());
    }
}

/// What is decided for a window is what is done next on its swapchain: nothing, and then the next
/// swapchain is due; or a renderer for the swapchain, its texture, or the draw at its place.
pub proof fn law_decision_kept(now: PresentingView, info: SwapchainInfo, step: OverlayStep)
    ensures
        ({
            let after = now.decided(info, step);
            &&& after.swapchains == now.swapchains
            &&& after.indices == now.indices
            &&& after.semaphores == now.semaphores
            &&& match step {
                OverlayStep::Skip => after.stage is Starting && after.next == now.next + 1,
                OverlayStep::MakeRenderer => after.stage == (PresentStage::MakeRenderer { info })
                    && after.next == now.next,
                OverlayStep::UpdateTexture { surface } => after.stage == (
                PresentStage::UpdateTexture { surface }) && after.next == now.next,
                OverlayStep::Draw { position, size, screen } => after.stage == (
                PresentStage::Draw { position, size, screen }) && after.next == now.next,
            }
        }),
{
}

/// Where a swapchain and its window are known, what is decided follows from the window and from
/// whether the swapchain has a renderer; where the window is not known its adapter is looked for
/// once, and a swapchain that is not known is passed over. A draw that gave a semaphore adds it.
pub proof fn law_present_leads_on(
    now: PresentingView,
    swapchains: Map<u64, SwapchainData>,
    backends: Map<u32, WindowBackend>,
    event: PresentEvent,
)
    requires
        now.wf(),
        now.awaits(event),
        now.next < now.swapchains.len(),
    ensures
        ({
            let after = now.told(swapchains, backends, event);
            let target = now.swapchains[now.next as int];
            let data = swapchains[target];
            let known = swapchains.dom().contains(target);
            let passed = PresentingView { next: now.next + 1, stage: PresentStage::Starting, ..now };
            let has_renderer = data.renderer is Some;
            &&& event matches PresentEvent::Drawn(Some(semaphore)) ==> after == (PresentingView {
                semaphores: now.semaphores.push(semaphore),
                ..passed
            })
            &&& event == PresentEvent::Drawn(None) ==> after == passed
            &&& !(event is Drawn) && !known ==> after == passed
            &&& event == PresentEvent::Adapter(None) ==> after == passed
            &&& known && !backends.dom().contains(data.hwnd) ==> match event {
                PresentEvent::Start => after == (PresentingView {
                    stage: PresentStage::FindAdapter { hwnd: data.hwnd },
                    ..now
                }),
                PresentEvent::Adapter(Some((interop, size))) => after == now.decided(
                    data.info(),
                    overlay_step(
                        WindowBackend::initial(interop, size).render,
                        DrawEvent::Presented { has_renderer },
                    ),
                ),
                PresentEvent::Drawn(_) => true,
                _ => after == passed,
            }
            &&& known && backends.dom().contains(data.hwnd) ==> {
                let render = backends[data.hwnd].render;
                match event {
                    PresentEvent::Start => after == now.decided(
                        data.info(),
                        overlay_step(render, DrawEvent::Presented { has_renderer }),
                    ),
                    PresentEvent::Adapter(Some(_)) => after == now.decided(
                        data.info(),
                        overlay_step(render, DrawEvent::Presented { has_renderer }),
                    ),
                    PresentEvent::Made(made) => after == now.decided(
                        data.info(),
                        overlay_step(render, DrawEvent::RendererMade(made)),
                    ),
                    PresentEvent::Updated(updated) => after == now.decided(
                        data.info(),
                        overlay_step(render, DrawEvent::TextureUpdated(updated)),
                    ),
                    _ => true,
                }
            }
        }),
{
}

/// Only the window of the swapchain that is drawn on changes: it becomes known once its adapter is
/// found, and what was decided for it is noted.
pub proof fn law_present_changes(
    now: PresentingView,
    swapchains: Map<u64, SwapchainData>,
    backends: Map<u32, WindowBackend>,
    event: PresentEvent,
    other: u32,
)
    requires
        now.wf(),
        now.awaits(event),
        now.next < now.swapchains.len(),
    ensures
        ({
            let after = now.backends_after(swapchains, backends, event);
            let target = now.swapchains[now.next as int];
            let data = swapchains[target];
            let hwnd = data.hwnd;
            let has_renderer = data.renderer is Some;
            let known = swapchains.dom().contains(target);
            &&& !known ==> after == backends
            &&& other != hwnd ==> after.dom().contains(other) == backends.dom().contains(other)
            &&& other != hwnd && backends.dom().contains(other) ==> after[other] == backends[other]
            &&& event is Drawn || event == PresentEvent::Adapter(None) ==> after == backends
            &&& known && !backends.dom().contains(hwnd) ==> match event {
                PresentEvent::Adapter(Some((interop, size))) => {
                    let begun = WindowBackend::initial(interop, size);
                    after.dom().contains(hwnd) && after[hwnd] == (WindowBackend {
                        render: overlay_after(begun.render, DrawEvent::Presented { has_renderer }),
                        ..begun
                    })
                },
                _ => after == backends,
            }
            &&& known && backends.dom().contains(hwnd) ==> {
                let was = backends[hwnd];
                after.dom().contains(hwnd) && match event {
                    PresentEvent::Start => after[hwnd] == (WindowBackend {
                        render: overlay_after(was.render, DrawEvent::Presented { has_renderer }),
                        ..was
                    }),
                    PresentEvent::Made(made) => after[hwnd] == (WindowBackend {
                        render: overlay_after(was.render, DrawEvent::RendererMade(made)),
                        ..was
                    }),
                    PresentEvent::Updated(updated) => after[hwnd] == (WindowBackend {
                        render: overlay_after(was.render, DrawEvent::TextureUpdated(updated)),
                        ..was
                    }),
                    _ => true,
                }
            }
        }),
{
}

/// Once every swapchain was gone through, the drawing is over.
pub proof fn law_present_over(
    now: PresentingView,
    swapchains: Map<u64, SwapchainData>,
    backends: Map<u32, WindowBackend>,
)
    requires
        now.wf(),
        now.stage is Starting,
        now.next == now.swapchains.len(),
    ensures
        now.told(swapchains, backends, PresentEvent::Start).stage is Over,
        now.told(swapchains, backends, PresentEvent::Start).semaphores == now.semaphores,
        now.backends_after(swapchains, backends, PresentEvent::Start) == backends,
{
}

} // verus!
