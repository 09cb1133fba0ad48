//! The windows that the overlay can be drawn in.

use crate::event::{OverlayEvent, WindowEvent};
use crate::render::{DxInterop, OverlaySurface, RenderData, SurfaceState};
use crate::request::{Cursor, PercentLength, WindowRequest};
use dashmap::DashMap;
use vstd::prelude::*;

verus! {

/// Where the overlay stands in a window.
#[derive(Debug, Clone, Copy, PartialEq, Eq)]
pub struct WindowLayout {
    pub position: (PercentLength, PercentLength),
    pub anchor: (PercentLength, PercentLength),
    /// Top, right, bottom and left.
    pub margin: (PercentLength, PercentLength, PercentLength, PercentLength),
}

impl WindowLayout {
    /// The layout in the window's upper left corner.
    pub open spec fn initial() -> WindowLayout {
        let zero = PercentLength::Length(0);
        WindowLayout {
            position: (zero, zero),
            anchor: (zero, zero),
            margin: (zero, zero, zero, zero),
        }
    }

    pub fn new() -> (r: WindowLayout)
        ensures
            r == WindowLayout::initial(),
    {
        let zero = PercentLength::Length(0);
        WindowLayout {
            position: (zero, zero),
            anchor: (zero, zero),
            margin: (zero, zero, zero, zero),
        }
    }
}

/// Which input of a window the client is told of.
#[derive(Debug, Clone, Copy, PartialEq, Eq, Structural)]
pub struct ListenInputFlags {
    pub cursor: bool,
    pub keyboard: bool,
}

/// A rectangle of the screen.
#[derive(Debug, Clone, Copy, PartialEq, Eq, Structural)]
pub struct ScreenRect {
    pub left: i32,
    pub top: i32,
    pub right: i32,
    pub bottom: i32,
}

/// What is kept for a window while its input is blocked.
#[derive(Debug, Clone, Copy, PartialEq, Eq, Structural)]
pub struct InputBlockData {
    /// Where the window confined the cursor to, if it did.
    pub clip_cursor: Option<ScreenRect>,
}

/// What happens to the input of a window.
#[derive(Debug, Clone, Copy, PartialEq, Eq, Structural)]
pub struct WindowProc {
    pub listen: ListenInputFlags,
    pub blocking_state: Option<InputBlockData>,
    pub blocking_cursor: Option<Cursor>,
}

impl WindowProc {
    /// Nothing is listened to and nothing is blocked.
    pub open spec fn initial() -> WindowProc {
        WindowProc {
            listen: ListenInputFlags { cursor: false, keyboard: false },
            blocking_state: None,
            blocking_cursor: None,
        }
    }

    pub fn new() -> (r: WindowProc)
        ensures
            r == WindowProc::initial(),
    {
        WindowProc {
            listen: ListenInputFlags { cursor: false, keyboard: false },
            blocking_state: None,
            blocking_cursor: None,
        }
    }

    /// Whether the window's input is blocked.
    pub fn input_blocking(&self) -> (r: bool)
        ensures
            r == self.blocking_state is Some,
    {
        self.blocking_state.is_some()
    }
}

/// A window that the overlay can be drawn in.
#[derive(Debug, Clone, Copy, PartialEq, Eq)]
pub struct WindowBackend {
    pub layout: WindowLayout,
    pub proc: WindowProc,
    pub render: RenderData,
}

impl WindowBackend {
    /// A window that nothing was asked of.
    pub open spec fn initial(interop: DxInterop, window_size: (u32, u32)) -> WindowBackend {
        WindowBackend {
            layout: WindowLayout::initial(),
            proc: WindowProc::initial(),
            render: RenderData {
                interop,
                position: (0i32, 0i32),
                window_size,
                surface: SurfaceState::fresh(),
                renderer: None,
            },
        }
    }

    pub fn new(interop: DxInterop, window_size: (u32, u32)) -> (r: WindowBackend)
        ensures
            r == WindowBackend::initial(interop, window_size),
    {
        WindowBackend {
            layout: WindowLayout::new(),
            proc: WindowProc::new(),
            render: RenderData::new(interop, window_size),
        }
    }

    /// The window without anything that a client asked of it.
    pub open spec fn cleared(self) -> WindowBackend {
        WindowBackend {
            layout: WindowLayout::initial(),
            proc: WindowProc::initial(),
            render: self.render.cleared(),
        }
    }

    /// Forgets what a client asked of the window.
    pub fn reset(&mut self)
        ensures
            *final(self) == old(self).cleared(),
    {
        self.layout = WindowLayout::new();
        self.proc = WindowProc::new();
        self.render.reset();
    }

    /// The window after `request`, where that needs no surface to be opened.
    pub open spec fn applied(self, request: WindowRequest) -> WindowBackend {
        match request {
            WindowRequest::SetPosition(position) => WindowBackend {
                layout: WindowLayout { position: (position.x, position.y), ..self.layout },
                ..self
            },
            WindowRequest::SetAnchor(anchor) => WindowBackend {
                layout: WindowLayout { anchor: (anchor.x, anchor.y), ..self.layout },
                ..self
            },
            WindowRequest::SetMargin(margin) => WindowBackend {
                layout: WindowLayout {
                    margin: (margin.top, margin.right, margin.bottom, margin.left),
                    ..self.layout
                },
                ..self
            },
            WindowRequest::ListenInput(cmd) => WindowBackend {
                proc: WindowProc {
                    listen: ListenInputFlags { cursor: cmd.cursor, keyboard: cmd.keyboard },
                    ..self.proc
                },
                ..self
            },
            WindowRequest::BlockInput(cmd) => WindowBackend {
                proc: WindowProc {
                    blocking_state: if !cmd.block {
                        None
                    } else if self.proc.blocking_state is Some {
                        self.proc.blocking_state
                    } else {
                        Some(InputBlockData { clip_cursor: None })
                    },
                    ..self.proc
                },
                ..self
            },
            WindowRequest::SetBlockingCursor(cmd) => WindowBackend {
                proc: WindowProc { blocking_cursor: cmd.cursor, ..self.proc },
                ..self
            },
            WindowRequest::UpdateSharedHandle(_) => self.with_surface(None),
        }
    }

    /// The window with its surface replaced.
    pub open spec fn with_surface(self, inner: Option<OverlaySurface>) -> WindowBackend {
        WindowBackend {
            render: RenderData {
                surface: self.render.surface.replaced(inner),
                ..self.render
            },
            ..self
        }
    }

    /// Does what a request asks of the window. A request for a shared surface leaves the window
    /// without one.
    pub fn apply(&mut self, request: WindowRequest)
        ensures
            *final(self) == old(self).applied(request),
    {
        match request {
            WindowRequest::SetPosition(position) => {
                self.layout.position = (position.x, position.y);
            },
            WindowRequest::SetAnchor(anchor) => {
                self.layout.anchor = (anchor.x, anchor.y);
            },
            WindowRequest::SetMargin(margin) => {
                self.layout.margin = (margin.top, margin.right, margin.bottom, margin.left);
            },
            WindowRequest::ListenInput(cmd) => {
                self.proc.listen = ListenInputFlags { cursor: cmd.cursor, keyboard: cmd.keyboard };
            },
            WindowRequest::BlockInput(cmd) => {
                if !cmd.block {
                    self.proc.blocking_state = None;
                } else if !self.proc.input_blocking() {
                    self.proc.blocking_state = Some(InputBlockData { clip_cursor: None });
                }
            },
            WindowRequest::SetBlockingCursor(cmd) => {
                self.proc.blocking_cursor = cmd.cursor;
            },
            WindowRequest::UpdateSharedHandle(_) => {
                self.render.surface.inner = None;
                self.render.surface.updated = true;
            },
        }
    }
}

/// A map that many threads can use at once.
#[verifier::external_type_specification]
#[verifier::external_body]
#[verifier::reject_recursive_types(K)]
#[verifier::reject_recursive_types(V)]
#[verifier::reject_recursive_types(S)]
pub struct ExDashMap<K, V, S>(dashmap::DashMap<K, V, S>);

/// What a map of windows holds.
pub uninterp spec fn backend_entries(map: DashMap<u32, WindowBackend>) -> Map<u32, WindowBackend>;

/// Makes a map with `DashMap::new`: it is empty.
#[verifier::external_body]
fn map_new() -> (r: DashMap<u32, WindowBackend>)
    ensures
        (backend_entries(r) == (Map::<u32, WindowBackend>::empty())),
{
    DashMap::new()
}

/// Reads an entry with `DashMap::get`: the value under the key, if the key is there.
#[verifier::external_body]
fn map_get(map: &DashMap<u32, WindowBackend>, key: u32) -> (r: Option<WindowBackend>)
    ensures
        r == (if backend_entries(*map).dom().contains(key) {
            Some(backend_entries(*map)[key])
        } else {
            None
        }),
{
    map.get(&key).map(|entry| *entry)
}

/// Writes an entry with `DashMap::insert`: afterwards the key has the value, and the other
/// entries are what they were.
#[verifier::external_body]
fn map_insert(map: &mut DashMap<u32, WindowBackend>, key: u32, value: WindowBackend)
    ensures
        backend_entries(*final(map)) == backend_entries(*old(map)).insert(key, value),
{
    map.insert(key, value);
}

/// Takes an entry out with `DashMap::remove`: its value, if the key was there. Afterwards it is
/// not, and the other entries are what they were.
#[verifier::external_body]
fn map_remove(map: &mut DashMap<u32, WindowBackend>, key: u32) -> (r: Option<WindowBackend>)
    ensures
        backend_entries(*final(map)) == backend_entries(*old(map)).remove(key),
        r == (if backend_entries(*old(map)).dom().contains(key) {
            Some(backend_entries(*old(map))[key])
        } else {
            None
        }),
{
    map.remove(&key).map(|entry| entry.1)
}

/// Walks the map with `DashMap::iter`: every key comes once. The order in which they come is not
/// stated, for the map does not fix it.
#[verifier::external_body]
fn map_keys(map: &DashMap<u32, WindowBackend>) -> (r: Vec<u32>)
    ensures
        r@.no_duplicates(),
        forall|key: u32| #[trigger] r@.contains(key) <==> backend_entries(*map).dom().contains(key),
{
    map.iter().map(|entry| *entry.key()).collect()
}

/// Every window that the overlay can be drawn in, by its handle.
#[derive(Debug)]
pub struct Backends {
    map: DashMap<u32, WindowBackend>,
}

impl View for Backends {
    type V = Map<u32, WindowBackend>;

    closed spec fn view(&self) -> Map<u32, WindowBackend> {
        backend_entries(self.map)
    }
}

/// What is to be done for a request.
#[derive(Debug, Clone, Copy, PartialEq, Eq, Structural)]
pub enum WindowOutcome {
    /// The client is to be told whether the request was met.
    Reply(bool),
    /// The shared texture is to be opened first.
    OpenSurface { handle: u32 },
}

/// The event by which a client is told of a window.
pub open spec fn added(id: u32, backend: WindowBackend) -> OverlayEvent {
    OverlayEvent::Window {
        id,
        event: WindowEvent::Added {
            width: backend.render.window_size.0,
            height: backend.render.window_size.1,
            gpu_id: backend.render.interop.gpu_id,
        },
    }
}

/// What is to be done for a request to window `id`. A window that is not known meets none.
pub open spec fn request_outcome(
    backends: Map<u32, WindowBackend>,
    id: u32,
    request: WindowRequest,
) -> WindowOutcome {
    if !backends.dom().contains(id) {
        WindowOutcome::Reply(false)
    } else {
        match request {
            WindowRequest::UpdateSharedHandle(update) => match update.handle {
                Some(handle) => WindowOutcome::OpenSurface { handle },
                None => WindowOutcome::Reply(true),
            },
            _ => WindowOutcome::Reply(true),
        }
    }
}

/// The windows after a request to window `id`.
pub open spec fn after_request(
    backends: Map<u32, WindowBackend>,
    id: u32,
    request: WindowRequest,
) -> Map<u32, WindowBackend> {
    if request_outcome(backends, id, request) == WindowOutcome::Reply(true) {
        backends.insert(id, backends[id].applied(request))
    } else {
        backends
    }
}

/// The windows after a surface was opened for window `id`, or was not.
pub open spec fn after_open(
    backends: Map<u32, WindowBackend>,
    id: u32,
    opened: Option<OverlaySurface>,
) -> Map<u32, WindowBackend> {
    if backends.dom().contains(id) {
        backends.insert(id, backends[id].with_surface(opened))
    } else {
        backends
    }
}

/// The windows without anything that a client asked of them.
pub open spec fn all_cleared(backends: Map<u32, WindowBackend>) -> Map<u32, WindowBackend> {
    backends.map_values(|backend: WindowBackend| backend.cleared())
}

impl Backends {
    /// No windows.
    pub fn new() -> (r: Backends)
        ensures
            r@ == (Map::<u32, WindowBackend>::empty()),
    {
        Backends { map: map_new() }
    }

    /// The window `id`, if it is known.
    pub fn get(&self, id: u32) -> (r: Option<WindowBackend>)
        ensures
            r == (if self@.dom().contains(id) {
                Some(self@[id])
            } else {
                None
            }),
    {
        map_get(&self.map, id)
    }

    /// Replaces what is known of window `id`.
    pub fn put(&mut self, id: u32, backend: WindowBackend)
        ensures
            final(self)@ == old(self)@.insert(id, backend),
    {
        map_insert(&mut self.map, id, backend);
    }

    /// Makes window `id` known, unless it is. The event tells of a new window.
    pub fn init_backend(&mut self, id: u32, interop: DxInterop, window_size: (u32, u32)) -> (r:
        Option<OverlayEvent>)
        ensures
            old(self)@.dom().contains(id) ==> r is None && final(self)@ == old(self)@,
            !old(self)@.dom().contains(id) ==> {
                &&& r == Some(added(id, WindowBackend::initial(interop, window_size)))
                &&& final(self)@ == old(self)@.insert(
                    id,
                    WindowBackend::initial(interop, window_size),
                )
            },
    {
        if self.get(id).is_some() {
            return None;
        }
        map_insert(&mut self.map, id, WindowBackend::new(interop, window_size));
        Some(
            OverlayEvent::Window {
                id,
                event: WindowEvent::Added {
                    width: window_size.0,
                    height: window_size.1,
                    gpu_id: interop.gpu_id,
                },
            },
        )
    }

    /// Forgets window `id`. The event tells that it is gone.
    pub fn remove_backend(&mut self, id: u32) -> (r: Option<OverlayEvent>)
        ensures
            final(self)@ == old(self)@.remove(id),
            r == (if old(self)@.dom().contains(id) {
                Some(OverlayEvent::Window { id, event: WindowEvent::Destroyed })
            } else {
                None
            }),
    {
        if map_remove(&mut self.map, id).is_some() {
            Some(OverlayEvent::Window { id, event: WindowEvent::Destroyed })
        } else {
            None
        }
    }

    /// Does what a client asks of window `id`. A window that is not known meets no request.
    pub fn handle_window_event(&mut self, id: u32, request: WindowRequest) -> (r: WindowOutcome)
        ensures
            r == request_outcome(old(self)@, id, request),
            final(self)@ == after_request(old(self)@, id, request),
    {
        let mut backend = match self.get(id) {
            Some(backend) => backend,
            None => return WindowOutcome::Reply(false),
        };
        if let WindowRequest::UpdateSharedHandle(update) = request {
            if let Some(handle) = update.handle {
                return WindowOutcome::OpenSurface { handle };
            }
        }
        backend.apply(request);
        map_insert(&mut self.map, id, backend);
        WindowOutcome::Reply(true)
    }

    /// Gives window `id` the surface that was opened for a request. Where opening failed, the
    /// window is left without a surface and the request is not met.
    pub fn surface_opened<E>(&mut self, id: u32, opened: Result<OverlaySurface, E>) -> (r: bool)
        ensures
            r == (old(self)@.dom().contains(id) && opened is Ok),
            final(self)@ == after_open(
                old(self)@,
                id,
                match opened {
                    Ok(surface) => Some(surface),
                    Err(_) => None,
                },
            ),
    {
        let mut backend = match self.get(id) {
            Some(backend) => backend,
            None => return false,
        };
        let met = backend.render.update_surface(Some(opened)).is_ok();
        map_insert(&mut self.map, id, backend);
        met
    }

    /// Makes the renderers of window `id` look at its surface again.
    pub fn invalidate_surface(&mut self, id: u32)
        ensures
            final(self)@ == (if old(self)@.dom().contains(id) {
                old(self)@.insert(
                    id,
                    (WindowBackend {
                        render: old(self)@[id].render.invalidated(),
                        ..old(self)@[id]
                    }),
                )
            } else {
                old(self)@
            }),
    {
        if let Some(mut backend) = self.get(id) {
            backend.render.invalidate_surface();
            map_insert(&mut self.map, id, backend);
        }
    }

    /// The events by which a client that has just connected is told of every window, in no
    /// particular order.
    pub fn initial_events(&self) -> (r: Vec<OverlayEvent>)
        ensures
            exists|ids: Seq<u32>|
                {
                    &&& #[trigger] ids.no_duplicates()
                    &&& forall|id: u32| ids.contains(id) <==> self@.dom().contains(id)
                    &&& r@.len() == ids.len()
                    &&& forall|i: int| 0 <= i < ids.len() ==> r@[i] == added(ids[i], self@[ids[i]])
                },
    {
        let ids = map_keys(&self.map);
        let mut events: Vec<OverlayEvent> = Vec::new();
        let mut i: usize = 0;
        while i < ids.len()
            invariant
                i <= ids.len(),
                events@.len() == i,
                forall|id: u32| #[trigger] ids@.contains(id) <==> self@.dom().contains(id),
                forall|j: int| 0 <= j < i ==> events@[j] == added(ids@[j], self@[ids@[j]]),
            decreases ids.len() - i,
        {
            let id: u32 = ids[i];
            assert(ids@.contains(ids@[i as int]));
            if let Some(backend) = self.get(id) {
                events.push(
                    OverlayEvent::Window {
                        id,
                        event: WindowEvent::Added {
                            width: backend.render.window_size.0,
                            height: backend.render.window_size.1,
                            gpu_id: backend.render.interop.gpu_id,
                        },
                    },
                );
            }
            i += 1;
        }
        assert(ids@.no_duplicates());
        events
    }

    /// Forgets what a client asked of every window.
    pub fn cleanup_backends(&mut self)
        ensures
            final(self)@ == all_cleared(old(self)@),
    {
        let ids = map_keys(&self.map);
        let ghost before = self@;
        let mut i: usize = 0;
        while i < ids.len()
            invariant
                i <= ids.len(),
                ids@.no_duplicates(),
                forall|id: u32| #[trigger] ids@.contains(id) <==> before.dom().contains(id),
                self@.dom() == before.dom(),
                forall|j: int|
                    0 <= j < i ==> #[trigger] self@[ids@[j]] == before[ids@[j]].cleared(),
                forall|j: int| i <= j < ids.len() ==> #[trigger] self@[ids@[j]] == before[ids@[j]],
            decreases ids.len() - i,
        {
            let id: u32 = ids[i];
            assert(ids@.contains(ids@[i as int]));
            if let Some(mut backend) = self.get(id) {
                backend.reset();
                map_insert(&mut self.map, id, backend);
            }
            assert(self@.dom() =~= before.dom());
            i += 1;
        }
        proof {
            let after = all_cleared(before);
            assert forall|id: u32| before.dom().contains(id) implies self@[id] == after[id] by {
                assert(ids@.contains(id));
                let j = ids@.index_of(id);
                assert(ids@[j] == id);
            }
            assert(self@ =~= after);
        }
    }
}

/// Whether two requests are about the same thing.
pub open spec fn same_subject(a: WindowRequest, b: WindowRequest) -> bool {
    match a {
        WindowRequest::SetPosition(_) => b is SetPosition,
        WindowRequest::SetAnchor(_) => b is SetAnchor,
        WindowRequest::SetMargin(_) => b is SetMargin,
        WindowRequest::ListenInput(_) => b is ListenInput,
        WindowRequest::BlockInput(_) => b is BlockInput,
        WindowRequest::SetBlockingCursor(_) => b is SetBlockingCursor,
        WindowRequest::UpdateSharedHandle(_) => b is UpdateSharedHandle,
    }
}

/// Requests about different things can be met in either order.
pub proof fn law_requests_commute(backend: WindowBackend, a: WindowRequest, b: WindowRequest)
    requires
        !same_subject(a, b),
    ensures
        backend.applied(a).applied(b) == backend.applied(b).applied(a),
{
}

/// Of two requests about the same thing the later one counts. Blocking is left out: to stop and
/// start it forgets where the cursor was confined to.
pub proof fn law_last_request_counts(backend: WindowBackend, a: WindowRequest, b: WindowRequest)
    requires
        same_subject(a, b),
        !(a is BlockInput),
    ensures
        backend.applied(a).applied(b) == backend.applied(b),
{
}

/// Blocking that is asked for twice is blocking that is asked for once, and after a request to
/// block or not the window's input is blocked or not.
pub proof fn law_blocking(backend: WindowBackend, request: WindowRequest)
    requires
        request is BlockInput,
    ensures
        backend.applied(request).proc.blocking_state is Some <==> request->BlockInput_0.block,
        backend.applied(request).applied(request) == backend.applied(request),
{
}

/// A client that leaves takes everything it asked for with it: no window's input stays blocked
/// or listened to, none keeps a surface, and renderers are told so. The window itself, its size,
/// its adapter and its renderer stay.
pub proof fn law_cleared(backend: WindowBackend)
    ensures
        backend.cleared().proc.blocking_state is None,
        !backend.cleared().proc.listen.cursor,
        !backend.cleared().proc.listen.keyboard,
        backend.cleared().render.surface.inner is None,
        backend.cleared().render.surface.pending() is Some,
        backend.cleared().render.window_size == backend.render.window_size,
        backend.cleared().render.interop == backend.render.interop,
        backend.cleared().render.renderer == backend.render.renderer,
        backend.cleared().cleared() == backend.cleared(),
{
}

/// A request changes what it names to what it gives, and nothing else. Each coordinate and each
/// side is its own.
pub proof fn law_request_sets_what_it_names(backend: WindowBackend, request: WindowRequest)
    ensures
        ({
            let after = backend.applied(request);
            &&& request matches WindowRequest::SetPosition(p) ==> after.layout.position.0 == p.x
                && after.layout.position.1 == p.y
            &&& request matches WindowRequest::SetAnchor(a) ==> after.layout.anchor.0 == a.x
                && after.layout.anchor.1 == a.y
            &&& request matches WindowRequest::SetMargin(m) ==> {
                &&& after.layout.margin.0 == m.top
                &&& after.layout.margin.1 == m.right
                &&& after.layout.margin.2 == m.bottom
                &&& after.layout.margin.3 == m.left
            }
            &&& request matches WindowRequest::ListenInput(l) ==> after.proc.listen.cursor
                == l.cursor && after.proc.listen.keyboard == l.keyboard
            &&& request matches WindowRequest::SetBlockingCursor(c) ==> after.proc.blocking_cursor
                == c.cursor
            &&& request matches WindowRequest::BlockInput(b) ==> {
                &&& after.proc.blocking_state is Some <==> b.block
                &&& b.block && backend.proc.blocking_state is Some ==> after.proc.blocking_state
                    == backend.proc.blocking_state
                &&& b.block && backend.proc.blocking_state is None
                    ==> after.proc.blocking_state->0.clip_cursor is None
            }
            &&& request is UpdateSharedHandle ==> after.render.surface.inner is None
                && after.render.surface.updated
        }),
        ({
            let after = backend.applied(request);
            &&& !(request is SetPosition) ==> after.layout.position == backend.layout.position
            &&& !(request is SetAnchor) ==> after.layout.anchor == backend.layout.anchor
            &&& !(request is SetMargin) ==> after.layout.margin == backend.layout.margin
            &&& !(request is ListenInput) ==> after.proc.listen == backend.proc.listen
            &&& !(request is BlockInput) ==> after.proc.blocking_state
                == backend.proc.blocking_state
            &&& !(request is SetBlockingCursor) ==> after.proc.blocking_cursor
                == backend.proc.blocking_cursor
            &&& !(request is UpdateSharedHandle) ==> after.render.surface == backend.render.surface
            &&& after.render.interop == backend.render.interop
            &&& after.render.position == backend.render.position
            &&& after.render.window_size == backend.render.window_size
            &&& after.render.renderer == backend.render.renderer
        }),
{
}

/// A request to a known window is met, except that a shared texture is opened first; a request to
/// a window that is not known is not met and changes nothing. No request makes a window known or
/// forgotten, and none touches another window.
pub proof fn law_request_outcome(
    backends: Map<u32, WindowBackend>,
    id: u32,
    request: WindowRequest,
    other: u32,
)
    ensures
        !backends.dom().contains(id) ==> request_outcome(backends, id, request)
            == WindowOutcome::Reply(false) && after_request(backends, id, request) == backends,
        backends.dom().contains(id) ==> match request {
            WindowRequest::UpdateSharedHandle(update) if update.handle is Some => {
                request_outcome(backends, id, request) == WindowOutcome::OpenSurface {
                    handle: update.handle->0,
                } && after_request(backends, id, request) == backends
            },
            _ => request_outcome(backends, id, request) == WindowOutcome::Reply(true)
                && after_request(backends, id, request)[id] == backends[id].applied(request),
        },
        after_request(backends, id, request).dom() =~= backends.dom(),
        other != id ==> after_request(backends, id, request)[other] == backends[other],
{
}

/// A surface that was opened for a known window is that window's surface from now on, and one that
/// could not be opened leaves it without; renderers are told either way. Nothing else changes.
pub proof fn law_surface_given(
    backends: Map<u32, WindowBackend>,
    id: u32,
    opened: Option<OverlaySurface>,
    other: u32,
)
    ensures
        ({
            let after = after_open(backends, id, opened);
            &&& after.dom() =~= backends.dom()
            &&& !backends.dom().contains(id) ==> after == backends
            &&& other != id ==> after[other] == backends[other]
            &&& backends.dom().contains(id) ==> {
                &&& after[id].render.surface.inner == opened
                &&& after[id].render.surface.updated
                &&& after[id].render.position == backends[id].render.position
                &&& after[id].render.window_size == backends[id].render.window_size
                &&& after[id].render.interop == backends[id].render.interop
                &&& after[id].render.renderer == backends[id].render.renderer
                &&& after[id].layout == backends[id].layout
                &&& after[id].proc == backends[id].proc
            }
        }),
{
}

/// After a cleanup the same windows are known, each as it would be had no client asked anything of
/// it.
pub proof fn law_all_cleared(
    backends: Map<u32, WindowBackend>,
    id: u32,
    a: WindowRequest,
)
    requires
        backends.dom().contains(id),
    ensures
        all_cleared(backends).dom() =~= backends.dom(),
        all_cleared(backends)[id].render.window_size == backends[id].render.window_size,
        all_cleared(backends)[id].render.interop == backends[id].render.interop,
        all_cleared(backends)[id].render.renderer == backends[id].render.renderer,
        all_cleared(backends)[id].render.position == (0i32, 0i32),
        all_cleared(backends)[id].render.surface.inner is None,
        all_cleared(backends)[id].proc.blocking_state is None,
        all_cleared(backends)[id].proc.blocking_cursor is None,
        !all_cleared(backends)[id].proc.listen.cursor,
        !all_cleared(backends)[id].proc.listen.keyboard,
        all_cleared(after_request(backends, id, a)) =~= all_cleared(backends),
{
    let after = after_request(backends, id, a);
    assert forall|other: u32| #[trigger]
        all_cleared(after).dom().contains(other) implies all_cleared(after)[other] == all_cleared(
        backends,
    )[other] by {}
}

/// A client is told of a window by its number, its size and its adapter.
pub proof fn law_window_told(id: u32, backend: WindowBackend)
    ensures
        added(id, backend) matches OverlayEvent::Window {
            id: told,
            event: WindowEvent::Added { width, height, gpu_id },
        } && told == id && width == backend.render.window_size.0 && height
            == backend.render.window_size.1 && gpu_id == backend.render.interop.gpu_id,
{
}

/// A window that has just become known has its own size and adapter, no surface, no renderer and
/// nothing that a client asked for; the overlay is in its upper left corner.
pub proof fn law_new_window(interop: DxInterop, window_size: (u32, u32))
    ensures
        ({
            let backend = WindowBackend::initial(interop, window_size);
            &&& backend.render.interop == interop
            &&& backend.render.window_size.0 == window_size.0
            &&& backend.render.window_size.1 == window_size.1
            &&& backend.render.position.0 == 0 && backend.render.position.1 == 0
            &&& backend.render.surface.inner is None
            &&& backend.render.surface.updated
            &&& backend.render.renderer is None
            &&& backend.proc.blocking_state is None
            &&& backend.proc.blocking_cursor is None
            &&& !backend.proc.listen.cursor && !backend.proc.listen.keyboard
            &&& backend.layout.position.0 == backend.layout.position.1
            &&& backend.layout.position == backend.layout.anchor
            &&& backend.layout.margin.0 == backend.layout.margin.1
            &&& backend.layout.margin.2 == backend.layout.margin.3
            &&& backend.layout.margin.0 == backend.layout.margin.2
            &&& backend.layout.margin.0 == backend.layout.position.0
            &&& backend.layout.position.0 == PercentLength::Length(0)
            &&& backend.cleared() == backend
        }),
{
}

} // verus!
