//! The swapchains of a program.

use crate::backend::{Backends, WindowBackend};
use crate::vulkan::VulkanRenderer;
use dashmap::DashMap;
use vstd::prelude::*;

verus! {

pub const RESULT_SUCCESS: i32 = 0;

pub const RESULT_ERROR_INITIALIZATION_FAILED: i32 = -3;

pub const RESULT_ERROR_UNKNOWN: i32 = -13;

/// Data associated with a swapchain.
#[derive(Debug)]
pub struct SwapchainData {
    /// Window of the surface the swapchain is tied to.
    pub hwnd: u32,
    /// Size of the swapchain images.
    pub image_size: (u32, u32),
    /// Format of the swapchain images.
    pub format: i32,
    /// Vulkan overlay renderer
    pub renderer: Option<VulkanRenderer>,
}

/// What does not change about a swapchain: its window, and the size and format of its images.
#[derive(Debug, Clone, Copy, PartialEq, Eq)]
pub struct SwapchainInfo {
    pub hwnd: u32,
    pub image_size: (u32, u32),
    pub format: i32,
}

impl SwapchainData {
    pub open spec fn info(self) -> SwapchainInfo {
        SwapchainInfo { hwnd: self.hwnd, image_size: self.image_size, format: self.format }
    }
}

/// What a map of swapchains holds.
pub uninterp spec fn swapchain_entries(map: DashMap<u64, SwapchainData>) -> Map<u64, SwapchainData>;

/// Makes a map with `DashMap::new`: it is empty.
#[verifier::external_body]
fn map_new() -> (r: DashMap<u64, SwapchainData>)
    ensures
        (swapchain_entries(r) == (Map::<u64, SwapchainData>::empty())),
{
    DashMap::new()
}

/// Reads an entry with `DashMap::get`: the unchanging part of the value under the key, if the key
/// is there.
#[verifier::external_body]
fn map_info(map: &DashMap<u64, SwapchainData>, key: u64) -> (r: Option<SwapchainInfo>)
    ensures
        r == (if swapchain_entries(*map).dom().contains(key) {
            Some(swapchain_entries(*map)[key].info())
        } else {
            None
        }),
{
    map.get(&key).map(|data| SwapchainInfo {
        hwnd: data.hwnd,
        image_size: data.image_size,
        format: data.format,
    })
}

/// Writes an entry with `DashMap::insert`: afterwards the key has the value, and the other
/// entries are what they were.
#[verifier::external_body]
fn map_insert(map: &mut DashMap<u64, SwapchainData>, key: u64, value: SwapchainData) -> (r: Option<
    SwapchainData,
>)
    ensures
        swapchain_entries(*final(map)) == swapchain_entries(*old(map)).insert(key, value),
        r == (if swapchain_entries(*old(map)).dom().contains(key) {
            Some(swapchain_entries(*old(map))[key])
        } else {
            None
        }),
{
    map.insert(key, value)
}

/// Takes an entry out with `DashMap::remove`: its value, if the key was there. Afterwards it is
/// not, and the other entries are what they were.
#[verifier::external_body]
fn map_remove(map: &mut DashMap<u64, SwapchainData>, key: u64) -> (r: Option<SwapchainData>)
    ensures
        swapchain_entries(*final(map)) == swapchain_entries(*old(map)).remove(key),
        r == (if swapchain_entries(*old(map)).dom().contains(key) {
            Some(swapchain_entries(*old(map))[key])
        } else {
            None
        }),
{
    map.remove(&key).map(|entry| entry.1)
}

/// Every swapchain whose window is known, by its handle.
#[derive(Debug)]
pub struct Swapchains {
    map: DashMap<u64, SwapchainData>,
}

impl View for Swapchains {
    type V = Map<u64, SwapchainData>;

    closed spec fn view(&self) -> Map<u64, SwapchainData> {
        swapchain_entries(self.map)
    }
}

/// What to do about a call to make a swapchain.
#[derive(Debug, Clone, Copy, PartialEq, Eq, Structural)]
pub enum CreateStep {
    /// Return the result to the program.
    Return(i32),
    /// Have the swapchain made.
    Forward,
}

/// The windows after a swapchain of window `hwnd` went.
pub open spec fn surface_invalidated(
    backends: Map<u32, WindowBackend>,
    hwnd: u32,
) -> Map<u32, WindowBackend> {
    if backends.dom().contains(hwnd) {
        backends.insert(
            hwnd,
            WindowBackend { render: backends[hwnd].render.invalidated(), ..backends[hwnd] },
        )
    } else {
        backends
    }
}

/// The windows after `swapchain` went.
pub open spec fn backends_after(
    swapchains: Map<u64, SwapchainData>,
    backends: Map<u32, WindowBackend>,
    swapchain: u64,
) -> Map<u32, WindowBackend> {
    if swapchains.dom().contains(swapchain) {
        surface_invalidated(backends, swapchains[swapchain].hwnd)
    } else {
        backends
    }
}

/// The renderer of `swapchain`.
pub open spec fn renderer_of(swapchains: Map<u64, SwapchainData>, swapchain: u64) -> Option<
    VulkanRenderer,
> {
    if swapchains.dom().contains(swapchain) {
        swapchains[swapchain].renderer
    } else {
        None
    }
}

impl Swapchains {
    /// No swapchains.
    pub fn new() -> (r: Swapchains)
        ensures
            r@ == (Map::<u64, SwapchainData>::empty()),
    {
        Swapchains { map: map_new() }
    }

    /// What is known of a swapchain.
    pub fn get(&self, swapchain: u64) -> (r: Option<SwapchainInfo>)
        ensures
            r == (if self@.dom().contains(swapchain) {
                Some(self@[swapchain].info())
            } else {
                None
            }),
    {
        map_info(&self.map, swapchain)
    }

    /// Takes the renderer of a swapchain out, to draw with it.
    pub fn take_renderer(&mut self, swapchain: u64) -> (r: Option<VulkanRenderer>)
        ensures
            r == renderer_of(old(self)@, swapchain),
            final(self)@ == (if old(self)@.dom().contains(swapchain) {
                old(self)@.insert(
                    swapchain,
                    SwapchainData { renderer: None, ..old(self)@[swapchain] },
                )
            } else {
                old(self)@
            }),
    {
        match map_remove(&mut self.map, swapchain) {
            None => {
                assert(self@ =~= old(self)@);
                None
            },
            Some(data) => {
                let renderer = data.renderer;
                let rest = SwapchainData {
                    hwnd: data.hwnd,
                    image_size: data.image_size,
                    format: data.format,
                    renderer: None,
                };
                let _ = map_insert(&mut self.map, swapchain, rest);
                assert(self@ =~= old(self)@.insert(
                    swapchain,
                    SwapchainData { renderer: None, ..old(self)@[swapchain] },
                ));
                renderer
            },
        }
    }

    /// Puts the renderer of a swapchain back. Where the swapchain has gone meanwhile, the
    /// renderer is handed back.
    pub fn put_renderer(&mut self, swapchain: u64, renderer: VulkanRenderer) -> (r: Option<
        VulkanRenderer,
    >)
        ensures
            old(self)@.dom().contains(swapchain) ==> r is None && final(self)@ == old(
                self,
            )@.insert(
                swapchain,
                SwapchainData { renderer: Some(renderer), ..old(self)@[swapchain] },
            ),
            !old(self)@.dom().contains(swapchain) ==> r == Some(renderer) && final(self)@ == old(
                self,
            )@,
    {
        match map_info(&self.map, swapchain) {
            None => Some(renderer),
            Some(info) => {
                let data = SwapchainData {
                    hwnd: info.hwnd,
                    image_size: info.image_size,
                    format: info.format,
                    renderer: Some(renderer),
                };
                let _ = map_insert(&mut self.map, swapchain, data);
                None
            },
        }
    }

    /// Whether a swapchain has a renderer.
    pub fn has_renderer(&mut self, swapchain: u64) -> (r: bool)
        ensures
            r == renderer_of(old(self)@, swapchain) is Some,
            final(self)@ == old(self)@,
    {
        match self.take_renderer(swapchain) {
            Some(renderer) => {
                let _ = self.put_renderer(swapchain, renderer);
                assert(self@ =~= old(self)@);
                true
            },
            None => {
                assert(self@ =~= old(self)@);
                false
            },
        }
    }

    /// Forgets a swapchain. Its renderer, if it has one, is handed back to be given up, and the
    /// next renderer of its window has to look at the surface again.
    pub fn cleanup_swapchain(&mut self, backends: &mut Backends, swapchain: u64) -> (r: Option<
        VulkanRenderer,
    >)
        ensures
            final(self)@ == old(self)@.remove(swapchain),
            final(backends)@ == backends_after(old(self)@, old(backends)@, swapchain),
            r == renderer_of(old(self)@, swapchain),
    {
        match map_remove(&mut self.map, swapchain) {
            None => None,
            Some(data) => {
                backends.invalidate_surface(data.hwnd);
                data.renderer
            },
        }
    }

    /// Answers a program that makes a swapchain, before it is made. `old_swapchain` is the one
    /// that it takes the place of, or zero, and `dispatch` whether the device is known. The
    /// renderer of the old swapchain is handed back to be given up.
    pub fn create_swapchain(
        &mut self,
        backends: &mut Backends,
        old_swapchain: u64,
        dispatch: bool,
    ) -> (r: (CreateStep, Option<VulkanRenderer>))
        ensures
            r.0 == (if dispatch {
                CreateStep::Forward
            } else {
                CreateStep::Return(RESULT_ERROR_INITIALIZATION_FAILED)
            }),
            old_swapchain == 0 ==> r.1 is None && final(self)@ == old(self)@ && final(backends)@
                == old(backends)@,
            old_swapchain != 0 ==> {
                &&& r.1 == renderer_of(old(self)@, old_swapchain)
                &&& final(self)@ == old(self)@.remove(old_swapchain)
                &&& final(backends)@ == backends_after(
                    old(self)@,
                    old(backends)@,
                    old_swapchain,
                )
            },
    {
        let gone = if old_swapchain != 0 {
            self.cleanup_swapchain(backends, old_swapchain)
        } else {
            None
        };
        if !dispatch {
            return (CreateStep::Return(RESULT_ERROR_INITIALIZATION_FAILED), gone);
        }
        (CreateStep::Forward, gone)
    }

    /// Answers a program once its swapchain was made, or not, with `result`. `hwnd` is the
    /// window of the surface. A swapchain whose window is not known is not drawn on. A renderer
    /// that was kept under the same handle is handed back to be given up.
    pub fn swapchain_created(
        &mut self,
        result: i32,
        swapchain: u64,
        hwnd: Option<u32>,
        image_size: (u32, u32),
        format: i32,
    ) -> (r: (i32, Option<VulkanRenderer>))
        ensures
            r.0 == result,
            result == RESULT_SUCCESS && hwnd is Some ==> {
                &&& final(self)@ == old(self)@.insert(
                    swapchain,
                    (SwapchainData { hwnd: hwnd->0, image_size, format, renderer: None }),
                )
                &&& r.1 == renderer_of(old(self)@, swapchain)
            },
            result != RESULT_SUCCESS || hwnd is None ==> final(self)@ == old(self)@ && r.1 is None,
    {
        if result != RESULT_SUCCESS {
            return (result, None);
        }
        match hwnd {
            None => (RESULT_SUCCESS, None),
            Some(hwnd) => {
                let data = SwapchainData { hwnd, image_size, format, renderer: None };
                match map_insert(&mut self.map, swapchain, data) {
                    Some(before) => (RESULT_SUCCESS, before.renderer),
                    None => (RESULT_SUCCESS, None),
                }
            },
        }
    }

    /// Answers a program that gives a swapchain up. Says whether the device is to be told, which
    /// it cannot where it is not known. The renderer is handed back to be given up first.
    pub fn destroy_swapchain(
        &mut self,
        backends: &mut Backends,
        swapchain: u64,
        dispatch: bool,
    ) -> (r: (bool, Option<VulkanRenderer>))
        ensures
            r.0 == dispatch,
            r.1 == renderer_of(old(self)@, swapchain),
            final(self)@ == old(self)@.remove(swapchain),
            final(backends)@ == backends_after(old(self)@, old(backends)@, swapchain),
    {
        let gone = self.cleanup_swapchain(backends, swapchain);
        (dispatch, gone)
    }
}

/// A swapchain that went is not kept, and the renderers of its window are told of the surface
/// anew.
pub proof fn law_swapchain_gone(
    swapchains: Map<u64, SwapchainData>,
    backends: Map<u32, WindowBackend>,
    swapchain: u64,
)
    requires
        swapchains.dom().contains(swapchain),
        backends.dom().contains(swapchains[swapchain].hwnd),
    ensures
        ({
            let hwnd = swapchains[swapchain].hwnd;
            let after = backends_after(swapchains, backends, swapchain);
            &&& !swapchains.remove(swapchain).dom().contains(swapchain)
            &&& after.dom() == backends.dom()
            &&& after[hwnd].render.surface.pending() is Some
            &&& forall|other: u32| other != hwnd ==> #[trigger] after[other] == backends[other]
        }),
{
    assert(backends_after(swapchains, backends, swapchain).dom() =~= backends.dom());
}

/// A swapchain that goes has only the surface of its own window looked at again. One that is not
/// known, or whose window is not, changes nothing.
pub proof fn law_gone_changes(
    swapchains: Map<u64, SwapchainData>,
    backends: Map<u32, WindowBackend>,
    swapchain: u64,
)
    ensures
        ({
            let data = swapchains[swapchain];
            let known = swapchains.dom().contains(swapchain) && backends.dom().contains(data.hwnd);
            let after = backends_after(swapchains, backends, swapchain);
            &&& !known ==> after == backends
            &&& known ==> {
                let was = backends[data.hwnd];
                let now = after[data.hwnd];
                &&& now.layout == was.layout
                &&& now.proc == was.proc
                &&& now.render.surface.inner == was.render.surface.inner
                &&& now.render.surface.updated
                &&& now.render.position == was.render.position
                &&& now.render.window_size == was.render.window_size
                &&& now.render.interop == was.render.interop
            }
            &&& swapchains.dom().contains(swapchain) ==> renderer_of(swapchains, swapchain)
                == data.renderer
            &&& !swapchains.dom().contains(swapchain) ==> renderer_of(swapchains, swapchain) is None
            &&& data.info().hwnd == data.hwnd
            &&& data.info().image_size == data.image_size
            &&& data.info().format == data.format
        }),
{
}

} // verus!
