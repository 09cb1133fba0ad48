//! Drawing the overlay in programs that present with Direct3D 9.

use crate::hooks::{dx9_hook_order, HookPoint};
use crate::render::{OverlaySurface, RenderData, Renderer};
use crate::renderers::Renderers;
use vstd::prelude::*;

verus! {

/// The window that a present is for: the one that the call names, or else the device's.
pub open spec fn target_window(dest_window: u64, device_window: Option<u64>) -> Option<u64> {
    if dest_window != 0 {
        Some(dest_window)
    } else if device_window is Some && device_window->0 != 0 {
        device_window
    } else {
        None
    }
}

fn choose_window(dest_window: u64, device_window: Option<u64>) -> (r: Option<u64>)
    ensures
        r == target_window(dest_window, device_window),
{
    if dest_window != 0 {
        return Some(dest_window);
    }
    match device_window {
        Some(hwnd) => if hwnd != 0 {
            Some(hwnd)
        } else {
            None
        },
        None => None,
    }
}

/// A program presents with a device. Gives the window to draw in, if any. `device_window` is the
/// window that the device's swapchain presents to, where that could be told.
pub fn hooked_present(
    connected: bool,
    device: bool,
    dest_window: u64,
    device_window: Option<u64>,
) -> (r: Option<u64>)
    ensures
        r == (if connected && device {
            target_window(dest_window, device_window)
        } else {
            None
        }),
{
    if connected && device {
        choose_window(dest_window, device_window)
    } else {
        None
    }
}

/// A program presents with an extended device. Gives the window to draw in, if any.
pub fn hooked_present_ex(
    connected: bool,
    device: bool,
    dest_window: u64,
    device_window: Option<u64>,
) -> (r: Option<u64>)
    ensures
        r == (if connected && device {
            target_window(dest_window, device_window)
        } else {
            None
        }),
{
    if connected && device {
        choose_window(dest_window, device_window)
    } else {
        None
    }
}

/// A program presents with a swapchain. Gives the window to draw in, if any. `device` is whether
/// the swapchain gives its device.
pub fn hooked_swapchain_present(
    connected: bool,
    device: bool,
    dest_window: u64,
    device_window: Option<u64>,
) -> (r: Option<u64>)
    ensures
        r == (if connected && device {
            target_window(dest_window, device_window)
        } else {
            None
        }),
{
    if connected && device {
        choose_window(dest_window, device_window)
    } else {
        None
    }
}

/// Whether a device has gone but for the references that its renderer holds: those of a vertex
/// buffer and of a state block, and of a texture if it has one.
pub open spec fn held_by_renderer(count: u32) -> bool {
    count == 2 || count == 3
}

/// A program gave up a reference to a device, of which `count` are left. Says whether the
/// device's renderer is to go.
pub fn hooked_release(count: u32) -> (cleanup: bool)
    ensures
        cleanup == held_by_renderer(count),
{
    count == 2 || count == 3
}

/// The renderer of a device: the one it has, or else the one that was made for it, if any was.
pub fn with_or_init_renderer<E>(
    renderers: &mut Renderers,
    device: u64,
    made: Result<u64, E>,
) -> (r: Result<u64, E>)
    ensures
        old(renderers)@.dom().contains(device) ==> r == Ok::<u64, E>(old(renderers)@[device]),
        old(renderers)@.dom().contains(device) ==> final(renderers)@ == old(renderers)@,
        !old(renderers)@.dom().contains(device) ==> r == made && final(renderers)@ == (match made {
            Ok(renderer) => old(renderers)@.insert(device, renderer),
            Err(_) => old(renderers)@,
        }),
{
    renderers.get_or_insert(device, made)
}

/// Forgets the renderer of a device that goes or is reset. The renderer is handed back to be
/// given up.
pub fn cleanup_renderer(renderers: &mut Renderers, device: u64) -> (r: Option<u64>)
    ensures
        final(renderers)@ == old(renderers)@.remove(device),
        r == (if old(renderers)@.dom().contains(device) {
            Some(old(renderers)@[device])
        } else {
            None
        }),
{
    renderers.forget(device)
}

/// What is drawn in a window.
#[derive(Debug, Clone, Copy, PartialEq, Eq)]
pub struct DrawPlan {
    pub surface: OverlaySurface,
    pub position: (i32, i32),
    pub screen: (u32, u32),
}

/// What is drawn in a window.
pub open spec fn plan(render: RenderData) -> Option<DrawPlan> {
    if render.renderer == Some(Renderer::Dx9) {
        match render.surface.inner {
            Some(surface) => Some(
                DrawPlan { surface, position: render.position, screen: render.window_size },
            ),
            None => None,
        }
    } else {
        None
    }
}

/// The window after a present. The first renderer that presents to a window takes it.
pub open spec fn presented(render: RenderData) -> RenderData {
    if render.renderer is None {
        RenderData { renderer: Some(Renderer::Dx9), ..render }
    } else {
        render
    }
}

/// Decides what to draw in a window. One that another renderer has taken is left alone, and one
/// that none has taken is taken and drawn from the next present on.
pub fn draw_overlay(render: &mut RenderData) -> (r: Option<DrawPlan>)
    ensures
        r == plan(*old(render)),
        *final(render) == presented(*old(render)),
{
    match render.renderer {
        Some(Renderer::Dx9) => {},
        Some(_) => return None,
        None => {
            render.renderer = Some(Renderer::Dx9);
            return None;
        },
    }
    match render.surface.get() {
        Some(surface) => Some(
            DrawPlan { surface: *surface, position: render.position, screen: render.window_size },
        ),
        None => None,
    }
}

/// A window that another renderer has taken is neither drawn nor changed, and no window is drawn
/// at the present at which it is taken.
pub proof fn law_renderer_claim(render: RenderData)
    ensures
        render.renderer is Some && render.renderer != Some(Renderer::Dx9) ==> plan(render) is None
            && presented(render) == render,
        render.renderer is None ==> plan(render) is None && presented(render).renderer == Some(
            Renderer::Dx9,
        ),
{
}

/// Why nothing was drawn.
#[derive(Debug, Clone, Copy, PartialEq, Eq, Structural)]
pub enum DrawError {
    UpdateTexture,
    BeginScene,
    EndScene,
}

impl DrawError {
    pub open spec fn text(self) -> Seq<char> {
        match self {
            DrawError::UpdateTexture => "failed to update dx9 texture"@,
            DrawError::BeginScene => "BeginScene failed"@,
            DrawError::EndScene => "EndScene failed"@,
        }
    }

    /// What went wrong.
    pub fn message(&self) -> (r: &'static str)
        ensures
            r@ == self.text(),
    {
        match self {
            DrawError::UpdateTexture => "failed to update dx9 texture",
            DrawError::BeginScene => "BeginScene failed",
            DrawError::EndScene => "EndScene failed",
        }
    }
}

/// How far a draw has come, and so what to ask of the device.
#[derive(Debug, Clone, Copy, PartialEq, Eq, Structural)]
pub enum Scene {
    UpdateTexture,
    BeginScene,
    Draw,
    EndScene,
    Drawn,
    Failed(DrawError),
}

impl Scene {
    /// Where the draw stands after the device did what was asked, or failed to. Whatever drawing
    /// itself gives, the scene is ended.
    pub open spec fn next(self, done: bool) -> Scene {
        match self {
            Scene::UpdateTexture => if done {
                Scene::BeginScene
            } else {
                Scene::Failed(DrawError::UpdateTexture)
            },
            Scene::BeginScene => if done {
                Scene::Draw
            } else {
                Scene::Failed(DrawError::BeginScene)
            },
            Scene::Draw => Scene::EndScene,
            Scene::EndScene => if done {
                Scene::Drawn
            } else {
                Scene::Failed(DrawError::EndScene)
            },
            over => over,
        }
    }

    /// Tells the draw whether the device did what was asked.
    pub fn advance(&mut self, done: bool)
        ensures
            *final(self) == old(self).next(done),
    {
        *self =
        match *self {
            Scene::UpdateTexture => if done {
                Scene::BeginScene
            } else {
                Scene::Failed(DrawError::UpdateTexture)
            },
            Scene::BeginScene => if done {
                Scene::Draw
            } else {
                Scene::Failed(DrawError::BeginScene)
            },
            Scene::Draw => Scene::EndScene,
            Scene::EndScene => if done {
                Scene::Drawn
            } else {
                Scene::Failed(DrawError::EndScene)
            },
            over => over,
        };
    }
}

/// A scene that was begun is ended, whatever drawing gave.
pub proof fn law_scene_ended(drawn: bool)
    ensures
        Scene::BeginScene.next(true).next(drawn) == Scene::EndScene,
        Scene::BeginScene.next(false) == Scene::Failed(DrawError::BeginScene),
{
}

/// The first adapter.
pub const ADAPTER_DEFAULT: u32 = 0;

/// A device of the hardware.
pub const DEVTYPE_HAL: i32 = 1;

pub const CREATE_HARDWARE_VERTEXPROCESSING: u32 = 0x40;

pub const SWAP_EFFECT_DISCARD: i32 = 1;

/// A device to read the addresses of its functions from.
#[derive(Debug, Clone, Copy, PartialEq, Eq, Structural)]
pub struct DevicePlan {
    pub adapter: u32,
    pub device_type: i32,
    pub behavior: u32,
    pub windowed: bool,
    pub swap_effect: i32,
    pub window: u64,
}

/// The addresses of the functions of a device and of its swapchain.
#[derive(Debug, Clone, Copy, PartialEq, Eq, Structural)]
pub struct Dx9Functions {
    pub present: u64,
    pub release: u64,
    pub swapchain_present: u64,
    pub present_ex: u64,
    pub reset: u64,
    pub reset_ex: u64,
}

/// Why the addresses are not known.
#[derive(Debug, Clone, Copy, PartialEq, Eq, Structural)]
pub enum AddrError {
    Direct3D,
    /// The system did not make the device.
    System,
    /// The device was made and not given.
    NoDevice,
    Swapchain,
}

impl AddrError {
    pub open spec fn text(self) -> Option<Seq<char>> {
        match self {
            AddrError::Direct3D => Some("cannot create IDirect3D9"@),
            AddrError::System => None,
            AddrError::NoDevice => Some("cannot create IDirect3DDevice9"@),
            AddrError::Swapchain => Some("cannot get IDirect3DSwapChain9"@),
        }
    }

    /// What went wrong, where the system does not tell.
    pub fn message(&self) -> (r: Option<&'static str>)
        ensures
            match r {
                Some(text) => self.text() == Some(text@),
                None => self.text() is None,
            },
    {
        match self {
            AddrError::Direct3D => Some("cannot create IDirect3D9"),
            AddrError::System => None,
            AddrError::NoDevice => Some("cannot create IDirect3DDevice9"),
            AddrError::Swapchain => Some("cannot get IDirect3DSwapChain9"),
        }
    }

    /// What was being done.
    pub fn context(&self) -> (r: &'static str)
        ensures
            r@ == "failed to load dx9 addrs"@,
    {
        "failed to load dx9 addrs"
    }
}

/// What came back from the system.
#[derive(Debug, Clone, Copy, PartialEq, Eq, Structural)]
pub enum AddrReply {
    /// Whether the call succeeded.
    Done(bool),
    /// Whether the device was made, and if so whether it was given.
    Device(Option<bool>),
    Addresses(Dx9Functions),
}

/// How far a look for the addresses has come, and so what to ask of the system.
#[derive(Debug, Clone, Copy, PartialEq, Eq, Structural)]
pub enum AddrLookup {
    CreateDirect3D { window: u64 },
    CreateDevice(DevicePlan),
    /// Get the device's first swapchain.
    GetSwapchain,
    ReadAddresses,
    Found(Dx9Functions),
    Failed(AddrError),
}

impl AddrLookup {
    /// Whether `reply` answers what is asked.
    pub open spec fn awaits(self, reply: AddrReply) -> bool {
        match self {
            AddrLookup::CreateDirect3D { .. } => reply is Done,
            AddrLookup::CreateDevice(_) => reply is Device,
            AddrLookup::GetSwapchain => reply is Done,
            AddrLookup::ReadAddresses => reply is Addresses,
            AddrLookup::Found(_) => false,
            AddrLookup::Failed(_) => false,
        }
    }

    /// Where the look for the addresses stands after `reply`.
    pub open spec fn next(self, reply: AddrReply) -> AddrLookup {
        match (self, reply) {
            (AddrLookup::CreateDirect3D { window }, AddrReply::Done(true)) => {
                AddrLookup::CreateDevice(
                    DevicePlan {
                        adapter: ADAPTER_DEFAULT,
                        device_type: DEVTYPE_HAL,
                        behavior: CREATE_HARDWARE_VERTEXPROCESSING,
                        windowed: true,
                        swap_effect: SWAP_EFFECT_DISCARD,
                        window,
                    },
                )
            },
            (AddrLookup::CreateDirect3D { .. }, _) => AddrLookup::Failed(AddrError::Direct3D),
            (AddrLookup::CreateDevice(_), AddrReply::Device(Some(true))) => {
                AddrLookup::GetSwapchain
            },
            (AddrLookup::CreateDevice(_), AddrReply::Device(Some(false))) => {
                AddrLookup::Failed(AddrError::NoDevice)
            },
            (AddrLookup::GetSwapchain, AddrReply::Done(true)) => AddrLookup::ReadAddresses,
            (AddrLookup::GetSwapchain, _) => AddrLookup::Failed(AddrError::Swapchain),
            (AddrLookup::ReadAddresses, AddrReply::Addresses(functions)) => {
                AddrLookup::Found(functions)
            },
            _ => AddrLookup::Failed(AddrError::System),
        }
    }

    /// Tells what came back from the system.
    pub fn advance(&mut self, reply: AddrReply)
        requires
            old(self).awaits(reply),
        ensures
            *final(self) == old(self).next(reply),
    {
        *self =
        match (*self, reply) {
            (AddrLookup::CreateDirect3D { window }, AddrReply::Done(done)) => if done {
                AddrLookup::CreateDevice(
                    DevicePlan {
                        adapter: ADAPTER_DEFAULT,
                        device_type: DEVTYPE_HAL,
                        behavior: CREATE_HARDWARE_VERTEXPROCESSING,
                        windowed: true,
                        swap_effect: SWAP_EFFECT_DISCARD,
                        window,
                    },
                )
            } else {
                AddrLookup::Failed(AddrError::Direct3D)
            },
            (AddrLookup::CreateDevice(_), AddrReply::Device(Some(given))) => if given {
                AddrLookup::GetSwapchain
            } else {
                AddrLookup::Failed(AddrError::NoDevice)
            },
            (AddrLookup::GetSwapchain, AddrReply::Done(done)) => if done {
                AddrLookup::ReadAddresses
            } else {
                AddrLookup::Failed(AddrError::Swapchain)
            },
            (AddrLookup::ReadAddresses, AddrReply::Addresses(functions)) => {
                AddrLookup::Found(functions)
            },
            _ => AddrLookup::Failed(AddrError::System),
        };
    }
}

/// Begins to look for the addresses, with a window that does not show.
pub fn get_addr(window: u64) -> (r: AddrLookup)
    ensures
        r == (AddrLookup::CreateDirect3D { window }),
{
    AddrLookup::CreateDirect3D { window }
}

/// The functions to hook for Direct3D 9.
pub fn hook() -> (r: Vec<HookPoint>)
    ensures
        r@ == dx9_hook_order(),
{
    let order = vec![
        HookPoint::Dx9Reset,
        HookPoint::Dx9Release,
        HookPoint::Dx9ResetEx,
        HookPoint::Dx9Present,
        HookPoint::Dx9SwapchainPresent,
        HookPoint::Dx9PresentEx,
    ];
    assert(order@ =~= dx9_hook_order());
    order
}

/// A present is for the window that the call names; where it names none, for the device's window,
/// if that is known; and otherwise for none.
pub proof fn law_target_window(dest_window: u64, device_window: Option<u64>)
    ensures
        dest_window > 0 ==> target_window(dest_window, device_window) == Some(dest_window),
        dest_window == 0 ==> target_window(dest_window, None) is None,
        dest_window == 0 ==> target_window(dest_window, Some(0)) is None,
        device_window matches Some(hwnd) ==> dest_window == 0 && hwnd > 0 ==> target_window(
            dest_window,
            device_window,
        ) == Some(hwnd),
{
}

/// A device goes with its renderer exactly where two or three references to it are left.
pub proof fn law_held_by_renderer(count: u32)
    ensures
        held_by_renderer(count) <==> 2 <= count <= 3,
{
}

/// A window that is drawn with Direct3D 9 is drawn exactly where it has a surface: with that
/// surface, at its own position and on its own screen.
pub proof fn law_drawn_in_place(render: RenderData)
    ensures
        plan(render) is Some <==> render.renderer == Some(Renderer::Dx9)
            && render.surface.inner is Some,
        plan(render) matches Some(draw) ==> Some(draw.surface) == render.surface.inner
            && draw.position == render.position && draw.screen == render.window_size,
{
}

/// A present takes a window that none has taken, and changes nothing else.
pub proof fn law_present_changes(render: RenderData)
    ensures
        ({
            let after = presented(render);
            &&& after.position == render.position
            &&& after.window_size == render.window_size
            &&& after.interop == render.interop
            &&& after.surface == render.surface
            &&& render.renderer is Some ==> after.renderer == render.renderer
        }),
{
}

/// A texture is updated before a scene begins, what was drawn ends the scene, and each failure is
/// named for what failed and is the end.
pub proof fn law_scene_leads_on(done: bool, err: DrawError)
    ensures
        Scene::UpdateTexture.next(true) == Scene::BeginScene,
        Scene::UpdateTexture.next(false) == Scene::Failed(DrawError::UpdateTexture),
        Scene::BeginScene.next(true) == Scene::Draw,
        Scene::BeginScene.next(false) == Scene::Failed(DrawError::BeginScene),
        Scene::Draw.next(done) == Scene::EndScene,
        Scene::EndScene.next(true) == Scene::Drawn,
        Scene::EndScene.next(false) == Scene::Failed(DrawError::EndScene),
        Scene::Drawn.next(done) == Scene::Drawn,
        Scene::Failed(err).next(done) == Scene::Failed(err),
{
}

/// The addresses that are found are those that were read, of a device for the window that the look
/// was begun with; each failure is named for what failed.
pub proof fn law_lookup_leads_on(lookup: AddrLookup, reply: AddrReply)
    requires
        lookup.awaits(reply),
    ensures
        match (lookup, reply) {
            (AddrLookup::CreateDirect3D { window }, AddrReply::Done(true)) => lookup.next(reply)
                == AddrLookup::CreateDevice(
                DevicePlan {
                    adapter: 0,
                    device_type: 1,
                    behavior: 0x40,
                    windowed: true,
                    swap_effect: 1,
                    window,
                },
            ),
            (AddrLookup::CreateDirect3D { .. }, _) => lookup.next(reply) == AddrLookup::Failed(
                AddrError::Direct3D,
            ),
            (AddrLookup::CreateDevice(_), AddrReply::Device(Some(true))) => lookup.next(reply)
                is GetSwapchain,
            (AddrLookup::CreateDevice(_), AddrReply::Device(Some(false))) => lookup.next(reply)
                == AddrLookup::Failed(AddrError::NoDevice),
            (AddrLookup::CreateDevice(_), _) => lookup.next(reply) == AddrLookup::Failed(
                AddrError::System,
            ),
            (AddrLookup::GetSwapchain, AddrReply::Done(true)) => lookup.next(reply)
                is ReadAddresses,
            (AddrLookup::GetSwapchain, _) => lookup.next(reply) == AddrLookup::Failed(
                AddrError::Swapchain,
            ),
            (AddrLookup::ReadAddresses, AddrReply::Addresses(functions)) => lookup.next(reply)
                == AddrLookup::Found(functions),
            _ => false,
        },
{
}

} // verus!
