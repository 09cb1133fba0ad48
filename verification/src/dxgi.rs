//! DXGI swapchains, which Direct3D 11 and 12 present with.

use crate::hooks::{dxgi_hook_order, HookPoint};
use vstd::prelude::*;

verus! {

/// Flag of a present that shows nothing.
pub const PRESENT_TEST: u32 = 1;

pub const FORMAT_R8G8B8A8_UNORM: i32 = 28;

pub const USAGE_RENDER_TARGET_OUTPUT: u32 = 0x20;

pub const SWAP_EFFECT_DISCARD: i32 = 0;

/// What a swapchain is drawn on with.
#[derive(Debug, Clone, Copy, PartialEq, Eq, Structural)]
pub enum Device {
    Dx12,
    Dx11,
}

/// The device to draw with.
pub open spec fn device_of(hwnd: bool, dx12: bool, dx11: bool) -> Option<Device> {
    if !hwnd {
        None
    } else if dx12 {
        Some(Device::Dx12)
    } else if dx11 {
        Some(Device::Dx11)
    } else {
        None
    }
}

/// The device to draw with: the Direct3D 12 device, if the swapchain has one, or else the
/// Direct3D 11 device.
pub fn draw_overlay(hwnd: bool, dx12: bool, dx11: bool) -> (r: Option<Device>)
    ensures
        r == device_of(hwnd, dx12, dx11),
        r == (if !hwnd {
            None
        } else if dx12 {
            Some(Device::Dx12)
        } else if dx11 {
            Some(Device::Dx11)
        } else {
            None
        }),
{
    if !hwnd {
        return None;
    }
    if dx12 {
        Some(Device::Dx12)
    } else if dx11 {
        Some(Device::Dx11)
    } else {
        None
    }
}

/// A program presents. Says whether to draw: a client is there, and something is shown.
pub fn hooked_present(flags: u32, connected: bool) -> (draw: bool)
    ensures
        draw == (flags & PRESENT_TEST == 0 && connected),
{
    proof {
        assert((flags & 1 == 1) == !(flags & 1 == 0)) by (bit_vector);
    }
    !(flags & PRESENT_TEST == PRESENT_TEST) && connected
}

/// A swapchain to read the addresses of its functions from.
#[derive(Debug, Clone, Copy, PartialEq, Eq, Structural)]
pub struct SwapchainPlan {
    pub buffer_count: u32,
    pub format: i32,
    pub sample_count: u32,
    pub usage: u32,
    pub window: u64,
    pub windowed: bool,
    pub swap_effect: i32,
}

/// A swapchain that presents to a window that does not show.
pub fn dummy_swapchain(window: u64) -> (r: SwapchainPlan)
    ensures
        r == (SwapchainPlan {
            buffer_count: 2,
            format: FORMAT_R8G8B8A8_UNORM,
            sample_count: 1,
            usage: USAGE_RENDER_TARGET_OUTPUT,
            window,
            windowed: true,
            swap_effect: SWAP_EFFECT_DISCARD,
        }),
{
    SwapchainPlan {
        buffer_count: 2,
        format: FORMAT_R8G8B8A8_UNORM,
        sample_count: 1,
        usage: USAGE_RENDER_TARGET_OUTPUT,
        window,
        windowed: true,
        swap_effect: SWAP_EFFECT_DISCARD,
    }
}

/// The addresses of a swapchain's functions. Older versions lack some.
#[derive(Debug, Clone, Copy, PartialEq, Eq, Structural)]
pub struct DxgiFunctions {
    pub present: u64,
    pub present1: Option<u64>,
    pub resize_buffers: u64,
    pub resize_buffers1: Option<u64>,
}

/// Why the addresses are not known.
#[derive(Debug, Clone, Copy, PartialEq, Eq, Structural)]
pub enum AddrError {
    /// A call to the system failed.
    System,
    /// The swapchain was made and not given.
    NoSwapchain,
}

impl AddrError {
    pub open spec fn text(self) -> Option<Seq<char>> {
        match self {
            AddrError::System => None,
            AddrError::NoSwapchain => Some("SwapChain creation failed"@),
        }
    }

    /// What went wrong, where the system does not tell.
    pub fn message(&self) -> (r: Option<&'static str>)
        ensures
            match r {
                Some(text) => self.text() == Some(text@),
                None => self.text() is None,
            },
    {
        match self {
            AddrError::System => None,
            AddrError::NoSwapchain => Some("SwapChain creation failed"),
        }
    }

    /// What was being done.
    pub fn context(&self) -> (r: &'static str)
        ensures
            r@ == "failed to load dxgi addrs"@,
    {
        "failed to load dxgi addrs"
    }
}

/// What came back from the system.
#[derive(Debug, Clone, Copy, PartialEq, Eq, Structural)]
pub enum AddrReply {
    /// Whether the call succeeded.
    Done(bool),
    /// Whether the swapchain was made, and if so whether it was given.
    Swapchain(Option<bool>),
    /// The address of a function, if the swapchain has it.
    Address(Option<u64>),
}

/// How far a look for the addresses has come, and so what to ask of the system.
#[derive(Debug, Clone, Copy, PartialEq, Eq, Structural)]
pub enum AddrLookup {
    CreateFactory { window: u64 },
    /// Get the first adapter.
    GetAdapter { window: u64 },
    CreateSwapchain(SwapchainPlan),
    ReadPresent,
    ReadResizeBuffers { present: u64 },
    ReadPresent1 { present: u64, resize_buffers: u64 },
    ReadResizeBuffers1 { present: u64, resize_buffers: u64, present1: Option<u64> },
    Found(DxgiFunctions),
    Failed(AddrError),
}

impl AddrLookup {
    /// Whether `reply` answers what is asked. The first two functions are in every swapchain.
    pub open spec fn awaits(self, reply: AddrReply) -> bool {
        match self {
            AddrLookup::CreateFactory { .. } => reply is Done,
            AddrLookup::GetAdapter { .. } => reply is Done,
            AddrLookup::CreateSwapchain(_) => reply is Swapchain,
            AddrLookup::ReadPresent => reply matches AddrReply::Address(Some(_)),
            AddrLookup::ReadResizeBuffers { .. } => reply matches AddrReply::Address(Some(_)),
            AddrLookup::ReadPresent1 { .. } => reply is Address,
            AddrLookup::ReadResizeBuffers1 { .. } => reply is Address,
            AddrLookup::Found(_) => false,
            AddrLookup::Failed(_) => false,
        }
    }

    /// Where the look for the addresses stands after `reply`.
    pub open spec fn next(self, reply: AddrReply) -> AddrLookup {
        match (self, reply) {
            (AddrLookup::CreateFactory { window }, AddrReply::Done(true)) => {
                AddrLookup::GetAdapter { window }
            },
            (AddrLookup::GetAdapter { window }, AddrReply::Done(true)) => {
                AddrLookup::CreateSwapchain(
                    SwapchainPlan {
                        buffer_count: 2,
                        format: FORMAT_R8G8B8A8_UNORM,
                        sample_count: 1,
                        usage: USAGE_RENDER_TARGET_OUTPUT,
                        window,
                        windowed: true,
                        swap_effect: SWAP_EFFECT_DISCARD,
                    },
                )
            },
            (AddrLookup::CreateSwapchain(_), AddrReply::Swapchain(Some(true))) => {
                AddrLookup::ReadPresent
            },
            (AddrLookup::CreateSwapchain(_), AddrReply::Swapchain(Some(false))) => {
                AddrLookup::Failed(AddrError::NoSwapchain)
            },
            (AddrLookup::ReadPresent, AddrReply::Address(Some(present))) => {
                AddrLookup::ReadResizeBuffers { present }
            },
            (
                AddrLookup::ReadResizeBuffers { present },
                AddrReply::Address(Some(resize_buffers)),
            ) => AddrLookup::ReadPresent1 { present, resize_buffers },
            (
                AddrLookup::ReadPresent1 { present, resize_buffers },
                AddrReply::Address(present1),
            ) => AddrLookup::ReadResizeBuffers1 { present, resize_buffers, present1 },
            (
                AddrLookup::ReadResizeBuffers1 { present, resize_buffers, present1 },
                AddrReply::Address(resize_buffers1),
            ) => AddrLookup::Found(
                DxgiFunctions { present, present1, resize_buffers, resize_buffers1 },
            ),
            _ => AddrLookup::Failed(AddrError::System),
        }
    }

    /// Tells what came back from the system.
    pub fn advance(&mut self, reply: AddrReply)
        requires
            old(self).awaits(reply),
        ensures
            *final(self) == old(self).next(reply),
    {
        *self =
        match (*self, reply) {
            (AddrLookup::CreateFactory { window }, AddrReply::Done(true)) => {
                AddrLookup::GetAdapter { window }
            },
            (AddrLookup::GetAdapter { window }, AddrReply::Done(true)) => {
                AddrLookup::CreateSwapchain(dummy_swapchain(window))
            },
            (AddrLookup::CreateSwapchain(_), AddrReply::Swapchain(Some(given))) => {
                if given {
                    AddrLookup::ReadPresent
                } else {
                    AddrLookup::Failed(AddrError::NoSwapchain)
                }
            },
            (AddrLookup::ReadPresent, AddrReply::Address(Some(present))) => {
                AddrLookup::ReadResizeBuffers { present }
            },
            (
                AddrLookup::ReadResizeBuffers { present },
                AddrReply::Address(Some(resize_buffers)),
            ) => AddrLookup::ReadPresent1 { present, resize_buffers },
            (
                AddrLookup::ReadPresent1 { present, resize_buffers },
                AddrReply::Address(present1),
            ) => AddrLookup::ReadResizeBuffers1 { present, resize_buffers, present1 },
            (
                AddrLookup::ReadResizeBuffers1 { present, resize_buffers, present1 },
                AddrReply::Address(resize_buffers1),
            ) => AddrLookup::Found(
                DxgiFunctions { present, present1, resize_buffers, resize_buffers1 },
            ),
            _ => AddrLookup::Failed(AddrError::System),
        };
    }
}

/// Begins to look for the addresses, with a window that does not show.
pub fn get_addr(window: u64) -> (r: AddrLookup)
    ensures
        r == (AddrLookup::CreateFactory { window }),
{
    AddrLookup::CreateFactory { window }
}

/// How far the registration for the end of a swapchain has come, and so what to do next.
#[derive(Debug, Clone, Copy, PartialEq, Eq, Structural)]
pub enum DestructionCallback {
    /// Ask the swapchain for its notifier.
    GetNotifier,
    /// Hand what is to be called, and what with, to the notifier.
    Register,
    /// The notifier calls back once, and what was handed over is given up there.
    Registered,
    /// What was to be handed over is given up here, as nothing will call back.
    Reclaim,
    /// Nothing was handed over.
    Unsupported,
}

impl DestructionCallback {
    /// What comes after what was to be done was done, or failed.
    pub open spec fn next(self, done: bool) -> DestructionCallback {
        match self {
            DestructionCallback::GetNotifier => if done {
                DestructionCallback::Register
            } else {
                DestructionCallback::Unsupported
            },
            DestructionCallback::Register => if done {
                DestructionCallback::Registered
            } else {
                DestructionCallback::Reclaim
            },
            over => over,
        }
    }

    /// Tells whether what was to be done was done.
    pub fn advance(&mut self, done: bool)
        ensures
            *final(self) == old(self).next(done),
    {
        *self =
        match *self {
            DestructionCallback::GetNotifier => if done {
                DestructionCallback::Register
            } else {
                DestructionCallback::Unsupported
            },
            DestructionCallback::Register => if done {
                DestructionCallback::Registered
            } else {
                DestructionCallback::Reclaim
            },
            over => over,
        };
    }
}

/// Begins to register for the end of a swapchain.
pub fn register_swapchain_destruction_callback() -> (r: DestructionCallback)
    ensures
        r == DestructionCallback::GetNotifier,
{
    DestructionCallback::GetNotifier
}

/// The functions to hook for DXGI, as far as there are any.
pub fn hook(functions: &DxgiFunctions) -> (r: Vec<HookPoint>)
    ensures
        r@ == dxgi_hook_order(functions.present1 is Some, functions.resize_buffers1 is Some),
{
    let mut order: Vec<HookPoint> = Vec::new();
    order.push(HookPoint::DxgiResizeBuffers);
    if functions.resize_buffers1.is_some() {
        order.push(HookPoint::DxgiResizeBuffers1);
    }
    order.push(HookPoint::DxgiPresent);
    if functions.present1.is_some() {
        order.push(HookPoint::DxgiPresent1);
    }
    assert(order@ =~= dxgi_hook_order(
        functions.present1 is Some,
        functions.resize_buffers1 is Some,
    ));
    order
}

/// The addresses that are found are those that were read, each for its own function and in the
/// order in which they were read, of a swapchain for the window that the look was begun with.
pub proof fn law_addresses_found(
    window: u64,
    present: u64,
    resize_buffers: u64,
    present1: Option<u64>,
    resize_buffers1: Option<u64>,
)
    ensures
        ({
            let factory = (AddrLookup::CreateFactory { window }).next(AddrReply::Done(true));
            let adapter = factory.next(AddrReply::Done(true));
            let made = adapter.next(AddrReply::Swapchain(Some(true)));
            let one = made.next(AddrReply::Address(Some(present)));
            let two = one.next(AddrReply::Address(Some(resize_buffers)));
            let three = two.next(AddrReply::Address(present1));
            let found = three.next(AddrReply::Address(resize_buffers1));
            &&& factory is GetAdapter
            &&& adapter == AddrLookup::CreateSwapchain(
                SwapchainPlan {
                    buffer_count: 2,
                    format: 28,
                    sample_count: 1,
                    usage: 0x20,
                    window,
                    windowed: true,
                    swap_effect: 0,
                },
            )
            &&& made is ReadPresent
            &&& one is ReadResizeBuffers
            &&& two is ReadPresent1
            &&& three is ReadResizeBuffers1
            &&& found matches AddrLookup::Found(functions) && functions.present == present
                && functions.resize_buffers == resize_buffers && functions.present1 == present1
                && functions.resize_buffers1 == resize_buffers1
        }),
{
}

/// A call that fails ends the look, and so does a swapchain that was made and not given, which is
/// told apart.
pub proof fn law_lookup_failed(lookup: AddrLookup, reply: AddrReply)
    requires
        lookup.awaits(reply),
    ensures
        lookup.next(reply) == AddrLookup::Failed(AddrError::NoSwapchain) <==> reply
            == AddrReply::Swapchain(Some(false)),
        lookup.next(reply) == AddrLookup::Failed(AddrError::System) <==> reply == AddrReply::Done(
            false,
        ) || reply == AddrReply::Swapchain(None),
{
}

/// What is to be called at the end of a swapchain is handed over where there is a notifier, and is
/// given up here exactly where it was to be handed over and was not.
pub proof fn law_callback_leads_on(done: bool)
    ensures
        DestructionCallback::GetNotifier.next(true) == DestructionCallback::Register,
        DestructionCallback::GetNotifier.next(false) == DestructionCallback::Unsupported,
        DestructionCallback::Register.next(true) == DestructionCallback::Registered,
        DestructionCallback::Register.next(false) == DestructionCallback::Reclaim,
        DestructionCallback::Registered.next(done) == DestructionCallback::Registered,
        DestructionCallback::Reclaim.next(done) == DestructionCallback::Reclaim,
        DestructionCallback::Unsupported.next(done) == DestructionCallback::Unsupported,
{
}

/// A swapchain is drawn on with a device that it has, with that of Direct3D 12 wherever it has
/// one, and not at all where it has neither or no window.
pub proof fn law_device(hwnd: bool, dx12: bool, dx11: bool)
    ensures
        device_of(hwnd, dx12, dx11) == Some(Device::Dx12) <==> hwnd && dx12,
        device_of(hwnd, dx12, dx11) == Some(Device::Dx11) <==> hwnd && dx11 && !dx12,
{
}

} // verus!
