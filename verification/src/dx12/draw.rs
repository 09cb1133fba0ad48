//! Drawing one frame of the overlay.

use crate::dx12::fence::{FenceWait, RendererFence, WaitStage};
use crate::dx12::rtv::MAX_RENDER_TARGETS;
use crate::render::UpdateSharedHandle;
use vstd::prelude::*;

verus! {

pub const RESOURCE_STATE_PRESENT: i32 = 0;

pub const RESOURCE_STATE_RENDER_TARGET: i32 = 4;

pub const BARRIER_ALL_SUBRESOURCES: u32 = 0xffff_ffff;

pub const TOPOLOGY_TRIANGLE_STRIP: i32 = 5;

pub const BARRIER_TYPE_TRANSITION: i32 = 0;

pub const BARRIER_FLAG_NONE: i32 = 0;

/// Bits of the single-precision float one.
pub const FLOAT_ONE_BITS: u32 = 0x3f80_0000;

pub const SRV_DIMENSION_TEXTURE2D: i32 = 4;

pub const SHADER_COMPONENT_MAPPING_DEFAULT: u32 = 5768;

/// The overlay texture of a renderer.
#[derive(Debug, Clone, Copy, PartialEq, Eq, Structural)]
pub enum TextureState {
    Empty,
    /// It is shared under a handle, and yet to be opened.
    Shared(u32),
    Opened,
}

/// The texture after an update.
pub open spec fn updated_texture(shared: UpdateSharedHandle) -> TextureState {
    match shared.handle {
        Some(handle) => TextureState::Shared(handle),
        None => TextureState::Empty,
    }
}

/// A renderer, as far as it decides what to do.
#[derive(Debug, Clone, Copy)]
pub struct Dx12Renderer {
    pub texture: TextureState,
    /// Fence value last submitted for the command allocator of each back buffer.
    pub saved_fence_val: [u64; 8],
    pub fence: RendererFence,
}

#[verifier::ext_equal]
pub ghost struct Dx12RendererView {
    pub texture: TextureState,
    pub saved_fence_val: Seq<u64>,
    pub fence_val: u64,
}

impl View for Dx12Renderer {
    type V = Dx12RendererView;

    open spec fn view(&self) -> Dx12RendererView {
        Dx12RendererView {
            texture: self.texture,
            saved_fence_val: self.saved_fence_val@,
            fence_val: self.fence.fence_val,
        }
    }
}

impl Dx12RendererView {
    /// No allocator waits for a value that was not submitted.
    pub open spec fn wf(self) -> bool {
        &&& self.saved_fence_val.len() == MAX_RENDER_TARGETS
        &&& forall|i: int|
            0 <= i < MAX_RENDER_TARGETS ==> #[trigger] self.saved_fence_val[i] <= self.fence_val
    }
}

/// A change of the back buffer's state, for all of its subresources.
#[derive(Debug, Clone, Copy, PartialEq, Eq, Structural)]
pub struct Transition {
    pub kind: i32,
    pub flags: i32,
    pub subresource: u32,
    pub before: i32,
    pub after: i32,
}

/// The back buffer goes from one state to another.
pub open spec fn state_change(from: i32, to: i32) -> Transition {
    Transition {
        kind: BARRIER_TYPE_TRANSITION,
        flags: BARRIER_FLAG_NONE,
        subresource: BARRIER_ALL_SUBRESOURCES,
        before: from,
        after: to,
    }
}

/// The back buffer goes from one state to another.
pub fn transition(from: i32, to: i32) -> (r: Transition)
    ensures
        r == state_change(from, to),
{
    Transition {
        kind: BARRIER_TYPE_TRANSITION,
        flags: BARRIER_FLAG_NONE,
        subresource: BARRIER_ALL_SUBRESOURCES,
        before: from,
        after: to,
    }
}

/// A command of a command list.
#[derive(Debug, Clone, Copy, PartialEq, Eq)]
pub enum Command {
    SetRootSignature,
    /// Set the constants of the overlay's place on the screen.
    SetPlace { parameter: u32, count: u32, offset: u32, position: (i32, i32), size: (u32, u32), screen: (u32, u32) },
    SetDescriptorHeap,
    SetDescriptorTable { parameter: u32 },
    /// The whole screen. The depths are single-precision floats, held as their bits.
    SetViewport { screen: (u32, u32), min_depth: u32, max_depth: u32 },
    /// The whole screen.
    SetScissor { screen: (u32, u32) },
    Barrier(Transition),
    SetRenderTarget { count: u32, single_range: bool },
    SetTopology(i32),
    Draw { vertices: u32, instances: u32, first_vertex: u32, first_instance: u32 },
}

/// The commands of one frame.
pub open spec fn frame_commands(
    position: (i32, i32),
    size: (u32, u32),
    screen: (u32, u32),
) -> Seq<Command> {
    seq![
        Command::SetRootSignature,
        Command::SetPlace { parameter: 0, count: 4, offset: 0, position, size, screen },
        Command::SetDescriptorHeap,
        Command::SetDescriptorTable { parameter: 1 },
        Command::SetViewport { screen, min_depth: 0, max_depth: FLOAT_ONE_BITS },
        Command::SetScissor { screen },
        Command::Barrier(state_change(RESOURCE_STATE_PRESENT, RESOURCE_STATE_RENDER_TARGET)),
        Command::SetRenderTarget { count: 1, single_range: true },
        Command::SetTopology(TOPOLOGY_TRIANGLE_STRIP),
        Command::Draw { vertices: 4, instances: 1, first_vertex: 0, first_instance: 0 },
        Command::Barrier(state_change(RESOURCE_STATE_RENDER_TARGET, RESOURCE_STATE_PRESENT)),
    ]
}

/// Gives the commands of one frame.
pub fn record(position: (i32, i32), size: (u32, u32), screen: (u32, u32)) -> (r: Vec<Command>)
    ensures
        r@ == frame_commands(position, size, screen),
{
    let mut commands: Vec<Command> = Vec::new();
    commands.push(Command::SetRootSignature);
    commands.push(Command::SetPlace { parameter: 0, count: 4, offset: 0, position, size, screen });
    commands.push(Command::SetDescriptorHeap);
    commands.push(Command::SetDescriptorTable { parameter: 1 });
    commands.push(Command::SetViewport { screen, min_depth: 0, max_depth: FLOAT_ONE_BITS });
    commands.push(Command::SetScissor { screen });
    commands.push(
        Command::Barrier(transition(RESOURCE_STATE_PRESENT, RESOURCE_STATE_RENDER_TARGET)),
    );
    commands.push(Command::SetRenderTarget { count: 1, single_range: true });
    commands.push(Command::SetTopology(TOPOLOGY_TRIANGLE_STRIP));
    commands.push(Command::Draw { vertices: 4, instances: 1, first_vertex: 0, first_instance: 0 });
    commands.push(
        Command::Barrier(transition(RESOURCE_STATE_RENDER_TARGET, RESOURCE_STATE_PRESENT)),
    );
    assert(commands@ =~= frame_commands(position, size, screen));
    commands
}

/// The state of the back buffer after commands, or nothing where a barrier expects another state
/// than it is in or it is drawn to in another state than that of a render target.
pub open spec fn back_buffer_after(commands: Seq<Command>, state: i32) -> Option<i32>
    decreases commands.len(),
{
    if commands.len() == 0 {
        Some(state)
    } else {
        match (back_buffer_after(commands.drop_last(), state), commands.last()) {
            (Some(now), Command::Barrier(barrier)) => if barrier.before == now {
                Some(barrier.after)
            } else {
                None
            },
            (Some(now), Command::Draw { .. }) => if now == RESOURCE_STATE_RENDER_TARGET {
                Some(now)
            } else {
                None
            },
            (now, _) => now,
        }
    }
}

proof fn lemma_back_buffer_step(commands: Seq<Command>, last: Command, state: i32)
    ensures
        back_buffer_after(commands.push(last), state) == (match (
            back_buffer_after(commands, state),
            last,
        ) {
            (Some(now), Command::Barrier(barrier)) => if barrier.before == now {
                Some(barrier.after)
            } else {
                None
            },
            (Some(now), Command::Draw { .. }) => if now == RESOURCE_STATE_RENDER_TARGET {
                Some(now)
            } else {
                None
            },
            (now, _) => now,
        }),
{
    assert(commands.push(last).drop_last() =~= commands);
}

/// A frame finds the back buffer ready to present, draws to it as a render target, and leaves it
/// ready to present.
pub proof fn law_back_buffer_restored(position: (i32, i32), size: (u32, u32), screen: (u32, u32))
    ensures
        back_buffer_after(frame_commands(position, size, screen), RESOURCE_STATE_PRESENT) == Some(
            RESOURCE_STATE_PRESENT,
        ),
{
    let commands = frame_commands(position, size, screen);
    let present = RESOURCE_STATE_PRESENT;
    assert(commands.take(0) =~= Seq::<Command>::empty());
    assert(back_buffer_after(commands.take(0), present) == Some(present));
    assert(commands.take(1) =~= commands.take(0).push(commands[0]));
    assert(commands.take(2) =~= commands.take(1).push(commands[1]));
    assert(commands.take(3) =~= commands.take(2).push(commands[2]));
    assert(commands.take(4) =~= commands.take(3).push(commands[3]));
    assert(commands.take(5) =~= commands.take(4).push(commands[4]));
    assert(commands.take(6) =~= commands.take(5).push(commands[5]));
    assert(commands.take(7) =~= commands.take(6).push(commands[6]));
    assert(commands.take(8) =~= commands.take(7).push(commands[7]));
    assert(commands.take(9) =~= commands.take(8).push(commands[8]));
    assert(commands.take(10) =~= commands.take(9).push(commands[9]));
    assert(commands =~= commands.take(10).push(commands[10]));
    lemma_back_buffer_step(commands.take(0), commands[0], present);
    lemma_back_buffer_step(commands.take(1), commands[1], present);
    lemma_back_buffer_step(commands.take(2), commands[2], present);
    lemma_back_buffer_step(commands.take(3), commands[3], present);
    lemma_back_buffer_step(commands.take(4), commands[4], present);
    lemma_back_buffer_step(commands.take(5), commands[5], present);
    lemma_back_buffer_step(commands.take(6), commands[6], present);
    lemma_back_buffer_step(commands.take(7), commands[7], present);
    lemma_back_buffer_step(commands.take(8), commands[8], present);
    lemma_back_buffer_step(commands.take(9), commands[9], present);
    lemma_back_buffer_step(commands.take(10), commands[10], present);
}

/// Why a frame was not drawn.
#[derive(Debug, Clone, Copy, PartialEq, Eq, Structural)]
pub enum DrawError {
    /// The device opened the shared texture and gave none.
    NoTexture,
    /// A call to the device failed.
    Device,
}

impl DrawError {
    pub open spec fn text(self) -> Option<Seq<char>> {
        match self {
            DrawError::NoTexture => Some("cannot open shared texture"@),
            DrawError::Device => None,
        }
    }

    /// What went wrong, where the device does not tell.
    pub fn message(&self) -> (r: Option<&'static str>)
        ensures
            match r {
                Some(text) => self.text() == Some(text@),
                None => self.text() is None,
            },
    {
        match self {
            DrawError::NoTexture => Some("cannot open shared texture"),
            DrawError::Device => None,
        }
    }
}

/// What opening a shared texture gave.
#[derive(Debug, Clone, Copy, PartialEq, Eq, Structural)]
pub enum OpenReply {
    Failed,
    /// The call succeeded and gave no texture.
    Nothing,
    /// The texture's size and format.
    Texture { width: u64, height: u32, format: i32 },
}

/// What came back from the device.
#[derive(Debug, Clone, Copy, PartialEq, Eq, Structural)]
pub enum DrawReply {
    Opened(OpenReply),
    /// Whether the call succeeded.
    Done(bool),
}

/// What to ask of the device.
#[derive(Debug, Clone, Copy, PartialEq, Eq)]
pub enum DrawAction {
    OpenTexture { handle: u32 },
    /// Make a view of the only level of a two-dimensional texture.
    CreateView { mapping: u32, format: i32, dimension: i32, mip_levels: u32 },
    /// Wait until the fence has reached a value.
    WaitFence { value: u64 },
    GetBackBuffer { index: u32 },
    ResetAllocator { index: u32 },
    ResetList { index: u32 },
    Record { position: (i32, i32), size: (u32, u32), screen: (u32, u32) },
    CloseList { index: u32 },
    Execute { index: u32 },
    /// Have the queue signal the fence.
    Signal { value: u64 },
    Finish(Result<(), DrawError>),
}

/// How far a draw has come.
#[derive(Debug, Clone, Copy, PartialEq, Eq, Structural)]
pub enum DrawStage {
    Opening { handle: u32 },
    CreatingView { format: i32 },
    WaitingFence { value: u64 },
    GettingBackBuffer,
    ResettingAllocator,
    ResettingList,
    Recording,
    Closing,
    Executing,
    Signalling { value: u64 },
    Finished,
    Failed(DrawError),
}

/// A draw in progress.
#[derive(Debug, Clone, Copy, PartialEq, Eq)]
pub struct Draw {
    pub index: u32,
    pub position: (i32, i32),
    pub size: (u32, u32),
    pub screen: (u32, u32),
    pub stage: DrawStage,
}

/// Where a draw stands once the texture is there: an allocator is there for the first back
/// buffers only.
pub open spec fn with_texture(renderer: Dx12RendererView, index: u32) -> DrawStage {
    if index < MAX_RENDER_TARGETS {
        DrawStage::WaitingFence { value: renderer.saved_fence_val[index as int] }
    } else {
        DrawStage::Finished
    }
}

/// Where a draw begins.
pub open spec fn first_stage(
    renderer: Dx12RendererView,
    index: u32,
    screen: (u32, u32),
) -> DrawStage {
    if screen.0 == 0 || screen.1 == 0 {
        DrawStage::Finished
    } else {
        match renderer.texture {
            TextureState::Empty => DrawStage::Finished,
            TextureState::Shared(handle) => DrawStage::Opening { handle },
            TextureState::Opened => with_texture(renderer, index),
        }
    }
}

impl Draw {
    /// A stage that was reached with a texture concerns a back buffer that has an allocator.
    pub open spec fn wf(self) -> bool {
        match self.stage {
            DrawStage::Opening { .. } => true,
            DrawStage::CreatingView { .. } => true,
            DrawStage::Finished => true,
            DrawStage::Failed(_) => true,
            _ => self.index < MAX_RENDER_TARGETS,
        }
    }

    /// A value that is to be signalled is the next one of the renderer's fence.
    pub open spec fn follows(self, renderer: Dx12RendererView) -> bool {
        self.stage matches DrawStage::Signalling { value } ==> value == renderer.fence_val + 1
    }

    /// Whether `reply` answers what the draw asks.
    pub open spec fn awaits(self, reply: DrawReply) -> bool {
        match self.stage {
            DrawStage::Opening { .. } => reply is Opened,
            DrawStage::Finished => false,
            DrawStage::Failed(_) => false,
            _ => reply is Done,
        }
    }

    /// What the draw asks for.
    pub open spec fn asks(self) -> DrawAction {
        let index = self.index;
        match self.stage {
            DrawStage::Opening { handle } => DrawAction::OpenTexture { handle },
            DrawStage::CreatingView { format } => DrawAction::CreateView {
                mapping: SHADER_COMPONENT_MAPPING_DEFAULT,
                format,
                dimension: SRV_DIMENSION_TEXTURE2D,
                mip_levels: 1,
            },
            DrawStage::WaitingFence { value } => DrawAction::WaitFence { value },
            DrawStage::GettingBackBuffer => DrawAction::GetBackBuffer { index },
            DrawStage::ResettingAllocator => DrawAction::ResetAllocator { index },
            DrawStage::ResettingList => DrawAction::ResetList { index },
            DrawStage::Recording => DrawAction::Record {
                position: self.position,
                size: self.size,
                screen: self.screen,
            },
            DrawStage::Closing => DrawAction::CloseList { index },
            DrawStage::Executing => DrawAction::Execute { index },
            DrawStage::Signalling { value } => DrawAction::Signal { value },
            DrawStage::Finished => DrawAction::Finish(Ok(())),
            DrawStage::Failed(err) => DrawAction::Finish(Err(err)),
        }
    }

    /// Where the draw stands after `reply`. To make a view, to wait, to record and to execute
    /// cannot fail.
    pub open spec fn next(self, renderer: Dx12RendererView, reply: DrawReply) -> DrawStage {
        match (self.stage, reply) {
            (DrawStage::Opening { .. }, DrawReply::Opened(OpenReply::Nothing)) => {
                DrawStage::Failed(DrawError::NoTexture)
            },
            (
                DrawStage::Opening { .. },
                DrawReply::Opened(OpenReply::Texture { width, height, format }),
            ) => if width == 0 || height == 0 {
                DrawStage::Finished
            } else {
                DrawStage::CreatingView { format }
            },
            (DrawStage::CreatingView { .. }, _) => with_texture(renderer, self.index),
            (DrawStage::WaitingFence { .. }, _) => DrawStage::GettingBackBuffer,
            (DrawStage::GettingBackBuffer, DrawReply::Done(true)) => DrawStage::ResettingAllocator,
            (DrawStage::ResettingAllocator, DrawReply::Done(true)) => DrawStage::ResettingList,
            (DrawStage::ResettingList, DrawReply::Done(true)) => DrawStage::Recording,
            (DrawStage::Recording, _) => DrawStage::Closing,
            (DrawStage::Closing, DrawReply::Done(true)) => DrawStage::Executing,
            (DrawStage::Executing, _) => DrawStage::Signalling {
                value: (renderer.fence_val + 1) as u64,
            },
            (DrawStage::Signalling { .. }, DrawReply::Done(true)) => DrawStage::Finished,
            _ => DrawStage::Failed(DrawError::Device),
        }
    }

    /// The renderer after `reply`.
    pub open spec fn renderer_after(
        self,
        renderer: Dx12RendererView,
        reply: DrawReply,
    ) -> Dx12RendererView {
        match (self.stage, reply) {
            (DrawStage::CreatingView { .. }, _) => Dx12RendererView {
                texture: TextureState::Opened,
                ..renderer
            },
            (DrawStage::Signalling { .. }, DrawReply::Done(true)) => {
                let signalled = (renderer.fence_val + 1) as u64;
                Dx12RendererView {
                    saved_fence_val: renderer.saved_fence_val.update(self.index as int, signalled),
                    fence_val: signalled,
                    ..renderer
                }
            },
            _ => renderer,
        }
    }

    /// What to ask of the device now.
    pub fn action(&self) -> (r: DrawAction)
        ensures
            r == self.asks(),
    {
        let index: u32 = self.index;
        match self.stage {
            DrawStage::Opening { handle } => DrawAction::OpenTexture { handle },
            DrawStage::CreatingView { format } => DrawAction::CreateView {
                mapping: SHADER_COMPONENT_MAPPING_DEFAULT,
                format,
                dimension: SRV_DIMENSION_TEXTURE2D,
                mip_levels: 1,
            },
            DrawStage::WaitingFence { value } => DrawAction::WaitFence { value },
            DrawStage::GettingBackBuffer => DrawAction::GetBackBuffer { index },
            DrawStage::ResettingAllocator => DrawAction::ResetAllocator { index },
            DrawStage::ResettingList => DrawAction::ResetList { index },
            DrawStage::Recording => DrawAction::Record {
                position: self.position,
                size: self.size,
                screen: self.screen,
            },
            DrawStage::Closing => DrawAction::CloseList { index },
            DrawStage::Executing => DrawAction::Execute { index },
            DrawStage::Signalling { value } => DrawAction::Signal { value },
            DrawStage::Finished => DrawAction::Finish(Ok(())),
            DrawStage::Failed(err) => DrawAction::Finish(Err(err)),
        }
    }
}

impl Dx12Renderer {
    /// A renderer without a texture, that nothing was submitted with.
    pub fn new() -> (r: Dx12Renderer)
        ensures
            r@.texture is Empty,
            r@.fence_val == 0,
            forall|i: int| 0 <= i < MAX_RENDER_TARGETS ==> #[trigger] r@.saved_fence_val[i] == 0,
            r@.wf(),
    {
        Dx12Renderer {
            texture: TextureState::Empty,
            saved_fence_val: [0, 0, 0, 0, 0, 0, 0, 0],
            fence: RendererFence::new(),
        }
    }

    /// Takes another texture to draw. The wait for what was submitted with the old one has to be
    /// over before the old texture goes.
    pub fn update_texture(&mut self, shared: UpdateSharedHandle) -> (r: FenceWait)
        ensures
            final(self)@ == (Dx12RendererView { texture: updated_texture(shared), ..old(self)@ }),
            r == (FenceWait { value: old(self)@.fence_val, stage: WaitStage::Querying }),
    {
        let wait = self.fence.wait_pending();
        self.texture =
        match shared.handle {
            Some(handle) => TextureState::Shared(handle),
            None => TextureState::Empty,
        };
        wait
    }

    fn texture_stage(&self, index: u32) -> (r: DrawStage)
        ensures
            r == with_texture(self@, index),
    {
        if (index as usize) < MAX_RENDER_TARGETS {
            DrawStage::WaitingFence { value: self.saved_fence_val[index as usize] }
        } else {
            DrawStage::Finished
        }
    }

    /// Begins to draw the overlay on back buffer `index`. Nothing is drawn on an empty screen,
    /// without a texture, or on a back buffer beyond those that have an allocator.
    pub fn draw(
        &self,
        index: u32,
        position: (i32, i32),
        size: (u32, u32),
        screen: (u32, u32),
    ) -> (r: Draw)
        ensures
            r == (Draw { index, position, size, screen, stage: first_stage(self@, index, screen) }),
            r.wf(),
            r.follows(self@),
    {
        let stage = if screen.0 == 0 || screen.1 == 0 {
            DrawStage::Finished
        } else {
            match self.texture {
                TextureState::Empty => DrawStage::Finished,
                TextureState::Shared(handle) => DrawStage::Opening { handle },
                TextureState::Opened => self.texture_stage(index),
            }
        };
        Draw { index, position, size, screen, stage }
    }

    /// Tells a draw what came back from the device.
    pub fn advance_draw(&mut self, draw: &mut Draw, reply: DrawReply)
        requires
            old(self)@.wf(),
            old(draw).wf(),
            old(draw).follows(old(self)@),
            old(draw).stage is Executing ==> old(self)@.fence_val < u64::MAX,
            old(draw).awaits(reply),
        ensures
            *final(draw) == (Draw { stage: old(draw).next(old(self)@, reply), ..*old(draw) }),
            final(draw).wf(),
            final(draw).follows(final(self)@),
            final(self)@ == old(draw).renderer_after(old(self)@, reply),
            final(self)@.wf(),
    {
        let failed = DrawStage::Failed(DrawError::Device);
        let done = match reply {
            DrawReply::Done(done) => done,
            DrawReply::Opened(_) => false,
        };
        draw.stage =
        match draw.stage {
            DrawStage::Opening { .. } => match reply {
                DrawReply::Opened(OpenReply::Nothing) => DrawStage::Failed(DrawError::NoTexture),
                DrawReply::Opened(OpenReply::Texture { width, height, format }) => {
                    if width == 0 || height == 0 {
                        DrawStage::Finished
                    } else {
                        DrawStage::CreatingView { format }
                    }
                },
                _ => failed,
            },
            DrawStage::CreatingView { .. } => {
                self.texture = TextureState::Opened;
                self.texture_stage(draw.index)
            },
            DrawStage::WaitingFence { .. } => DrawStage::GettingBackBuffer,
            DrawStage::Recording => DrawStage::Closing,
            DrawStage::Executing => DrawStage::Signalling { value: self.fence.next_value() },
            DrawStage::Signalling { .. } => {
                self.fence.register(done);
                if done {
                    self.saved_fence_val[draw.index as usize] = self.fence.current_value();
                    DrawStage::Finished
                } else {
                    failed
                }
            },
            _ if !done => failed,
            DrawStage::GettingBackBuffer => DrawStage::ResettingAllocator,
            DrawStage::ResettingAllocator => DrawStage::ResettingList,
            DrawStage::ResettingList => DrawStage::Recording,
            DrawStage::Closing => DrawStage::Executing,
            _ => failed,
        };
    }
}

/// The renderer and the draw after `replies`.
pub open spec fn draw_run(
    renderer: Dx12RendererView,
    draw: Draw,
    replies: Seq<DrawReply>,
) -> (Dx12RendererView, Draw)
    decreases replies.len(),
{
    if replies.len() == 0 {
        (renderer, draw)
    } else {
        let (renderer, draw) = draw_run(renderer, draw, replies.drop_last());
        (
            draw.renderer_after(renderer, replies.last()),
            Draw { stage: draw.next(renderer, replies.last()), ..draw },
        )
    }
}

/// Whether each of `replies` answers what the draw asked. A fence whose values have run out has
/// none for another frame.
pub open spec fn draw_awaits(
    renderer: Dx12RendererView,
    draw: Draw,
    replies: Seq<DrawReply>,
) -> bool
    decreases replies.len(),
{
    replies.len() == 0 || {
        let (now, asking) = draw_run(renderer, draw, replies.drop_last());
        &&& draw_awaits(renderer, draw, replies.drop_last())
        &&& asking.awaits(replies.last())
        &&& asking.stage is Executing ==> now.fence_val < u64::MAX
    }
}

/// What has become of the renderer by the time a draw has come to a stage.
spec fn drawn(
    before: Dx12RendererView,
    start: Draw,
    renderer: Dx12RendererView,
    draw: Draw,
) -> bool {
    &&& draw == (Draw { stage: draw.stage, ..start })
    &&& draw.wf()
    &&& match draw.stage {
        DrawStage::Signalling { value } => renderer.fence_val == before.fence_val && value
            == before.fence_val + 1 && renderer.saved_fence_val == before.saved_fence_val,
        DrawStage::Finished => submitted(before, renderer, draw.index) || (renderer.fence_val
            == before.fence_val && renderer.saved_fence_val == before.saved_fence_val),
        _ => renderer.fence_val == before.fence_val && renderer.saved_fence_val
            == before.saved_fence_val,
    }
    &&& draw.stage matches DrawStage::WaitingFence { value } ==> value
        == before.saved_fence_val[draw.index as int]
}

/// The frame was submitted with the next value of the fence, and that is what the next frame on
/// the same back buffer waits for.
pub open spec fn submitted(
    before: Dx12RendererView,
    after: Dx12RendererView,
    index: u32,
) -> bool {
    &&& index < MAX_RENDER_TARGETS
    &&& after.fence_val == before.fence_val + 1
    &&& after.saved_fence_val == before.saved_fence_val.update(index as int, after.fence_val)
}

proof fn lemma_drawn(renderer: Dx12RendererView, draw: Draw, replies: Seq<DrawReply>)
    requires
        renderer.wf(),
        draw.stage == first_stage(renderer, draw.index, draw.screen),
        draw_awaits(renderer, draw, replies),
    ensures
        drawn(
            renderer,
            draw,
            draw_run(renderer, draw, replies).0,
            draw_run(renderer, draw, replies).1,
        ),
    decreases replies.len(),
{
    if replies.len() > 0 {
        lemma_drawn(renderer, draw, replies.drop_last());
    }
}

/// A command allocator is reset only after the fence value of its last submission was waited
/// for: that wait is the second last thing that was asked before.
pub proof fn law_allocator_reset_after_wait(
    renderer: Dx12RendererView,
    draw: Draw,
    replies: Seq<DrawReply>,
)
    requires
        renderer.wf(),
        draw.stage == first_stage(renderer, draw.index, draw.screen),
        draw_awaits(renderer, draw, replies),
        draw_run(renderer, draw, replies).1.asks() is ResetAllocator,
    ensures
        draw.index < MAX_RENDER_TARGETS,
        replies.len() >= 2,
        draw_run(renderer, draw, replies.drop_last().drop_last()).1.asks() == (
        DrawAction::WaitFence { value: renderer.saved_fence_val[draw.index as int] }),
{
    assert(replies.len() > 0);
    let one = replies.drop_last();
    lemma_drawn(renderer, draw, replies);
    assert(draw_run(renderer, draw, one).1.stage is GettingBackBuffer);
    assert(draw_awaits(renderer, draw, one));
    assert(one.len() > 0);
    lemma_drawn(renderer, draw, one.drop_last());
}

/// A draw that is over has either submitted a frame, which the next one on the same back buffer
/// waits for, or left the fence and what is waited for alone. Where it failed, and so where the
/// queue did not signal, it has left them alone.
pub proof fn law_submission_recorded(
    renderer: Dx12RendererView,
    draw: Draw,
    replies: Seq<DrawReply>,
)
    requires
        renderer.wf(),
        draw.stage == first_stage(renderer, draw.index, draw.screen),
        draw_awaits(renderer, draw, replies),
    ensures
        ({
            let (after, draw) = draw_run(renderer, draw, replies);
            match draw.asks() {
                DrawAction::Finish(Ok(())) => submitted(renderer, after, draw.index) || (
                after.fence_val == renderer.fence_val && after.saved_fence_val
                    == renderer.saved_fence_val),
                DrawAction::Finish(Err(_)) => after.fence_val == renderer.fence_val
                    && after.saved_fence_val == renderer.saved_fence_val,
                DrawAction::Signal { value } => value == renderer.fence_val + 1 && after.fence_val
                    == renderer.fence_val,
                _ => true,
            }
        }),
{
    lemma_drawn(renderer, draw, replies);
}

/// Command `i` comes before command `drawn`, and no other command of its kind comes in between, so
/// that it is the one in force.
pub open spec fn last_of_kind(
    commands: Seq<Command>,
    kind: spec_fn(Command) -> bool,
    drawn: int,
    i: int,
) -> bool {
    &&& 0 <= i < drawn
    &&& kind(commands[i])
    &&& forall|j: int| i < j < drawn ==> !kind(#[trigger] commands[j])
}

/// What is drawn is drawn to the whole screen, at the overlay's place: for every place and screen,
/// the viewport and the scissor in force when it is drawn are those of the screen, and the
/// constants in force are the place itself. The four corners are drawn once.
pub proof fn law_drawn_to_whole_screen(
    position: (i32, i32),
    size: (u32, u32),
    screen: (u32, u32),
    drawn: int,
    viewport: int,
    scissor: int,
    place: int,
)
    requires
        0 <= drawn < frame_commands(position, size, screen).len(),
        frame_commands(position, size, screen)[drawn] is Draw,
    ensures
        ({
            let commands = frame_commands(position, size, screen);
            let is_viewport = |c: Command| c is SetViewport;
            let is_scissor = |c: Command| c is SetScissor;
            let is_place = |c: Command| c is SetPlace;
            &&& exists|i: int| last_of_kind(commands, is_viewport, drawn, i)
            &&& exists|i: int| last_of_kind(commands, is_scissor, drawn, i)
            &&& exists|i: int| last_of_kind(commands, is_place, drawn, i)
            &&& last_of_kind(commands, is_viewport, drawn, viewport) ==> commands[viewport] == (
            Command::SetViewport { screen, min_depth: 0, max_depth: 0x3f80_0000 })
            &&& last_of_kind(commands, is_scissor, drawn, scissor) ==> commands[scissor] == (
            Command::SetScissor { screen })
            &&& last_of_kind(commands, is_place, drawn, place) ==> commands[place] == (
            Command::SetPlace { parameter: 0, count: 4, offset: 0, position, size, screen })
            &&& commands[drawn] == (Command::Draw {
                vertices: 4,
                instances: 1,
                first_vertex: 0,
                first_instance: 0,
            })
            &&& forall|j: int|
                0 <= j < commands.len() && j != drawn ==> !(#[trigger] commands[j] is Draw)
        }),
{
    let commands = frame_commands(position, size, screen);
    let is_viewport = |c: Command| c is SetViewport;
    let is_scissor = |c: Command| c is SetScissor;
    let is_place = |c: Command| c is SetPlace;
    assert(drawn == 9);
    assert(last_of_kind(commands, is_viewport, drawn, 4));
    assert(last_of_kind(commands, is_scissor, drawn, 5));
    assert(last_of_kind(commands, is_place, drawn, 1));
}

/// Everything that a frame draws with is set before it is drawn, and it is drawn between the two
/// barriers.
pub proof fn law_set_before_drawn(
    position: (i32, i32),
    size: (u32, u32),
    screen: (u32, u32),
    drawn: int,
)
    requires
        0 <= drawn < frame_commands(position, size, screen).len(),
        frame_commands(position, size, screen)[drawn] is Draw,
    ensures
        ({
            let before = frame_commands(position, size, screen).take(drawn);
            &&& before.contains(Command::SetRootSignature)
            &&& before.contains(Command::SetDescriptorHeap)
            &&& before.contains(Command::SetDescriptorTable { parameter: 1 })
            &&& before.contains(Command::SetRenderTarget { count: 1, single_range: true })
            &&& before.contains(Command::SetTopology(5))
            &&& before.contains(
                Command::Barrier(
                    Transition { kind: 0, flags: 0, subresource: 0xffff_ffff, before: 0, after: 4 },
                ),
            )
            &&& frame_commands(position, size, screen).last() == Command::Barrier(
                Transition { kind: 0, flags: 0, subresource: 0xffff_ffff, before: 4, after: 0 },
            )
        }),
{
    let commands = frame_commands(position, size, screen);
    let before = commands.take(drawn);
    assert(drawn == 9);
    assert(before[0] == commands[0]);
    assert(before[2] == commands[2]);
    assert(before[3] == commands[3]);
    assert(before[6] == commands[6]);
    assert(before[7] == commands[7]);
    assert(before[8] == commands[8]);
}

/// A draw begins to open the texture where there is one to open, and to wait where there is one to
/// draw. It ends at once on a screen without an extent and without a texture.
pub proof fn law_draw_begins(
    renderer: Dx12RendererView,
    index: u32,
    position: (i32, i32),
    size: (u32, u32),
    screen: (u32, u32),
)
    ensures
        ({
            let draw = Draw {
                index,
                position,
                size,
                screen,
                stage: first_stage(renderer, index, screen),
            };
            let shown = screen.0 > 0 && screen.1 > 0;
            &&& draw.asks() is OpenTexture <==> shown && renderer.texture is Shared
            &&& shown ==> (renderer.texture matches TextureState::Shared(handle) ==> draw.asks()
                == DrawAction::OpenTexture { handle })
            &&& draw.asks() is WaitFence <==> shown && renderer.texture is Opened && index < 8
            &&& draw.asks() matches DrawAction::WaitFence { value } ==> value
                == renderer.saved_fence_val[index as int]
            &&& draw.asks() == DrawAction::Finish(Ok(())) <==> !shown || renderer.texture is Empty
                || (renderer.texture is Opened && index >= 8)
        }),
{
}

/// A texture that is to be shown is opened under its own handle, and without one there is none.
pub proof fn law_texture_taken(shared: UpdateSharedHandle, handle: u32)
    ensures
        updated_texture(shared) == TextureState::Shared(handle) <==> shared.handle == Some(handle),
        updated_texture(shared) is Empty <==> shared.handle is None,
        !(updated_texture(shared) is Opened),
{
}

/// What a draw asks next follows from what it asked and what came back, and what it asks concerns
/// its own back buffer, place and screen. It fails exactly where a call fails that can.
pub proof fn law_draw_leads_on(renderer: Dx12RendererView, draw: Draw, reply: DrawReply)
    requires
        draw.awaits(reply),
        draw.asks() is Execute ==> renderer.fence_val < u64::MAX,
    ensures
        ({
            let then = (Draw { stage: draw.next(renderer, reply), ..draw }).asks();
            let index = draw.index;
            match draw.asks() {
                DrawAction::OpenTexture { .. } => match reply {
                    DrawReply::Opened(OpenReply::Texture { width, height, format }) => {
                        if width > 0 && height > 0 {
                            then == (DrawAction::CreateView {
                                mapping: 5768,
                                format,
                                dimension: 4,
                                mip_levels: 1,
                            })
                        } else {
                            then == DrawAction::Finish(Ok(()))
                        }
                    },
                    DrawReply::Opened(OpenReply::Nothing) => then == DrawAction::Finish(
                        Err(DrawError::NoTexture),
                    ),
                    _ => then == DrawAction::Finish(Err(DrawError::Device)),
                },
                DrawAction::CreateView { .. } => if index < 8 {
                    then == (DrawAction::WaitFence {
                        value: renderer.saved_fence_val[index as int],
                    })
                } else {
                    then == DrawAction::Finish(Ok(()))
                },
                DrawAction::WaitFence { .. } => then == (DrawAction::GetBackBuffer { index }),
                DrawAction::Record { .. } => then == (DrawAction::CloseList { index }),
                DrawAction::Execute { .. } => then matches DrawAction::Signal { value } && value
                    == renderer.fence_val + 1,
                _ if reply == DrawReply::Done(false) => then == DrawAction::Finish(
                    Err(DrawError::Device),
                ),
                DrawAction::GetBackBuffer { .. } => then == (DrawAction::ResetAllocator { index }),
                DrawAction::ResetAllocator { .. } => then == (DrawAction::ResetList { index }),
                DrawAction::ResetList { .. } => then == (DrawAction::Record {
                    position: draw.position,
                    size: draw.size,
                    screen: draw.screen,
                }),
                DrawAction::CloseList { .. } => then == (DrawAction::Execute { index }),
                DrawAction::Signal { .. } => then == DrawAction::Finish(Ok(())),
                DrawAction::Finish(_) => false,
            }
        }),
{
}

/// The renderer has a texture to draw once the view of it is made, and counts a submission once
/// the queue has signalled it. Nothing else changes it.
pub proof fn law_draw_changes(renderer: Dx12RendererView, draw: Draw, reply: DrawReply, other: int)
    requires
        draw.awaits(reply),
        draw.wf(),
        renderer.wf(),
        draw.asks() is Signal ==> renderer.fence_val < u64::MAX,
        0 <= other < MAX_RENDER_TARGETS,
    ensures
        ({
            let after = draw.renderer_after(renderer, reply);
            &&& draw.asks() is CreateView ==> after.texture is Opened
            &&& !(draw.asks() is CreateView) ==> after.texture == renderer.texture
            &&& draw.asks() is Signal && reply == DrawReply::Done(true) ==> after.fence_val
                == renderer.fence_val + 1 && after.saved_fence_val[draw.index as int]
                == renderer.fence_val + 1
            &&& !(draw.asks() is Signal && reply == DrawReply::Done(true)) ==> after.fence_val
                == renderer.fence_val && after.saved_fence_val == renderer.saved_fence_val
            &&& other != draw.index ==> after.saved_fence_val[other]
                == renderer.saved_fence_val[other]
        }),
{
}

} // verus!
