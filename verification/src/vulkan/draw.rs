//! Drawing one frame of the overlay.

use crate::vulkan::setup::{BIND_POINT_GRAPHICS, SHADER_STAGE_VERTEX};
use crate::vulkan::{FrameData, RendererView, VulkanRenderer};
use vstd::prelude::*;

verus! {

/// Pipeline stage that a wait semaphore holds back.
pub const STAGE_TOP_OF_PIPE: u32 = 0b1;

/// A wait without a limit.
pub const NO_TIMEOUT_NS: u64 = 0xffff_ffff_ffff_ffff;

/// A command pool is reset without giving its memory back.
pub const RESET_KEEPS_RESOURCES: u32 = 0;

/// A command buffer is submitted once.
pub const ONE_TIME_SUBMIT: u32 = 0b1;

/// The commands of a pass stand in the command buffer itself.
pub const SUBPASS_INLINE: i32 = 0;

/// A rectangle of an image.
#[derive(Debug, Clone, Copy, PartialEq, Eq, Structural)]
pub struct Area {
    pub x: i32,
    pub y: i32,
    pub width: u32,
    pub height: u32,
}

pub open spec fn at_least_zero(v: i32) -> i32 {
    if v < 0 {
        0
    } else {
        v
    }
}

pub open spec fn smaller(a: int, b: int) -> int {
    if a <= b {
        a
    } else {
        b
    }
}

/// Whether the overlay's corner, moved onto the screen, lies on it.
pub open spec fn starts_on(position: (i32, i32), screen: (u32, u32)) -> bool {
    at_least_zero(position.0) <= screen.0 && at_least_zero(position.1) <= screen.1
}

/// The part of the screen that drawing is confined to: it starts at the overlay's corner, moved
/// onto the screen, and is as large as the overlay or what is left of the screen.
pub open spec fn drawn_area(position: (i32, i32), size: (u32, u32), screen: (u32, u32)) -> Area {
    let x = at_least_zero(position.0);
    let y = at_least_zero(position.1);
    Area {
        x,
        y,
        width: smaller(size.0 as int, screen.0 - x) as u32,
        height: smaller(size.1 as int, screen.1 - y) as u32,
    }
}

/// Where drawing is confined to.
pub fn render_area(position: (i32, i32), size: (u32, u32), screen: (u32, u32)) -> (r: Area)
    requires
        starts_on(position, screen),
    ensures
        r == drawn_area(position, size, screen),
{
    let x: i32 = if position.0 < 0 {
        0
    } else {
        position.0
    };
    let y: i32 = if position.1 < 0 {
        0
    } else {
        position.1
    };
    let left: u32 = screen.0 - x as u32;
    let below: u32 = screen.1 - y as u32;
    Area {
        x,
        y,
        width: if size.0 <= left {
            size.0
        } else {
            left
        },
        height: if size.1 <= below {
            size.1
        } else {
            below
        },
    }
}

/// What is drawn never leaves the screen and is never larger than the overlay.
pub proof fn law_area_on_screen(position: (i32, i32), size: (u32, u32), screen: (u32, u32))
    requires
        starts_on(position, screen),
    ensures
        ({
            let area = drawn_area(position, size, screen);
            &&& 0 <= area.x
            &&& 0 <= area.y
            &&& area.x + area.width <= screen.0
            &&& area.y + area.height <= screen.1
            &&& area.width <= size.0
            &&& area.height <= size.1
        }),
{
}

/// The stage each of `count` wait semaphores holds back.
pub open spec fn stage_masks(count: nat) -> Seq<u32> {
    Seq::new(count, |i: int| STAGE_TOP_OF_PIPE)
}

/// The stage each wait semaphore holds back: one entry for each semaphore.
pub fn wait_dst_stage_mask(wait_semaphores: &[u64]) -> (r: Vec<u32>)
    ensures
        r@ == stage_masks(wait_semaphores@.len()),
{
    let mut masks: Vec<u32> = Vec::new();
    let mut i: usize = 0;
    while i < wait_semaphores.len()
        invariant
            i <= wait_semaphores@.len(),
            masks@ == stage_masks(i as nat),
        decreases wait_semaphores.len() - i,
    {
        masks.push(STAGE_TOP_OF_PIPE);
        i += 1;
        assert(masks@ =~= stage_masks(i as nat));
    }
    masks
}

/// What the commands of one frame are recorded with.
#[derive(Debug, Clone, Copy, PartialEq, Eq)]
pub struct Recording {
    pub command_buffer: u64,
    pub render_pass: u64,
    pub framebuffer: u64,
    pub area: Area,
    pub pipeline_layout: u64,
    pub descriptor_set: u64,
    pub pipeline: u64,
    pub position: (i32, i32),
    pub size: (u32, u32),
    pub screen: (u32, u32),
}

/// A command of a command buffer.
#[derive(Debug, Clone, Copy, PartialEq, Eq)]
pub enum Command {
    /// Begin a render pass on a framebuffer, confined to an area.
    BeginRenderPass { render_pass: u64, framebuffer: u64, area: Area, contents: i32 },
    BindDescriptorSet { bind_point: i32, layout: u64, first_set: u32, set: u64 },
    BindPipeline { bind_point: i32, pipeline: u64 },
    /// Push the four numbers of the overlay's place on the screen.
    PushPlace {
        layout: u64,
        stage_flags: u32,
        offset: u32,
        position: (i32, i32),
        size: (u32, u32),
        screen: (u32, u32),
    },
    Draw { vertices: u32, instances: u32, first_vertex: u32, first_instance: u32 },
    EndRenderPass,
}

/// The commands of one frame.
pub open spec fn frame_commands(recording: Recording) -> Seq<Command> {
    seq![
        Command::BeginRenderPass {
            render_pass: recording.render_pass,
            framebuffer: recording.framebuffer,
            area: recording.area,
            contents: SUBPASS_INLINE,
        },
        Command::BindDescriptorSet {
            bind_point: BIND_POINT_GRAPHICS,
            layout: recording.pipeline_layout,
            first_set: 0,
            set: recording.descriptor_set,
        },
        Command::BindPipeline { bind_point: BIND_POINT_GRAPHICS, pipeline: recording.pipeline },
        Command::PushPlace {
            layout: recording.pipeline_layout,
            stage_flags: SHADER_STAGE_VERTEX,
            offset: 0,
            position: recording.position,
            size: recording.size,
            screen: recording.screen,
        },
        Command::Draw { vertices: 4, instances: 1, first_vertex: 0, first_instance: 0 },
        Command::EndRenderPass,
    ]
}

/// Gives the commands of one frame.
pub fn record(recording: &Recording) -> (r: Vec<Command>)
    ensures
        r@ == frame_commands(*recording),
{
    let mut commands: Vec<Command> = Vec::new();
    commands.push(
        Command::BeginRenderPass {
            render_pass: recording.render_pass,
            framebuffer: recording.framebuffer,
            area: recording.area,
            contents: SUBPASS_INLINE,
        },
    );
    commands.push(
        Command::BindDescriptorSet {
            bind_point: BIND_POINT_GRAPHICS,
            layout: recording.pipeline_layout,
            first_set: 0,
            set: recording.descriptor_set,
        },
    );
    commands.push(
        Command::BindPipeline { bind_point: BIND_POINT_GRAPHICS, pipeline: recording.pipeline },
    );
    commands.push(
        Command::PushPlace {
            layout: recording.pipeline_layout,
            stage_flags: SHADER_STAGE_VERTEX,
            offset: 0,
            position: recording.position,
            size: recording.size,
            screen: recording.screen,
        },
    );
    commands.push(
        Command::Draw { vertices: 4, instances: 1, first_vertex: 0, first_instance: 0 },
    );
    commands.push(Command::EndRenderPass);
    assert(commands@ =~= frame_commands(*recording));
    commands
}

/// What to ask of the device.
#[derive(Debug, PartialEq, Eq)]
pub enum DrawAction<'a> {
    /// Wait for the frame's last submission, for so many nanoseconds at most.
    WaitFence { fence: u64, wait_all: bool, timeout_ns: u64 },
    ResetPool { command_pool: u64, flags: u32 },
    ResetFence { fence: u64 },
    Begin { command_buffer: u64, flags: u32 },
    /// Record the commands of the frame.
    Record(Recording),
    End { command_buffer: u64 },
    /// Submit the command buffer once, after the wait semaphores, each of which holds back the
    /// stages of the mask at its place, and signal the semaphore and the fence.
    Submit {
        command_buffer: u64,
        wait_semaphores: &'a Vec<u64>,
        wait_dst_stage_mask: &'a Vec<u32>,
        semaphore: u64,
        fence: u64,
    },
    /// The draw is over. It gives the semaphore to wait for, or an error where the device failed.
    Finish(Result<u64, ()>),
}

/// How far a draw has come.
#[derive(Debug, Clone, Copy, PartialEq, Eq, Structural)]
pub enum DrawStage {
    WaitingFence,
    ResettingPool,
    ResettingFence,
    Beginning,
    Recording,
    Ending,
    Submitting,
    Drawn,
    Failed,
}

/// A draw in progress.
#[derive(Debug)]
pub struct Draw {
    pub frame: FrameData,
    pub recording: Recording,
    /// What the frame is drawn after.
    pub wait_semaphores: Vec<u64>,
    /// The stages that each of them holds back.
    pub wait_dst_stage_mask: Vec<u32>,
    pub stage: DrawStage,
}

impl Draw {
    /// There is one mask for each wait semaphore.
    pub open spec fn wf(self) -> bool {
        self.wait_dst_stage_mask@ == stage_masks(self.wait_semaphores@.len())
    }

    /// Whether the draw is over.
    pub open spec fn over(self) -> bool {
        self.stage is Drawn || self.stage is Failed
    }

    /// What the draw asks for.
    pub open spec fn asks(&self) -> DrawAction<'_> {
        let frame = self.frame;
        match self.stage {
            DrawStage::WaitingFence => DrawAction::WaitFence {
                fence: frame.fence,
                wait_all: true,
                timeout_ns: NO_TIMEOUT_NS,
            },
            DrawStage::ResettingPool => DrawAction::ResetPool {
                command_pool: frame.command_pool,
                flags: RESET_KEEPS_RESOURCES,
            },
            DrawStage::ResettingFence => DrawAction::ResetFence { fence: frame.fence },
            DrawStage::Beginning => DrawAction::Begin {
                command_buffer: frame.command_buffer,
                flags: ONE_TIME_SUBMIT,
            },
            DrawStage::Recording => DrawAction::Record(self.recording),
            DrawStage::Ending => DrawAction::End { command_buffer: frame.command_buffer },
            DrawStage::Submitting => DrawAction::Submit {
                command_buffer: frame.command_buffer,
                wait_semaphores: &self.wait_semaphores,
                wait_dst_stage_mask: &self.wait_dst_stage_mask,
                semaphore: frame.submit_semaphore,
                fence: frame.fence,
            },
            DrawStage::Drawn => DrawAction::Finish(Ok(frame.submit_semaphore)),
            DrawStage::Failed => DrawAction::Finish(Err(())),
        }
    }

    /// Where the draw stands after the device did what was asked, or failed to. Recording cannot
    /// fail.
    pub open spec fn next(self, done: bool) -> DrawStage {
        if !done && !(self.stage is Recording) {
            DrawStage::Failed
        } else {
            match self.stage {
                DrawStage::WaitingFence => DrawStage::ResettingPool,
                DrawStage::ResettingPool => DrawStage::ResettingFence,
                DrawStage::ResettingFence => DrawStage::Beginning,
                DrawStage::Beginning => DrawStage::Recording,
                DrawStage::Recording => DrawStage::Ending,
                DrawStage::Ending => DrawStage::Submitting,
                DrawStage::Submitting => DrawStage::Drawn,
                stage => stage,
            }
        }
    }

    /// What to ask of the device now.
    pub fn action(&self) -> (r: DrawAction<'_>)
        ensures
            r == self.asks(),
    {
        let frame = self.frame;
        match self.stage {
            DrawStage::WaitingFence => DrawAction::WaitFence {
                fence: frame.fence,
                wait_all: true,
                timeout_ns: NO_TIMEOUT_NS,
            },
            DrawStage::ResettingPool => DrawAction::ResetPool {
                command_pool: frame.command_pool,
                flags: RESET_KEEPS_RESOURCES,
            },
            DrawStage::ResettingFence => DrawAction::ResetFence { fence: frame.fence },
            DrawStage::Beginning => DrawAction::Begin {
                command_buffer: frame.command_buffer,
                flags: ONE_TIME_SUBMIT,
            },
            DrawStage::Recording => DrawAction::Record(self.recording),
            DrawStage::Ending => DrawAction::End { command_buffer: frame.command_buffer },
            DrawStage::Submitting => DrawAction::Submit {
                command_buffer: frame.command_buffer,
                wait_semaphores: &self.wait_semaphores,
                wait_dst_stage_mask: &self.wait_dst_stage_mask,
                semaphore: frame.submit_semaphore,
                fence: frame.fence,
            },
            DrawStage::Drawn => DrawAction::Finish(Ok(frame.submit_semaphore)),
            DrawStage::Failed => DrawAction::Finish(Err(())),
        }
    }

    /// Tells the draw whether the device did what was asked.
    pub fn advance(&mut self, done: bool)
        requires
            !old(self).over(),
        ensures
            *final(self) == (Draw { stage: old(self).next(done), ..*old(self) }),
    {
        self.stage =
        match self.stage {
            DrawStage::Recording => DrawStage::Ending,
            _ if !done => DrawStage::Failed,
            DrawStage::WaitingFence => DrawStage::ResettingPool,
            DrawStage::ResettingPool => DrawStage::ResettingFence,
            DrawStage::ResettingFence => DrawStage::Beginning,
            DrawStage::Beginning => DrawStage::Recording,
            DrawStage::Ending => DrawStage::Submitting,
            DrawStage::Submitting => DrawStage::Drawn,
            stage => stage,
        };
    }
}

/// What the commands of a frame of a renderer are recorded with.
pub open spec fn recording_of(
    renderer: RendererView,
    frame: FrameData,
    position: (i32, i32),
    size: (u32, u32),
    screen: (u32, u32),
) -> Recording {
    Recording {
        command_buffer: frame.command_buffer,
        render_pass: renderer.render_pass,
        framebuffer: frame.framebuffer,
        area: drawn_area(position, size, screen),
        pipeline_layout: renderer.pipeline_layout,
        descriptor_set: renderer.texture_descriptor_set,
        pipeline: renderer.pipeline,
        position,
        size,
        screen,
    }
}

impl VulkanRenderer {
    /// Begins to draw the overlay on swapchain image `index`, after the wait semaphores. Without a
    /// texture there is nothing to draw.
    pub fn draw(
        &self,
        wait_semaphores: Vec<u64>,
        index: u32,
        position: (i32, i32),
        size: (u32, u32),
        screen: (u32, u32),
    ) -> (r: Option<Draw>)
        requires
            self.texture is Some ==> index < self.frame_datas@.len() && starts_on(position, screen),
        ensures
            r is Some <==> self.texture is Some,
            r matches Some(draw) ==> {
                let frame = self.frame_datas@[index as int];
                &&& draw.wf()
                &&& draw.stage is WaitingFence
                &&& draw.frame == frame
                &&& draw.wait_semaphores@ == wait_semaphores@
                &&& draw.recording == recording_of(self@, frame, position, size, screen)
                &&& draw.recording == (Recording {
                    command_buffer: frame.command_buffer,
                    render_pass: self.render_pass,
                    framebuffer: frame.framebuffer,
                    area: drawn_area(position, size, screen),
                    pipeline_layout: self.pipeline_layout,
                    descriptor_set: self.texture_descriptor_set,
                    pipeline: self.pipeline,
                    position,
                    size,
                    screen,
                })
            },
    {
        if self.texture.is_none() {
            return None;
        }
        let frame = self.frame_datas[index as usize];
        let recording = Recording {
            command_buffer: frame.command_buffer,
            render_pass: self.render_pass,
            framebuffer: frame.framebuffer,
            area: render_area(position, size, screen),
            pipeline_layout: self.pipeline_layout,
            descriptor_set: self.texture_descriptor_set,
            pipeline: self.pipeline,
            position,
            size,
            screen,
        };
        let masks = wait_dst_stage_mask(wait_semaphores.as_slice());
        Some(
            Draw {
                frame,
                recording,
                wait_semaphores,
                wait_dst_stage_mask: masks,
                stage: DrawStage::WaitingFence,
            },
        )
    }
}

/// A frame is one render pass: it begins with the pass and ends with it, and draws one strip of
/// four vertices, after everything that the draw needs was bound and pushed.
pub proof fn law_frame_is_one_pass(recording: Recording)
    ensures
        ({
            let commands = frame_commands(recording);
            &&& commands.first() is BeginRenderPass
            &&& commands.last() is EndRenderPass
            &&& forall|i: int|
                0 <= i < commands.len() ==> ((#[trigger] commands[i]) is BeginRenderPass <==> i
                    == 0)
            &&& forall|i: int|
                0 <= i < commands.len() ==> ((#[trigger] commands[i]) is Draw <==> i
                    == commands.len() - 2)
        }),
{
}

/// The draw after the device's answers.
pub open spec fn draw_run(start: Draw, done: Seq<bool>) -> Draw
    decreases done.len(),
{
    if done.len() == 0 {
        start
    } else {
        let draw = draw_run(start, done.drop_last());
        Draw { stage: draw.next(done.last()), ..draw }
    }
}

/// Number of answers that bring a draw to `stage`.
spec fn rank(stage: DrawStage) -> int {
    match stage {
        DrawStage::WaitingFence => 0,
        DrawStage::ResettingPool => 1,
        DrawStage::ResettingFence => 2,
        DrawStage::Beginning => 3,
        DrawStage::Recording => 4,
        DrawStage::Ending => 5,
        DrawStage::Submitting => 6,
        DrawStage::Drawn => 7,
        DrawStage::Failed => -1,
    }
}

proof fn lemma_rank(start: Draw, done: Seq<bool>)
    requires
        start.stage is WaitingFence,
        forall|i: int|
            0 <= i < done.len() ==> !#[trigger] draw_run(start, done.take(i)).over(),
    ensures
        ({
            let draw = draw_run(start, done);
            &&& draw.frame == start.frame
            &&& draw.recording == start.recording
            &&& draw.wait_semaphores == start.wait_semaphores
            &&& draw.wait_dst_stage_mask == start.wait_dst_stage_mask
            &&& !(draw.stage is Failed) ==> rank(draw.stage) == done.len()
            &&& !(draw.stage is Failed) ==> forall|i: int| 0 <= i < done.len() && i != 4 ==> done[i]
        }),
    decreases done.len(),
{
    if done.len() > 0 {
        let before = done.drop_last();
        assert(!draw_run(start, done.take(before.len() as int)).over());
        assert(done.take(before.len() as int) =~= before);
        assert forall|i: int| 0 <= i < before.len() implies !#[trigger] draw_run(
            start,
            before.take(i),
        ).over() by {
            assert(before.take(i) =~= done.take(i));
        }
        lemma_rank(start, before);
        assert forall|i: int|
            !(draw_run(start, done).stage is Failed) && 0 <= i < done.len() && i != 4 implies done[i] by {
            if i < before.len() {
                assert(before[i] == done[i]);
            }
        }
    }
}

/// A frame is submitted only after the device waited for the frame's last submission, reset its
/// fence and ended the commands recorded for it. The one submission waits for exactly the
/// semaphores that the draw was given, in their order and with one mask each, and signals the
/// frame's own semaphore, which is what the draw gives.
pub proof fn law_submit_after_fence(start: Draw, done: Seq<bool>)
    requires
        start.wf(),
        start.stage is WaitingFence,
        forall|i: int|
            0 <= i < done.len() ==> !#[trigger] draw_run(start, done.take(i)).over(),
    ensures
        match draw_run(start, done).asks() {
            DrawAction::Submit {
                command_buffer,
                wait_semaphores,
                wait_dst_stage_mask,
                semaphore,
                fence,
            } => {
                &&& done.len() == 6
                &&& forall|i: int| 0 <= i < 6 && i != 4 ==> done[i]
                &&& command_buffer == start.frame.command_buffer
                &&& wait_semaphores@ == start.wait_semaphores@
                &&& wait_dst_stage_mask@ == stage_masks(start.wait_semaphores@.len())
                &&& semaphore == start.frame.submit_semaphore
                &&& fence == start.frame.fence
            },
            DrawAction::Finish(Ok(semaphore)) => semaphore == start.frame.submit_semaphore
                && done.len() == 7 && done[6],
            _ => true,
        },
{
    lemma_rank(start, done);
}

/// Drawing is confined to as much of the overlay as the screen has room for: it starts at the
/// overlay's corner, or at the screen's where that lies before it, and reaches as far as the
/// overlay is wide and high, or to the edge of the screen.
pub proof fn law_area_reaches(position: (i32, i32), size: (u32, u32), screen: (u32, u32))
    requires
        position.0 <= screen.0,
        position.1 <= screen.1,
    ensures
        starts_on(position, screen),
        ({
            let area = drawn_area(position, size, screen);
            &&& position.0 >= 0 ==> area.x == position.0
            &&& position.1 >= 0 ==> area.y == position.1
            &&& position.0 < 0 ==> area.x == 0
            &&& position.1 < 0 ==> area.y == 0
            &&& area.x + area.width == screen.0 || (area.width == size.0 && area.x + size.0
                <= screen.0)
            &&& area.y + area.height == screen.1 || (area.height == size.1 && area.y + size.1
                <= screen.1)
            &&& area.width <= size.0 && area.height <= size.1
        }),
{
}

/// Where the overlay's corner lies beyond the screen, there is no area.
pub proof fn law_corner_beyond(position: (i32, i32), screen: (u32, u32))
    ensures
        starts_on(position, screen) <==> position.0 <= screen.0 && position.1 <= screen.1,
{
}

/// Each wait semaphore holds back the whole of what is submitted.
pub proof fn law_stage_masks(count: nat, i: int)
    ensures
        stage_masks(count).len() == count,
        0 <= i < count ==> stage_masks(count)[i] == 1,
{
}

/// A frame is drawn with what it was recorded for: its own pass, framebuffer and area, its own
/// descriptor set and pipeline, and the overlay's own place, size and screen.
pub proof fn law_frame_drawn_with(recording: Recording, i: int)
    requires
        0 <= i < frame_commands(recording).len(),
    ensures
        frame_commands(recording).len() == 6,
        match frame_commands(recording)[i] {
            Command::BeginRenderPass { render_pass, framebuffer, area, contents } => i == 0
                && render_pass == recording.render_pass && framebuffer == recording.framebuffer
                && area == recording.area && contents == 0,
            Command::BindDescriptorSet { bind_point, layout, first_set, set } => i == 1
                && bind_point == 0 && layout == recording.pipeline_layout && first_set == 0 && set
                == recording.descriptor_set,
            Command::BindPipeline { bind_point, pipeline } => i == 2 && bind_point == 0 && pipeline
                == recording.pipeline,
            Command::PushPlace { layout, stage_flags, offset, position, size, screen } => i == 3
                && layout == recording.pipeline_layout && stage_flags == 1 && offset == 0
                && position == recording.position && size == recording.size && screen
                == recording.screen,
            Command::Draw { vertices, instances, first_vertex, first_instance } => i == 4
                && vertices == 4 && instances == 1 && first_vertex == 0 && first_instance == 0,
            Command::EndRenderPass => i == 5,
        },
{
}

/// What a draw asks next follows from what it asked and whether that was done, and everything that
/// it asks concerns its own frame.
pub proof fn law_draw_leads_on(draw: Draw, done: bool)
    requires
        !draw.over(),
    ensures
        ({
            let after = Draw { stage: draw.next(done), ..draw };
            let then = after.asks();
            let frame = draw.frame;
            match draw.asks() {
                DrawAction::Record(_) => then == (DrawAction::End {
                    command_buffer: frame.command_buffer,
                }),
                _ if !done => then == DrawAction::<'_>::Finish(Err(())),
                DrawAction::WaitFence { fence, wait_all, timeout_ns } => fence == frame.fence
                    && wait_all && timeout_ns == u64::MAX && then == (DrawAction::ResetPool {
                    command_pool: frame.command_pool,
                    flags: 0,
                }),
                DrawAction::ResetPool { .. } => then == (DrawAction::ResetFence {
                    fence: frame.fence,
                }),
                DrawAction::ResetFence { .. } => then == (DrawAction::Begin {
                    command_buffer: frame.command_buffer,
                    flags: 1,
                }),
                DrawAction::Begin { .. } => then == DrawAction::<'_>::Record(draw.recording),
                DrawAction::End { .. } => then matches DrawAction::Submit {
                    command_buffer,
                    wait_semaphores,
                    semaphore,
                    fence,
                    ..
                } && command_buffer == frame.command_buffer && wait_semaphores@
                    == draw.wait_semaphores@ && semaphore == frame.submit_semaphore && fence
                    == frame.fence,
                DrawAction::Submit { .. } => then == DrawAction::<'_>::Finish(
                    Ok(frame.submit_semaphore),
                ),
                DrawAction::Finish(_) => false,
            }
        }),
{
}

/// A frame is recorded with what is its own, the command buffer and the framebuffer, and with what
/// is the renderer's: the pass, the layout, the descriptor set and the pipeline. The overlay has
/// its place, and is confined to it.
pub proof fn law_recorded_with(
    renderer: RendererView,
    frame: FrameData,
    position: (i32, i32),
    size: (u32, u32),
    screen: (u32, u32),
)
    ensures
        ({
            let recording = recording_of(renderer, frame, position, size, screen);
            &&& recording.command_buffer == frame.command_buffer
            &&& recording.framebuffer == frame.framebuffer
            &&& recording.render_pass == renderer.render_pass
            &&& recording.pipeline_layout == renderer.pipeline_layout
            &&& recording.descriptor_set == renderer.texture_descriptor_set
            &&& recording.pipeline == renderer.pipeline
            &&& recording.position == position
            &&& recording.size == size
            &&& recording.screen == screen
            &&& recording.area == drawn_area(position, size, screen)
        }),
{
}

} // verus!
