//! Making a renderer.

use crate::dx12::rtv::MAX_RENDER_TARGETS;
use vstd::prelude::*;

verus! {

pub const VISIBILITY_VERTEX: i32 = 1;

pub const VISIBILITY_PIXEL: i32 = 5;

pub const RANGE_TYPE_SRV: i32 = 0;

pub const RANGE_OFFSET_APPEND: u32 = 0xffff_ffff;

pub const FILTER_MIN_MAG_MIP_POINT: i32 = 0;

pub const ADDRESS_CLAMP: i32 = 3;

pub const COMPARISON_NEVER: i32 = 1;

pub const BORDER_TRANSPARENT_BLACK: i32 = 0;

/// Bits of the largest single-precision float.
pub const FLOAT_MAX_BITS: u32 = 0x7f7f_ffff;

pub const ROOT_ALLOW_INPUT_LAYOUT: i32 = 1;

pub const ROOT_DENY_HULL: i32 = 4;

pub const ROOT_DENY_DOMAIN: i32 = 8;

pub const ROOT_DENY_GEOMETRY: i32 = 16;

pub const ROOT_SIGNATURE_VERSION_1: i32 = 1;

pub const BLEND_ONE: i32 = 2;

pub const BLEND_SRC_ALPHA: i32 = 5;

pub const BLEND_INV_SRC_ALPHA: i32 = 6;

pub const BLEND_OP_ADD: i32 = 1;

pub const LOGIC_OP_NOOP: i32 = 4;

pub const COLOR_WRITE_ALL: u8 = 15;

pub const FILL_SOLID: i32 = 3;

pub const CULL_NONE: i32 = 1;

pub const CONSERVATIVE_RASTER_OFF: i32 = 0;

pub const TOPOLOGY_TYPE_TRIANGLE: i32 = 3;

pub const HEAP_CBV_SRV_UAV: i32 = 0;

pub const HEAP_SHADER_VISIBLE: i32 = 1;

pub const COMMAND_LIST_DIRECT: i32 = 0;

/// Constants of a shader.
#[derive(Debug, Clone, Copy, PartialEq, Eq, Structural)]
pub struct RootConstants {
    pub shader_register: u32,
    pub register_space: u32,
    pub num_32bit_values: u32,
    pub visibility: i32,
}

/// A table with one range of descriptors.
#[derive(Debug, Clone, Copy, PartialEq, Eq, Structural)]
pub struct RootTable {
    pub range_type: i32,
    pub num_descriptors: u32,
    pub base_shader_register: u32,
    pub register_space: u32,
    pub offset: u32,
    pub visibility: i32,
}

/// A sampler that does not change. Levels of detail are single-precision floats, held as their
/// bits.
#[derive(Debug, Clone, Copy, PartialEq, Eq, Structural)]
pub struct StaticSampler {
    pub filter: i32,
    pub address_u: i32,
    pub address_v: i32,
    pub address_w: i32,
    pub mip_lod_bias: u32,
    pub max_anisotropy: u32,
    pub comparison: i32,
    pub border_color: i32,
    pub min_lod: u32,
    pub max_lod: u32,
    pub shader_register: u32,
    pub register_space: u32,
    pub visibility: i32,
}

/// What shaders read: first the constants, then the table.
#[derive(Debug, Clone, Copy, PartialEq, Eq, Structural)]
pub struct RootSignature {
    pub constants: RootConstants,
    pub table: RootTable,
    pub sampler: StaticSampler,
    pub flags: i32,
}

/// The vertex shader reads the overlay's place and the pixel shader the overlay's texture.
pub open spec fn root_signature() -> RootSignature {
    RootSignature {
        constants: RootConstants {
            shader_register: 0,
            register_space: 0,
            num_32bit_values: 4,
            visibility: VISIBILITY_VERTEX,
        },
        table: RootTable {
            range_type: RANGE_TYPE_SRV,
            num_descriptors: 1,
            base_shader_register: 0,
            register_space: 0,
            offset: RANGE_OFFSET_APPEND,
            visibility: VISIBILITY_PIXEL,
        },
        sampler: StaticSampler {
            filter: FILTER_MIN_MAG_MIP_POINT,
            address_u: ADDRESS_CLAMP,
            address_v: ADDRESS_CLAMP,
            address_w: ADDRESS_CLAMP,
            mip_lod_bias: 0,
            max_anisotropy: 0,
            comparison: COMPARISON_NEVER,
            border_color: BORDER_TRANSPARENT_BLACK,
            min_lod: 0,
            max_lod: FLOAT_MAX_BITS,
            shader_register: 0,
            register_space: 0,
            visibility: VISIBILITY_PIXEL,
        },
        flags: ROOT_ALLOW_INPUT_LAYOUT | ROOT_DENY_HULL | ROOT_DENY_DOMAIN | ROOT_DENY_GEOMETRY,
    }
}

/// Gives the root signature.
pub fn root_sig() -> (r: RootSignature)
    ensures
        r == root_signature(),
{
    RootSignature {
        constants: RootConstants {
            shader_register: 0,
            register_space: 0,
            num_32bit_values: 4,
            visibility: VISIBILITY_VERTEX,
        },
        table: RootTable {
            range_type: RANGE_TYPE_SRV,
            num_descriptors: 1,
            base_shader_register: 0,
            register_space: 0,
            offset: RANGE_OFFSET_APPEND,
            visibility: VISIBILITY_PIXEL,
        },
        sampler: StaticSampler {
            filter: FILTER_MIN_MAG_MIP_POINT,
            address_u: ADDRESS_CLAMP,
            address_v: ADDRESS_CLAMP,
            address_w: ADDRESS_CLAMP,
            mip_lod_bias: 0,
            max_anisotropy: 0,
            comparison: COMPARISON_NEVER,
            border_color: BORDER_TRANSPARENT_BLACK,
            min_lod: 0,
            max_lod: FLOAT_MAX_BITS,
            shader_register: 0,
            register_space: 0,
            visibility: VISIBILITY_PIXEL,
        },
        flags: ROOT_ALLOW_INPUT_LAYOUT | ROOT_DENY_HULL | ROOT_DENY_DOMAIN | ROOT_DENY_GEOMETRY,
    }
}

/// How a render target is blended.
#[derive(Debug, Clone, Copy, PartialEq, Eq, Structural)]
pub struct BlendPlan {
    pub blend_enable: bool,
    pub src_blend: i32,
    pub dest_blend: i32,
    pub blend_op: i32,
    pub src_blend_alpha: i32,
    pub dest_blend_alpha: i32,
    pub blend_op_alpha: i32,
    pub write_mask: u8,
    pub logic_op_enable: bool,
    pub logic_op: i32,
}

/// How triangles become pixels. The clamp and the slope of the depth bias are single-precision
/// floats, held as their bits.
#[derive(Debug, Clone, Copy, PartialEq, Eq, Structural)]
pub struct RasterizerPlan {
    pub fill_mode: i32,
    pub cull_mode: i32,
    pub front_counter_clockwise: bool,
    pub depth_bias: i32,
    pub depth_bias_clamp: u32,
    pub slope_scaled_depth_bias: u32,
    pub depth_clip_enable: bool,
    pub multisample_enable: bool,
    pub antialiased_line_enable: bool,
    pub forced_sample_count: u32,
    pub conservative_raster: i32,
}

/// A graphics pipeline. All its render targets are blended alike.
#[derive(Debug, Clone, Copy, PartialEq, Eq, Structural)]
pub struct PipelinePlan {
    pub blend: BlendPlan,
    pub alpha_to_coverage: bool,
    pub independent_blend: bool,
    pub rasterizer: RasterizerPlan,
    pub topology_type: i32,
    pub num_render_targets: u32,
    pub target_format: i32,
    pub sample_count: u32,
    pub sample_quality: u32,
    pub sample_mask: u32,
}

/// The pipeline that blends the overlay over what the program drew.
pub open spec fn pipeline_plan(format: i32) -> PipelinePlan {
    PipelinePlan {
        alpha_to_coverage: false,
        independent_blend: false,
        blend: BlendPlan {
            blend_enable: true,
            src_blend: BLEND_SRC_ALPHA,
            dest_blend: BLEND_INV_SRC_ALPHA,
            blend_op: BLEND_OP_ADD,
            src_blend_alpha: BLEND_ONE,
            dest_blend_alpha: BLEND_INV_SRC_ALPHA,
            blend_op_alpha: BLEND_OP_ADD,
            write_mask: COLOR_WRITE_ALL,
            logic_op_enable: false,
            logic_op: LOGIC_OP_NOOP,
        },
        rasterizer: RasterizerPlan {
            fill_mode: FILL_SOLID,
            cull_mode: CULL_NONE,
            front_counter_clockwise: false,
            depth_bias: 0,
            depth_bias_clamp: 0,
            slope_scaled_depth_bias: 0,
            depth_clip_enable: false,
            multisample_enable: false,
            antialiased_line_enable: false,
            forced_sample_count: 0,
            conservative_raster: CONSERVATIVE_RASTER_OFF,
        },
        topology_type: TOPOLOGY_TYPE_TRIANGLE,
        num_render_targets: 1,
        target_format: format,
        sample_count: 1,
        sample_quality: 0,
        sample_mask: u32::MAX,
    }
}

/// Gives the pipeline for back buffers of a format.
pub fn pipeline(format: i32) -> (r: PipelinePlan)
    ensures
        r == pipeline_plan(format),
{
    PipelinePlan {
        alpha_to_coverage: false,
        independent_blend: false,
        blend: BlendPlan {
            blend_enable: true,
            src_blend: BLEND_SRC_ALPHA,
            dest_blend: BLEND_INV_SRC_ALPHA,
            blend_op: BLEND_OP_ADD,
            src_blend_alpha: BLEND_ONE,
            dest_blend_alpha: BLEND_INV_SRC_ALPHA,
            blend_op_alpha: BLEND_OP_ADD,
            write_mask: COLOR_WRITE_ALL,
            logic_op_enable: false,
            logic_op: LOGIC_OP_NOOP,
        },
        rasterizer: RasterizerPlan {
            fill_mode: FILL_SOLID,
            cull_mode: CULL_NONE,
            front_counter_clockwise: false,
            depth_bias: 0,
            depth_bias_clamp: 0,
            slope_scaled_depth_bias: 0,
            depth_clip_enable: false,
            multisample_enable: false,
            antialiased_line_enable: false,
            forced_sample_count: 0,
            conservative_raster: CONSERVATIVE_RASTER_OFF,
        },
        topology_type: TOPOLOGY_TYPE_TRIANGLE,
        num_render_targets: 1,
        target_format: format,
        sample_count: 1,
        sample_quality: 0,
        sample_mask: u32::MAX,
    }
}

/// Why a renderer was not made.
#[derive(Debug, Clone, Copy, PartialEq, Eq, Structural)]
pub enum SetupError {
    /// The root signature was serialized to nothing.
    NoSignature,
    /// A call to the device failed.
    Device,
}

impl SetupError {
    pub open spec fn text(self) -> Option<Seq<char>> {
        match self {
            SetupError::NoSignature => Some("cannot create dx12 root signature"@),
            SetupError::Device => None,
        }
    }

    /// What went wrong, where the device does not tell.
    pub fn message(&self) -> (r: Option<&'static str>)
        ensures
            match r {
                Some(text) => self.text() == Some(text@),
                None => self.text() is None,
            },
    {
        match self {
            SetupError::NoSignature => Some("cannot create dx12 root signature"),
            SetupError::Device => None,
        }
    }
}

/// What came back from the device.
#[derive(Debug, Clone, Copy, PartialEq, Eq, Structural)]
pub enum SetupReply {
    /// Format of the swapchain's buffers, if it could be told.
    Format(Option<i32>),
    /// Whether the root signature was serialized, and if so whether that gave anything.
    Serialized(Option<bool>),
    /// Whether the call succeeded.
    Done(bool),
}

/// What to ask of the device.
#[derive(Debug, Clone, Copy, PartialEq, Eq)]
pub enum SetupAction {
    DescribeSwapchain,
    SerializeSignature { signature: RootSignature, version: i32 },
    /// Make the root signature from what was serialized.
    CreateSignature,
    CreatePipeline(PipelinePlan),
    CreateAllocator { index: usize, list_type: i32 },
    CreateList { index: usize, list_type: i32 },
    CloseList { index: usize },
    CreateTextureHeap { num_descriptors: u32, heap_type: i32, flags: i32 },
    CreateFence { initial: u64 },
    Finish(Result<(), SetupError>),
}

/// How far a setup has come.
#[derive(Debug, Clone, Copy, PartialEq, Eq, Structural)]
pub enum SetupStage {
    Describing,
    Serializing { format: i32 },
    CreatingSignature { format: i32 },
    CreatingPipeline { format: i32 },
    CreatingAllocator { index: usize },
    CreatingList { index: usize },
    ClosingList { index: usize },
    CreatingHeap,
    CreatingFence,
    Ready,
    Failed(SetupError),
}

/// A renderer in the making.
#[derive(Debug, Clone, Copy, PartialEq, Eq, Structural)]
pub struct Setup {
    pub stage: SetupStage,
}

impl Setup {
    /// The command lists in the making are those there is room for.
    pub open spec fn wf(self) -> bool {
        match self.stage {
            SetupStage::CreatingAllocator { index } => index < MAX_RENDER_TARGETS,
            SetupStage::CreatingList { index } => index < MAX_RENDER_TARGETS,
            SetupStage::ClosingList { index } => index < MAX_RENDER_TARGETS,
            _ => true,
        }
    }

    /// Whether `reply` answers what the setup asks.
    pub open spec fn awaits(self, reply: SetupReply) -> bool {
        match self.stage {
            SetupStage::Describing => reply is Format,
            SetupStage::Serializing { .. } => reply is Serialized,
            SetupStage::Ready => false,
            SetupStage::Failed(_) => false,
            _ => reply is Done,
        }
    }

    /// What the setup asks for.
    pub open spec fn asks(self) -> SetupAction {
        match self.stage {
            SetupStage::Describing => SetupAction::DescribeSwapchain,
            SetupStage::Serializing { .. } => SetupAction::SerializeSignature {
                signature: root_signature(),
                version: ROOT_SIGNATURE_VERSION_1,
            },
            SetupStage::CreatingSignature { .. } => SetupAction::CreateSignature,
            SetupStage::CreatingPipeline { format } => SetupAction::CreatePipeline(
                pipeline_plan(format),
            ),
            SetupStage::CreatingAllocator { index } => SetupAction::CreateAllocator {
                index,
                list_type: COMMAND_LIST_DIRECT,
            },
            SetupStage::CreatingList { index } => SetupAction::CreateList {
                index,
                list_type: COMMAND_LIST_DIRECT,
            },
            SetupStage::ClosingList { index } => SetupAction::CloseList { index },
            SetupStage::CreatingHeap => SetupAction::CreateTextureHeap {
                num_descriptors: 1,
                heap_type: HEAP_CBV_SRV_UAV,
                flags: HEAP_SHADER_VISIBLE,
            },
            SetupStage::CreatingFence => SetupAction::CreateFence { initial: 0 },
            SetupStage::Ready => SetupAction::Finish(Ok(())),
            SetupStage::Failed(err) => SetupAction::Finish(Err(err)),
        }
    }

    /// Where the setup stands after `reply`.
    pub open spec fn next(self, reply: SetupReply) -> SetupStage {
        match (self.stage, reply) {
            (SetupStage::Describing, SetupReply::Format(Some(format))) => {
                SetupStage::Serializing { format }
            },
            (SetupStage::Serializing { format }, SetupReply::Serialized(Some(true))) => {
                SetupStage::CreatingSignature { format }
            },
            (SetupStage::Serializing { .. }, SetupReply::Serialized(Some(false))) => {
                SetupStage::Failed(SetupError::NoSignature)
            },
            (SetupStage::CreatingSignature { format }, SetupReply::Done(true)) => {
                SetupStage::CreatingPipeline { format }
            },
            (SetupStage::CreatingPipeline { .. }, SetupReply::Done(true)) => {
                SetupStage::CreatingAllocator { index: 0 }
            },
            (SetupStage::CreatingAllocator { index }, SetupReply::Done(true)) => {
                SetupStage::CreatingList { index }
            },
            (SetupStage::CreatingList { index }, SetupReply::Done(true)) => {
                SetupStage::ClosingList { index }
            },
            (SetupStage::ClosingList { index }, SetupReply::Done(true)) => {
                if index + 1 < MAX_RENDER_TARGETS {
                    SetupStage::CreatingAllocator { index: (index + 1) as usize }
                } else {
                    SetupStage::CreatingHeap
                }
            },
            (SetupStage::CreatingHeap, SetupReply::Done(true)) => SetupStage::CreatingFence,
            (SetupStage::CreatingFence, SetupReply::Done(true)) => SetupStage::Ready,
            _ => SetupStage::Failed(SetupError::Device),
        }
    }

    /// Begins to make a renderer.
    pub fn new() -> (r: Setup)
        ensures
            r.stage is Describing,
            r.wf(),
    {
        Setup { stage: SetupStage::Describing }
    }

    /// What to ask of the device now.
    pub fn action(&self) -> (r: SetupAction)
        ensures
            r == self.asks(),
    {
        match self.stage {
            SetupStage::Describing => SetupAction::DescribeSwapchain,
            SetupStage::Serializing { .. } => SetupAction::SerializeSignature {
                signature: root_sig(),
                version: ROOT_SIGNATURE_VERSION_1,
            },
            SetupStage::CreatingSignature { .. } => SetupAction::CreateSignature,
            SetupStage::CreatingPipeline { format } => SetupAction::CreatePipeline(
                pipeline(format),
            ),
            SetupStage::CreatingAllocator { index } => SetupAction::CreateAllocator {
                index,
                list_type: COMMAND_LIST_DIRECT,
            },
            SetupStage::CreatingList { index } => SetupAction::CreateList {
                index,
                list_type: COMMAND_LIST_DIRECT,
            },
            SetupStage::ClosingList { index } => SetupAction::CloseList { index },
            SetupStage::CreatingHeap => SetupAction::CreateTextureHeap {
                num_descriptors: 1,
                heap_type: HEAP_CBV_SRV_UAV,
                flags: HEAP_SHADER_VISIBLE,
            },
            SetupStage::CreatingFence => SetupAction::CreateFence { initial: 0 },
            SetupStage::Ready => SetupAction::Finish(Ok(())),
            SetupStage::Failed(err) => SetupAction::Finish(Err(err)),
        }
    }

    /// Tells the setup what came back from the device.
    pub fn advance(&mut self, reply: SetupReply)
        requires
            old(self).wf(),
            old(self).awaits(reply),
        ensures
            final(self).stage == old(self).next(reply),
            final(self).wf(),
    {
        let done = match reply {
            SetupReply::Done(done) => done,
            _ => false,
        };
        self.stage =
        match (self.stage, reply) {
            (SetupStage::Describing, SetupReply::Format(Some(format))) => {
                SetupStage::Serializing { format }
            },
            (SetupStage::Serializing { format }, SetupReply::Serialized(Some(given))) => {
                if given {
                    SetupStage::CreatingSignature { format }
                } else {
                    SetupStage::Failed(SetupError::NoSignature)
                }
            },
            _ if !done => SetupStage::Failed(SetupError::Device),
            (SetupStage::CreatingSignature { format }, _) => {
                SetupStage::CreatingPipeline { format }
            },
            (SetupStage::CreatingPipeline { .. }, _) => SetupStage::CreatingAllocator { index: 0 },
            (SetupStage::CreatingAllocator { index }, _) => SetupStage::CreatingList { index },
            (SetupStage::CreatingList { index }, _) => SetupStage::ClosingList { index },
            (SetupStage::ClosingList { index }, _) => if index + 1 < MAX_RENDER_TARGETS {
                SetupStage::CreatingAllocator { index: index + 1 }
            } else {
                SetupStage::CreatingHeap
            },
            (SetupStage::CreatingHeap, _) => SetupStage::CreatingFence,
            (SetupStage::CreatingFence, _) => SetupStage::Ready,
            _ => SetupStage::Failed(SetupError::Device),
        };
    }
}

/// The setup after `replies`.
pub open spec fn setup_run(replies: Seq<SetupReply>) -> Setup
    decreases replies.len(),
{
    if replies.len() == 0 {
        Setup { stage: SetupStage::Describing }
    } else {
        Setup { stage: setup_run(replies.drop_last()).next(replies.last()) }
    }
}

/// Whether each of `replies` answers what the setup asked.
pub open spec fn setup_awaits(replies: Seq<SetupReply>) -> bool
    decreases replies.len(),
{
    replies.len() == 0 || (setup_awaits(replies.drop_last()) && setup_run(
        replies.drop_last(),
    ).awaits(replies.last()))
}

/// How many command lists were made and closed.
pub open spec fn lists_closed(replies: Seq<SetupReply>) -> int
    decreases replies.len(),
{
    if replies.len() == 0 {
        0
    } else {
        let before = lists_closed(replies.drop_last());
        match (setup_run(replies.drop_last()).asks(), replies.last()) {
            (SetupAction::CloseList { .. }, SetupReply::Done(true)) => before + 1,
            _ => before,
        }
    }
}

/// A renderer that is ready has one closed command list for each render target, and each was made
/// after those before it were closed.
pub proof fn law_one_list_per_target(replies: Seq<SetupReply>)
    requires
        setup_awaits(replies),
    ensures
        match setup_run(replies).asks() {
            SetupAction::CreateAllocator { index, .. } => lists_closed(replies) == index,
            SetupAction::CreateList { index, .. } => lists_closed(replies) == index,
            SetupAction::CloseList { index } => lists_closed(replies) == index,
            SetupAction::CreateTextureHeap { .. } => lists_closed(replies) == MAX_RENDER_TARGETS,
            SetupAction::CreateFence { .. } => lists_closed(replies) == MAX_RENDER_TARGETS,
            SetupAction::Finish(Ok(())) => lists_closed(replies) == MAX_RENDER_TARGETS,
            SetupAction::Finish(Err(_)) => lists_closed(replies) <= MAX_RENDER_TARGETS,
            _ => lists_closed(replies) == 0,
        },
        setup_run(replies).wf(),
    decreases replies.len(),
{
    if replies.len() > 0 {
        law_one_list_per_target(replies.drop_last());
    }
}

/// What a setup asks next follows from what it asked and what came back. It fails exactly where a
/// call fails, and says so where the signature was serialized to nothing.
pub proof fn law_setup_leads_on(setup: Setup, reply: SetupReply)
    requires
        setup.awaits(reply),
        setup.wf(),
    ensures
        ({
            let then = (Setup { stage: setup.next(reply) }).asks();
            let failed = SetupAction::Finish(Err(SetupError::Device));
            match (setup.asks(), reply) {
                (SetupAction::DescribeSwapchain, SetupReply::Format(Some(_))) => then
                    == SetupAction::SerializeSignature { signature: root_signature(), version: 1 },
                (SetupAction::DescribeSwapchain, SetupReply::Format(None)) => then == failed,
                (SetupAction::SerializeSignature { .. }, SetupReply::Serialized(Some(true))) => then
                    == SetupAction::CreateSignature,
                (SetupAction::SerializeSignature { .. }, SetupReply::Serialized(Some(false))) => {
                    then == SetupAction::Finish(Err(SetupError::NoSignature))
                },
                (SetupAction::SerializeSignature { .. }, SetupReply::Serialized(None)) => then
                    == failed,
                (_, SetupReply::Done(false)) => then == failed,
                (SetupAction::CreateSignature, _) => then is CreatePipeline,
                (SetupAction::CreatePipeline(_), _) => then == SetupAction::CreateAllocator {
                    index: 0,
                    list_type: 0,
                },
                (SetupAction::CreateAllocator { index, .. }, _) => then == SetupAction::CreateList {
                    index,
                    list_type: 0,
                },
                (SetupAction::CreateList { index, .. }, _) => then == SetupAction::CloseList {
                    index,
                },
                (SetupAction::CloseList { index }, _) => if index < 7 {
                    then == SetupAction::CreateAllocator {
                        index: (index + 1) as usize,
                        list_type: 0,
                    }
                } else {
                    then == SetupAction::CreateTextureHeap {
                        num_descriptors: 1,
                        heap_type: 0,
                        flags: 1,
                    }
                },
                (SetupAction::CreateTextureHeap { .. }, _) => then == SetupAction::CreateFence {
                    initial: 0,
                },
                (SetupAction::CreateFence { .. }, _) => then == SetupAction::Finish(Ok(())),
                _ => false,
            }
        }),
{
}

/// The pipeline draws in the format that the swapchain was found to have.
pub proof fn law_pipeline_has_format(replies: Seq<SetupReply>)
    requires
        setup_awaits(replies),
    ensures
        setup_run(replies).asks() matches SetupAction::CreatePipeline(plan) ==> replies.len() > 0
            && replies[0] == SetupReply::Format(Some(plan.target_format)),
{
    lemma_format(replies);
}

proof fn lemma_format(replies: Seq<SetupReply>)
    requires
        setup_awaits(replies),
    ensures
        match setup_run(replies).stage {
            SetupStage::Describing => replies.len() == 0,
            SetupStage::Serializing { format } => replies.len() > 0 && replies[0]
                == SetupReply::Format(Some(format)),
            SetupStage::CreatingSignature { format } => replies.len() > 0 && replies[0]
                == SetupReply::Format(Some(format)),
            SetupStage::CreatingPipeline { format } => replies.len() > 0 && replies[0]
                == SetupReply::Format(Some(format)),
            _ => true,
        },
    decreases replies.len(),
{
    if replies.len() > 0 {
        lemma_format(replies.drop_last());
    }
}

/// The overlay is laid over what is there: its colours weigh as much as it is opaque, and what is
/// there weighs the rest; every pixel of every side is drawn; and the shaders read what a frame
/// sets: four values of the place, and one texture.
pub proof fn law_laid_over(format: i32)
    ensures
        ({
            let plan = pipeline_plan(format);
            &&& plan.blend.blend_enable && plan.blend.src_blend == 5 && plan.blend.dest_blend == 6
            &&& plan.blend.src_blend_alpha == 2 && plan.blend.dest_blend_alpha == 6
            &&& plan.blend.blend_op == 1 && plan.blend.blend_op_alpha == 1
            &&& plan.blend.write_mask == 15 && !plan.blend.logic_op_enable
            &&& plan.rasterizer.fill_mode == 3 && plan.rasterizer.cull_mode == 1
            &&& plan.topology_type == 3 && plan.num_render_targets == 1
            &&& plan.sample_count == 1 && plan.sample_quality == 0 && plan.sample_mask == u32::MAX
            &&& !plan.alpha_to_coverage && !plan.independent_blend
            &&& !plan.rasterizer.front_counter_clockwise && !plan.rasterizer.depth_clip_enable
            &&& !plan.rasterizer.multisample_enable && !plan.rasterizer.antialiased_line_enable
            &&& plan.rasterizer.depth_bias == 0 && plan.rasterizer.depth_bias_clamp == 0
            &&& plan.rasterizer.slope_scaled_depth_bias == 0
            &&& plan.rasterizer.forced_sample_count == 0 && plan.rasterizer.conservative_raster == 0
            &&& plan.blend.logic_op == 4 && plan.target_format == format
        }),
        root_signature().constants.num_32bit_values == 4,
        root_signature().constants.visibility == 1,
        root_signature().table.num_descriptors == 1,
        root_signature().table.visibility == 5,
        root_signature().table.range_type == 0,
        root_signature().table.offset == 0xffff_ffff,
        root_signature().sampler.filter == 0,
        root_signature().sampler.address_u == 3,
        root_signature().sampler.address_v == 3,
        root_signature().sampler.address_w == 3,
        root_signature().sampler.comparison == 1,
        root_signature().sampler.max_lod == 0x7f7f_ffff,
        root_signature().sampler.min_lod == 0,
        root_signature().sampler.mip_lod_bias == 0,
        root_signature().sampler.max_anisotropy == 0,
        root_signature().sampler.border_color == 0,
        root_signature().sampler.shader_register == 0,
        root_signature().sampler.register_space == 0,
        root_signature().table.base_shader_register == 0,
        root_signature().table.register_space == 0,
        root_signature().constants.shader_register == 0,
        root_signature().constants.register_space == 0,
        root_signature().sampler.visibility == 5,
        root_signature().flags == 29,
{
    assert(1i32 | 4 | 8 | 16 == 29) by (bit_vector);
}

} // verus!
