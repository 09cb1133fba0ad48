//! Making a renderer.

use crate::vulkan::{FrameData, RendererView, VulkanRenderer};
use vstd::prelude::*;

verus! {

pub const DESCRIPTOR_COMBINED_IMAGE_SAMPLER: i32 = 1;

pub const FILTER_NEAREST: i32 = 0;

pub const ADDRESS_CLAMP_TO_EDGE: i32 = 2;

pub const SHADER_STAGE_VERTEX: u32 = 0b1;

pub const SHADER_STAGE_FRAGMENT: u32 = 0b1_0000;

pub const SAMPLES_1: u32 = 0b1;

pub const LOAD_DONT_CARE: i32 = 2;

pub const STORE_STORE: i32 = 0;

pub const STORE_DONT_CARE: i32 = 1;

pub const LAYOUT_UNDEFINED: i32 = 0;

pub const LAYOUT_COLOR_ATTACHMENT_OPTIMAL: i32 = 2;

pub const LAYOUT_PRESENT_SRC: i32 = 1_000_001_002;

pub const BIND_POINT_GRAPHICS: i32 = 0;

pub const TOPOLOGY_TRIANGLE_STRIP: i32 = 4;

pub const BLEND_ZERO: i32 = 0;

pub const BLEND_ONE: i32 = 1;

pub const BLEND_SRC_ALPHA: i32 = 6;

pub const BLEND_ONE_MINUS_SRC_ALPHA: i32 = 7;

pub const BLEND_OP_ADD: i32 = 0;

pub const COLOR_RGBA: u32 = 0b1111;

/// Bits of the single-precision float one.
pub const FLOAT_ONE_BITS: u32 = 0x3f80_0000;

/// A pool of descriptors of one type.
#[derive(Debug, Clone, Copy, PartialEq, Eq, Structural)]
pub struct DescriptorPoolPlan {
    pub max_sets: u32,
    pub descriptor_type: i32,
    pub descriptor_count: u32,
}

/// A sampler.
#[derive(Debug, Clone, Copy, PartialEq, Eq, Structural)]
pub struct SamplerPlan {
    pub mag_filter: i32,
    pub min_filter: i32,
    pub address_mode_u: i32,
    pub address_mode_v: i32,
    pub address_mode_w: i32,
}

/// A descriptor set layout with one binding and a sampler that does not change.
#[derive(Debug, Clone, Copy, PartialEq, Eq, Structural)]
pub struct TextureLayoutPlan {
    pub binding: u32,
    pub descriptor_type: i32,
    pub descriptor_count: u32,
    pub stage_flags: u32,
    pub sampler: u64,
}

/// A pipeline layout with one descriptor set and one range of push constants.
#[derive(Debug, Clone, Copy, PartialEq, Eq, Structural)]
pub struct PipelineLayoutPlan {
    pub set_layout: u64,
    pub push_stage_flags: u32,
    pub push_offset: u32,
    pub push_size: u32,
}

/// A render pass of one subpass on one attachment.
#[derive(Debug, Clone, Copy, PartialEq, Eq, Structural)]
pub struct RenderPassPlan {
    pub format: i32,
    pub samples: u32,
    pub load_op: i32,
    pub store_op: i32,
    pub stencil_load_op: i32,
    pub stencil_store_op: i32,
    pub initial_layout: i32,
    pub final_layout: i32,
    pub attachment: u32,
    pub attachment_layout: i32,
    pub bind_point: i32,
}

/// A graphics pipeline. Its viewport and its scissor both are the image, from its origin. Depths
/// and the width of lines are single-precision floats, held as their bits.
#[derive(Debug, Clone, Copy, PartialEq, Eq)]
pub struct PipelinePlan {
    pub vertex_shader: u64,
    pub fragment_shader: u64,
    pub topology: i32,
    pub extent: (u32, u32),
    pub min_depth: u32,
    pub max_depth: u32,
    pub line_width: u32,
    pub samples: u32,
    pub blend_enable: bool,
    pub src_color_blend_factor: i32,
    pub dst_color_blend_factor: i32,
    pub color_blend_op: i32,
    pub src_alpha_blend_factor: i32,
    pub dst_alpha_blend_factor: i32,
    pub color_write_mask: u32,
    pub layout: u64,
    pub render_pass: u64,
}

/// What a swapchain image is drawn with.
#[derive(Debug, Clone, Copy, PartialEq, Eq)]
pub struct FramePlan {
    pub queue_family_index: u32,
    pub render_pass: u64,
    pub image: u64,
    pub format: i32,
    pub extent: (u32, u32),
}

/// Room for the one set of the overlay texture.
pub fn create_descriptor_pool() -> (r: DescriptorPoolPlan)
    ensures
        r == (DescriptorPoolPlan {
            max_sets: 1,
            descriptor_type: DESCRIPTOR_COMBINED_IMAGE_SAMPLER,
            descriptor_count: 1,
        }),
{
    DescriptorPoolPlan {
        max_sets: 1,
        descriptor_type: DESCRIPTOR_COMBINED_IMAGE_SAMPLER,
        descriptor_count: 1,
    }
}

/// A sampler that does not filter.
pub fn create_sampler() -> (r: SamplerPlan)
    ensures
        r == (SamplerPlan {
            mag_filter: FILTER_NEAREST,
            min_filter: FILTER_NEAREST,
            address_mode_u: ADDRESS_CLAMP_TO_EDGE,
            address_mode_v: ADDRESS_CLAMP_TO_EDGE,
            address_mode_w: ADDRESS_CLAMP_TO_EDGE,
        }),
{
    SamplerPlan {
        mag_filter: FILTER_NEAREST,
        min_filter: FILTER_NEAREST,
        address_mode_u: ADDRESS_CLAMP_TO_EDGE,
        address_mode_v: ADDRESS_CLAMP_TO_EDGE,
        address_mode_w: ADDRESS_CLAMP_TO_EDGE,
    }
}

pub open spec fn texture_layout_plan(sampler: u64) -> TextureLayoutPlan {
    TextureLayoutPlan {
        binding: 0,
        descriptor_type: DESCRIPTOR_COMBINED_IMAGE_SAMPLER,
        descriptor_count: 1,
        stage_flags: SHADER_STAGE_FRAGMENT,
        sampler,
    }
}

/// The layout of the overlay texture's descriptor set.
pub fn create_texture_layout(sampler: u64) -> (r: TextureLayoutPlan)
    ensures
        r == texture_layout_plan(sampler),
{
    TextureLayoutPlan {
        binding: 0,
        descriptor_type: DESCRIPTOR_COMBINED_IMAGE_SAMPLER,
        descriptor_count: 1,
        stage_flags: SHADER_STAGE_FRAGMENT,
        sampler,
    }
}

pub open spec fn pipeline_layout_plan(texture_layout: u64) -> PipelineLayoutPlan {
    PipelineLayoutPlan {
        set_layout: texture_layout,
        push_stage_flags: SHADER_STAGE_VERTEX,
        push_offset: 0,
        push_size: 16,
    }
}

/// The pipeline layout: the texture, and four pushed numbers of four bytes each for the
/// overlay's place.
pub fn create_pipeline_layout(texture_layout: u64) -> (r: PipelineLayoutPlan)
    ensures
        r == pipeline_layout_plan(texture_layout),
{
    PipelineLayoutPlan {
        set_layout: texture_layout,
        push_stage_flags: SHADER_STAGE_VERTEX,
        push_offset: 0,
        push_size: 16,
    }
}

pub open spec fn render_pass_plan(format: i32) -> RenderPassPlan {
    RenderPassPlan {
        format,
        samples: SAMPLES_1,
        load_op: LOAD_DONT_CARE,
        store_op: STORE_STORE,
        stencil_load_op: LOAD_DONT_CARE,
        stencil_store_op: STORE_DONT_CARE,
        initial_layout: LAYOUT_UNDEFINED,
        final_layout: LAYOUT_PRESENT_SRC,
        attachment: 0,
        attachment_layout: LAYOUT_COLOR_ATTACHMENT_OPTIMAL,
        bind_point: BIND_POINT_GRAPHICS,
    }
}

/// The render pass on a swapchain image.
pub fn create_render_pass(format: i32) -> (r: RenderPassPlan)
    ensures
        r == render_pass_plan(format),
{
    RenderPassPlan {
        format,
        samples: SAMPLES_1,
        load_op: LOAD_DONT_CARE,
        store_op: STORE_STORE,
        stencil_load_op: LOAD_DONT_CARE,
        stencil_store_op: STORE_DONT_CARE,
        initial_layout: LAYOUT_UNDEFINED,
        final_layout: LAYOUT_PRESENT_SRC,
        attachment: 0,
        attachment_layout: LAYOUT_COLOR_ATTACHMENT_OPTIMAL,
        bind_point: BIND_POINT_GRAPHICS,
    }
}

pub open spec fn pipeline_plan(
    vertex_shader: u64,
    fragment_shader: u64,
    size: (u32, u32),
    layout: u64,
    render_pass: u64,
) -> PipelinePlan {
    PipelinePlan {
        vertex_shader,
        fragment_shader,
        topology: TOPOLOGY_TRIANGLE_STRIP,
        extent: size,
        min_depth: 0,
        max_depth: FLOAT_ONE_BITS,
        line_width: FLOAT_ONE_BITS,
        samples: SAMPLES_1,
        blend_enable: true,
        src_color_blend_factor: BLEND_SRC_ALPHA,
        dst_color_blend_factor: BLEND_ONE_MINUS_SRC_ALPHA,
        color_blend_op: BLEND_OP_ADD,
        src_alpha_blend_factor: BLEND_ONE,
        dst_alpha_blend_factor: BLEND_ZERO,
        color_write_mask: COLOR_RGBA,
        layout,
        render_pass,
    }
}

/// The pipeline that blends the overlay over what the program drew.
pub fn create_pipeline(
    vertex_shader: u64,
    fragment_shader: u64,
    size: (u32, u32),
    layout: u64,
    render_pass: u64,
) -> (r: PipelinePlan)
    ensures
        r == pipeline_plan(vertex_shader, fragment_shader, size, layout, render_pass),
{
    PipelinePlan {
        vertex_shader,
        fragment_shader,
        topology: TOPOLOGY_TRIANGLE_STRIP,
        extent: size,
        min_depth: 0,
        max_depth: FLOAT_ONE_BITS,
        line_width: FLOAT_ONE_BITS,
        samples: SAMPLES_1,
        blend_enable: true,
        src_color_blend_factor: BLEND_SRC_ALPHA,
        dst_color_blend_factor: BLEND_ONE_MINUS_SRC_ALPHA,
        color_blend_op: BLEND_OP_ADD,
        src_alpha_blend_factor: BLEND_ONE,
        dst_alpha_blend_factor: BLEND_ZERO,
        color_write_mask: COLOR_RGBA,
        layout,
        render_pass,
    }
}

/// What the device could not make.
#[derive(Debug, Clone, Copy, PartialEq, Eq, Structural)]
pub enum SetupError {
    DescriptorPool,
    Sampler,
    TextureLayout,
    DescriptorSet,
    PipelineLayout,
    RenderPass,
    VertexShader,
    FragmentShader,
    Pipeline,
    Frame,
}

impl SetupError {
    pub open spec fn text(self) -> Seq<char> {
        match self {
            SetupError::DescriptorPool => "failed to create DescriptorPool"@,
            SetupError::Sampler => "failed to create Sampler"@,
            SetupError::TextureLayout => "failed to create texture DescriptorSetLayout"@,
            SetupError::DescriptorSet => "failed to create DescriptorSet"@,
            SetupError::PipelineLayout => "failed to create PipelineLayout"@,
            SetupError::RenderPass => "failed to create RenderPass"@,
            SetupError::VertexShader => "failed to create vertex shader module"@,
            SetupError::FragmentShader => "failed to create fragment shader module"@,
            SetupError::Pipeline => "failed to create Pipeline"@,
            SetupError::Frame => "failed to create SwapchainImageData"@,
        }
    }

    /// What went wrong.
    pub fn message(&self) -> (r: &'static str)
        ensures
            r@ == self.text(),
    {
        match self {
            SetupError::DescriptorPool => "failed to create DescriptorPool",
            SetupError::Sampler => "failed to create Sampler",
            SetupError::TextureLayout => "failed to create texture DescriptorSetLayout",
            SetupError::DescriptorSet => "failed to create DescriptorSet",
            SetupError::PipelineLayout => "failed to create PipelineLayout",
            SetupError::RenderPass => "failed to create RenderPass",
            SetupError::VertexShader => "failed to create vertex shader module",
            SetupError::FragmentShader => "failed to create fragment shader module",
            SetupError::Pipeline => "failed to create Pipeline",
            SetupError::Frame => "failed to create SwapchainImageData",
        }
    }
}

/// What came back from the device.
#[derive(Debug, Clone, Copy, PartialEq, Eq, Structural)]
pub enum SetupReply {
    /// The object that was made, if it was.
    Made(Option<u64>),
    /// The objects of a frame, if they were made.
    Frame(Option<FrameData>),
    Destroyed,
}

/// What to ask of the device.
#[derive(Debug, Clone, Copy, PartialEq, Eq)]
pub enum SetupAction {
    CreateDescriptorPool(DescriptorPoolPlan),
    CreateSampler(SamplerPlan),
    CreateTextureLayout(TextureLayoutPlan),
    AllocateDescriptorSet { pool: u64, layout: u64 },
    CreatePipelineLayout(PipelineLayoutPlan),
    CreateRenderPass(RenderPassPlan),
    CreateVertexShader,
    CreateFragmentShader,
    CreatePipeline(PipelinePlan),
    DestroyShader(u64),
    CreateFrame(FramePlan),
    Finish(Result<(), SetupError>),
}

/// How far a setup has come.
#[derive(Debug, Clone, Copy, PartialEq, Eq, Structural)]
pub enum SetupStage {
    DescriptorPool,
    Sampler,
    TextureLayout,
    DescriptorSet,
    PipelineLayout,
    RenderPass,
    VertexShader,
    FragmentShader,
    Pipeline,
    /// The shader modules are given back, whether the pipeline was made or not.
    DropFragment { failed: bool },
    DropVertex { error: Option<SetupError> },
    Frames,
    Ready,
    Failed(SetupError),
}

/// A renderer in the making.
#[derive(Debug)]
pub struct Setup {
    pub queue_family_index: u32,
    pub image_size: (u32, u32),
    pub format: i32,
    pub images: Vec<u64>,
    pub vertex_shader: u64,
    pub fragment_shader: u64,
    pub renderer: VulkanRenderer,
    pub stage: SetupStage,
}

#[verifier::ext_equal]
pub ghost struct SetupView {
    pub queue_family_index: u32,
    pub image_size: (u32, u32),
    pub format: i32,
    pub images: Seq<u64>,
    pub vertex_shader: u64,
    pub fragment_shader: u64,
    pub renderer: RendererView,
    pub stage: SetupStage,
}

impl View for Setup {
    type V = SetupView;

    open spec fn view(&self) -> SetupView {
        SetupView {
            queue_family_index: self.queue_family_index,
            image_size: self.image_size,
            format: self.format,
            images: self.images@,
            vertex_shader: self.vertex_shader,
            fragment_shader: self.fragment_shader,
            renderer: self.renderer@,
            stage: self.stage,
        }
    }
}

/// A renderer of which nothing is made.
pub open spec fn unmade() -> RendererView {
    RendererView {
        descriptor_pool: 0,
        sampler: 0,
        texture_layout: 0,
        texture_descriptor_set: 0,
        texture: None,
        pipeline_layout: 0,
        render_pass: 0,
        pipeline: 0,
        frame_datas: Seq::empty(),
    }
}

impl SetupView {
    /// Whether the setup asks nothing more.
    pub open spec fn over(self) -> bool {
        self.stage is Ready || self.stage is Failed
    }

    /// Whether `reply` answers what the setup asks.
    pub open spec fn awaits(self, reply: SetupReply) -> bool {
        match self.stage {
            SetupStage::DropFragment { .. } => reply is Destroyed,
            SetupStage::DropVertex { .. } => reply is Destroyed,
            SetupStage::Frames => reply is Frame,
            _ => !self.over() && reply is Made,
        }
    }

    /// The frames to make are those of the images that have none yet.
    pub open spec fn wf(self) -> bool {
        &&& self.renderer.frame_datas.len() <= self.images.len()
        &&& self.stage is Frames ==> self.renderer.frame_datas.len() < self.images.len()
    }

    /// What the setup asks for.
    pub open spec fn asks(self) -> SetupAction {
        let made = self.renderer;
        match self.stage {
            SetupStage::DescriptorPool => SetupAction::CreateDescriptorPool(
                DescriptorPoolPlan {
                    max_sets: 1,
                    descriptor_type: DESCRIPTOR_COMBINED_IMAGE_SAMPLER,
                    descriptor_count: 1,
                },
            ),
            SetupStage::Sampler => SetupAction::CreateSampler(
                SamplerPlan {
                    mag_filter: FILTER_NEAREST,
                    min_filter: FILTER_NEAREST,
                    address_mode_u: ADDRESS_CLAMP_TO_EDGE,
                    address_mode_v: ADDRESS_CLAMP_TO_EDGE,
                    address_mode_w: ADDRESS_CLAMP_TO_EDGE,
                },
            ),
            SetupStage::TextureLayout => SetupAction::CreateTextureLayout(
                texture_layout_plan(made.sampler),
            ),
            SetupStage::DescriptorSet => SetupAction::AllocateDescriptorSet {
                pool: made.descriptor_pool,
                layout: made.texture_layout,
            },
            SetupStage::PipelineLayout => SetupAction::CreatePipelineLayout(
                pipeline_layout_plan(made.texture_layout),
            ),
            SetupStage::RenderPass => SetupAction::CreateRenderPass(render_pass_plan(self.format)),
            SetupStage::VertexShader => SetupAction::CreateVertexShader,
            SetupStage::FragmentShader => SetupAction::CreateFragmentShader,
            SetupStage::Pipeline => SetupAction::CreatePipeline(
                pipeline_plan(
                    self.vertex_shader,
                    self.fragment_shader,
                    self.image_size,
                    made.pipeline_layout,
                    made.render_pass,
                ),
            ),
            SetupStage::DropFragment { .. } => SetupAction::DestroyShader(self.fragment_shader),
            SetupStage::DropVertex { .. } => SetupAction::DestroyShader(self.vertex_shader),
            SetupStage::Frames => SetupAction::CreateFrame(
                FramePlan {
                    queue_family_index: self.queue_family_index,
                    render_pass: made.render_pass,
                    image: self.images[made.frame_datas.len() as int],
                    format: self.format,
                    extent: self.image_size,
                },
            ),
            SetupStage::Ready => SetupAction::Finish(Ok(())),
            SetupStage::Failed(err) => SetupAction::Finish(Err(err)),
        }
    }

    /// The setup at another stage.
    pub open spec fn at(self, stage: SetupStage) -> SetupView {
        SetupView { stage, ..self }
    }

    /// The setup on its way through the frames: some are left to make, or it is through.
    pub open spec fn framing(self) -> SetupView {
        self.at(
            if self.renderer.frame_datas.len() < self.images.len() {
                SetupStage::Frames
            } else {
                SetupStage::Ready
            },
        )
    }

    /// The setup after the device made `object`.
    pub open spec fn with(self, object: u64) -> SetupView {
        let made = self.renderer;
        match self.stage {
            SetupStage::DescriptorPool => SetupView {
                renderer: RendererView { descriptor_pool: object, ..made },
                stage: SetupStage::Sampler,
                ..self
            },
            SetupStage::Sampler => SetupView {
                renderer: RendererView { sampler: object, ..made },
                stage: SetupStage::TextureLayout,
                ..self
            },
            SetupStage::TextureLayout => SetupView {
                renderer: RendererView { texture_layout: object, ..made },
                stage: SetupStage::DescriptorSet,
                ..self
            },
            SetupStage::DescriptorSet => SetupView {
                renderer: RendererView { texture_descriptor_set: object, ..made },
                stage: SetupStage::PipelineLayout,
                ..self
            },
            SetupStage::PipelineLayout => SetupView {
                renderer: RendererView { pipeline_layout: object, ..made },
                stage: SetupStage::RenderPass,
                ..self
            },
            SetupStage::RenderPass => SetupView {
                renderer: RendererView { render_pass: object, ..made },
                stage: SetupStage::VertexShader,
                ..self
            },
            SetupStage::VertexShader => SetupView {
                vertex_shader: object,
                stage: SetupStage::FragmentShader,
                ..self
            },
            SetupStage::FragmentShader => SetupView {
                fragment_shader: object,
                stage: SetupStage::Pipeline,
                ..self
            },
            SetupStage::Pipeline => SetupView {
                renderer: RendererView { pipeline: object, ..made },
                stage: SetupStage::DropFragment { failed: false },
                ..self
            },
            _ => self,
        }
    }

    /// Where the setup stands after the device made nothing.
    pub open spec fn without(self) -> SetupStage {
        match self.stage {
            SetupStage::DescriptorPool => SetupStage::Failed(SetupError::DescriptorPool),
            SetupStage::Sampler => SetupStage::Failed(SetupError::Sampler),
            SetupStage::TextureLayout => SetupStage::Failed(SetupError::TextureLayout),
            SetupStage::DescriptorSet => SetupStage::Failed(SetupError::DescriptorSet),
            SetupStage::PipelineLayout => SetupStage::Failed(SetupError::PipelineLayout),
            SetupStage::RenderPass => SetupStage::Failed(SetupError::RenderPass),
            SetupStage::VertexShader => SetupStage::Failed(SetupError::VertexShader),
            SetupStage::FragmentShader => SetupStage::DropVertex {
                error: Some(SetupError::FragmentShader),
            },
            SetupStage::Pipeline => SetupStage::DropFragment { failed: true },
            stage => stage,
        }
    }

    /// The setup after `reply`.
    pub open spec fn told(self, reply: SetupReply) -> SetupView {
        match reply {
            SetupReply::Made(Some(object)) => self.with(object),
            SetupReply::Made(None) => self.at(self.without()),
            SetupReply::Frame(Some(frame)) => (SetupView {
                renderer: RendererView {
                    frame_datas: self.renderer.frame_datas.push(frame),
                    ..self.renderer
                },
                ..self
            }).framing(),
            SetupReply::Frame(None) => self.at(SetupStage::Failed(SetupError::Frame)),
            SetupReply::Destroyed => match self.stage {
                SetupStage::DropFragment { failed } => self.at(
                    SetupStage::DropVertex {
                        error: if failed {
                            Some(SetupError::Pipeline)
                        } else {
                            None
                        },
                    },
                ),
                SetupStage::DropVertex { error: Some(err) } => self.at(SetupStage::Failed(err)),
                _ => self.framing(),
            },
        }
    }
}

impl Setup {
    /// What to ask of the device now.
    pub fn action(&self) -> (r: SetupAction)
        requires
            self@.wf(),
        ensures
            r == self@.asks(),
    {
        let made = &self.renderer;
        match self.stage {
            SetupStage::DescriptorPool => SetupAction::CreateDescriptorPool(
                create_descriptor_pool(),
            ),
            SetupStage::Sampler => SetupAction::CreateSampler(create_sampler()),
            SetupStage::TextureLayout => SetupAction::CreateTextureLayout(
                create_texture_layout(made.sampler),
            ),
            SetupStage::DescriptorSet => SetupAction::AllocateDescriptorSet {
                pool: made.descriptor_pool,
                layout: made.texture_layout,
            },
            SetupStage::PipelineLayout => SetupAction::CreatePipelineLayout(
                create_pipeline_layout(made.texture_layout),
            ),
            SetupStage::RenderPass => SetupAction::CreateRenderPass(
                create_render_pass(self.format),
            ),
            SetupStage::VertexShader => SetupAction::CreateVertexShader,
            SetupStage::FragmentShader => SetupAction::CreateFragmentShader,
            SetupStage::Pipeline => SetupAction::CreatePipeline(
                create_pipeline(
                    self.vertex_shader,
                    self.fragment_shader,
                    self.image_size,
                    made.pipeline_layout,
                    made.render_pass,
                ),
            ),
            SetupStage::DropFragment { .. } => SetupAction::DestroyShader(self.fragment_shader),
            SetupStage::DropVertex { .. } => SetupAction::DestroyShader(self.vertex_shader),
            SetupStage::Frames => SetupAction::CreateFrame(
                FramePlan {
                    queue_family_index: self.queue_family_index,
                    render_pass: made.render_pass,
                    image: self.images[made.frame_datas.len()],
                    format: self.format,
                    extent: self.image_size,
                },
            ),
            SetupStage::Ready => SetupAction::Finish(Ok(())),
            SetupStage::Failed(err) => SetupAction::Finish(Err(err)),
        }
    }

    fn frame_stage(&self) -> (r: SetupStage)
        ensures
            self@.framing() == self@.at(r),
    {
        if self.renderer.frame_datas.len() < self.images.len() {
            SetupStage::Frames
        } else {
            SetupStage::Ready
        }
    }

    fn made(&mut self, object: u64)
        ensures
            final(self)@ == old(self)@.with(object),
    {
        match self.stage {
            SetupStage::DescriptorPool => {
                self.renderer.descriptor_pool = object;
                self.stage = SetupStage::Sampler;
            },
            SetupStage::Sampler => {
                self.renderer.sampler = object;
                self.stage = SetupStage::TextureLayout;
            },
            SetupStage::TextureLayout => {
                self.renderer.texture_layout = object;
                self.stage = SetupStage::DescriptorSet;
            },
            SetupStage::DescriptorSet => {
                self.renderer.texture_descriptor_set = object;
                self.stage = SetupStage::PipelineLayout;
            },
            SetupStage::PipelineLayout => {
                self.renderer.pipeline_layout = object;
                self.stage = SetupStage::RenderPass;
            },
            SetupStage::RenderPass => {
                self.renderer.render_pass = object;
                self.stage = SetupStage::VertexShader;
            },
            SetupStage::VertexShader => {
                self.vertex_shader = object;
                self.stage = SetupStage::FragmentShader;
            },
            SetupStage::FragmentShader => {
                self.fragment_shader = object;
                self.stage = SetupStage::Pipeline;
            },
            SetupStage::Pipeline => {
                self.renderer.pipeline = object;
                self.stage = SetupStage::DropFragment { failed: false };
            },
            _ => {},
        }
    }

    fn not_made(&self) -> (r: SetupStage)
        ensures
            r == self@.without(),
    {
        match self.stage {
            SetupStage::DescriptorPool => SetupStage::Failed(SetupError::DescriptorPool),
            SetupStage::Sampler => SetupStage::Failed(SetupError::Sampler),
            SetupStage::TextureLayout => SetupStage::Failed(SetupError::TextureLayout),
            SetupStage::DescriptorSet => SetupStage::Failed(SetupError::DescriptorSet),
            SetupStage::PipelineLayout => SetupStage::Failed(SetupError::PipelineLayout),
            SetupStage::RenderPass => SetupStage::Failed(SetupError::RenderPass),
            SetupStage::VertexShader => SetupStage::Failed(SetupError::VertexShader),
            SetupStage::FragmentShader => SetupStage::DropVertex {
                error: Some(SetupError::FragmentShader),
            },
            SetupStage::Pipeline => SetupStage::DropFragment { failed: true },
            stage => stage,
        }
    }

    /// Tells the setup what came back from the device.
    pub fn advance(&mut self, reply: SetupReply)
        requires
            old(self)@.wf(),
            old(self)@.awaits(reply),
        ensures
            final(self)@ == old(self)@.told(reply),
            final(self)@.wf(),
    {
        match reply {
            SetupReply::Made(Some(object)) => {
                self.made(object);
            },
            SetupReply::Made(None) => {
                self.stage = self.not_made();
            },
            SetupReply::Frame(Some(frame)) => {
                self.renderer.frame_datas.push(frame);
                self.stage = self.frame_stage();
            },
            SetupReply::Frame(None) => {
                self.stage = SetupStage::Failed(SetupError::Frame);
            },
            SetupReply::Destroyed => {
                self.stage =
                match self.stage {
                    SetupStage::DropFragment { failed } => SetupStage::DropVertex {
                        error: if failed {
                            Some(SetupError::Pipeline)
                        } else {
                            None
                        },
                    },
                    SetupStage::DropVertex { error: Some(err) } => SetupStage::Failed(err),
                    _ => self.frame_stage(),
                };
            },
        }
    }

    /// The finished renderer. It has no texture yet.
    pub fn finish(self) -> (r: VulkanRenderer)
        requires
            self.stage is Ready,
        ensures
            r@ == self@.renderer,
    {
        self.renderer
    }
}

impl VulkanRenderer {
    /// Begins to make a renderer for the images of a swapchain.
    pub fn new(
        queue_family_index: u32,
        image_size: (u32, u32),
        format: i32,
        images: Vec<u64>,
    ) -> (r: Setup)
        ensures
            r@ == setup_start(queue_family_index, image_size, format, images@),
            r@.wf(),
    {
        let renderer = VulkanRenderer {
            descriptor_pool: 0,
            sampler: 0,
            texture_layout: 0,
            texture_descriptor_set: 0,
            texture: None,
            pipeline_layout: 0,
            render_pass: 0,
            pipeline: 0,
            frame_datas: Vec::new(),
        };
        assert(renderer@ =~= unmade());
        Setup {
            queue_family_index,
            image_size,
            format,
            images,
            vertex_shader: 0,
            fragment_shader: 0,
            renderer,
            stage: SetupStage::DescriptorPool,
        }
    }
}

/// A setup that has asked for nothing yet.
pub open spec fn setup_start(
    queue_family_index: u32,
    image_size: (u32, u32),
    format: i32,
    images: Seq<u64>,
) -> SetupView {
    SetupView {
        queue_family_index,
        image_size,
        format,
        images,
        vertex_shader: 0,
        fragment_shader: 0,
        renderer: unmade(),
        stage: SetupStage::DescriptorPool,
    }
}

/// The setup after `replies`.
pub open spec fn setup_run(start: SetupView, replies: Seq<SetupReply>) -> SetupView
    decreases replies.len(),
{
    if replies.len() == 0 {
        start
    } else {
        setup_run(start, replies.drop_last()).told(replies.last())
    }
}

/// Whether each of `replies` answers what the setup asked.
pub open spec fn setup_awaits(start: SetupView, replies: Seq<SetupReply>) -> bool
    decreases replies.len(),
{
    replies.len() == 0 || (setup_awaits(start, replies.drop_last()) && setup_run(
        start,
        replies.drop_last(),
    ).awaits(replies.last()))
}

/// The shader modules that the device has made and not been given back, the latest last.
pub open spec fn live_shaders(start: SetupView, replies: Seq<SetupReply>) -> Seq<u64>
    decreases replies.len(),
{
    if replies.len() == 0 {
        Seq::empty()
    } else {
        let live = live_shaders(start, replies.drop_last());
        match (setup_run(start, replies.drop_last()).asks(), replies.last()) {
            (SetupAction::CreateVertexShader, SetupReply::Made(Some(shader))) => live.push(shader),
            (SetupAction::CreateFragmentShader, SetupReply::Made(Some(shader))) => {
                live.push(shader)
            },
            (SetupAction::DestroyShader(shader), _) => {
                if live.len() > 0 && live.last() == shader {
                    live.drop_last()
                } else {
                    live
                }
            },
            _ => live,
        }
    }
}

/// The shader modules that are live at a stage.
spec fn live_at(setup: SetupView) -> Seq<u64> {
    match setup.stage {
        SetupStage::FragmentShader => seq![setup.vertex_shader],
        SetupStage::DropVertex { .. } => seq![setup.vertex_shader],
        SetupStage::Pipeline => seq![setup.vertex_shader, setup.fragment_shader],
        SetupStage::DropFragment { .. } => seq![setup.vertex_shader, setup.fragment_shader],
        _ => Seq::empty(),
    }
}

proof fn lemma_live_shaders(start: SetupView, replies: Seq<SetupReply>)
    requires
        start.stage is DescriptorPool,
        setup_awaits(start, replies),
    ensures
        live_shaders(start, replies) == live_at(setup_run(start, replies)),
    decreases replies.len(),
{
    if replies.len() > 0 {
        let before = setup_run(start, replies.drop_last());
        lemma_live_shaders(start, replies.drop_last());
        assert(live_shaders(start, replies) =~= live_at(before.told(replies.last())));
    }
}

/// Shader modules are given back in the reverse order of their making, and all of them are by
/// the time the setup is over, whether it succeeded or failed.
pub proof fn law_shaders_given_back(
    queue_family_index: u32,
    image_size: (u32, u32),
    format: i32,
    images: Seq<u64>,
    replies: Seq<SetupReply>,
)
    requires
        setup_awaits(setup_start(queue_family_index, image_size, format, images), replies),
    ensures
        ({
            let start = setup_start(queue_family_index, image_size, format, images);
            let live = live_shaders(start, replies);
            match setup_run(start, replies).asks() {
                SetupAction::DestroyShader(shader) => live.len() > 0 && live.last() == shader,
                SetupAction::CreatePipeline(plan) => live == seq![
                    plan.vertex_shader,
                    plan.fragment_shader,
                ],
                SetupAction::CreateFrame(_) => live.len() == 0,
                SetupAction::Finish(_) => live.len() == 0,
                _ => true,
            }
        }),
{
    lemma_live_shaders(setup_start(queue_family_index, image_size, format, images), replies);
}

/// A renderer that is ready has one frame for each image of the swapchain and no texture.
pub proof fn law_frame_per_image(
    queue_family_index: u32,
    image_size: (u32, u32),
    format: i32,
    images: Seq<u64>,
    replies: Seq<SetupReply>,
)
    requires
        setup_awaits(setup_start(queue_family_index, image_size, format, images), replies),
    ensures
        ({
            let start = setup_start(queue_family_index, image_size, format, images);
            let setup = setup_run(start, replies);
            &&& setup.wf()
            &&& setup.images == images
            &&& setup.renderer.texture is None
            &&& setup.stage is Ready ==> setup.renderer.frame_datas.len() == images.len()
            &&& !(setup.stage is Frames || setup.over()) ==> setup.renderer.frame_datas.len() == 0
        }),
    decreases replies.len(),
{
    if replies.len() > 0 {
        law_frame_per_image(
            queue_family_index,
            image_size,
            format,
            images,
            replies.drop_last(),
        );
    }
}

/// Each object is made for what was made before it: the texture's layout for the sampler, the
/// descriptor set in the pool and for the layout, the pipeline's layout for the texture's, the
/// render pass for the format, the pipeline for the shaders, the extent, the layout and the pass,
/// and each frame for its own image, the family of the queue, the pass, the format and the extent.
pub proof fn law_made_for(setup: SetupView)
    ensures
        match setup.asks() {
            SetupAction::CreateDescriptorPool(plan) => plan.max_sets == 1 && plan.descriptor_type
                == 1 && plan.descriptor_count == 1,
            SetupAction::CreateSampler(plan) => plan.mag_filter == 0 && plan.min_filter == 0
                && plan.address_mode_u == 2 && plan.address_mode_v == 2 && plan.address_mode_w == 2,
            SetupAction::CreateTextureLayout(plan) => plan.sampler == setup.renderer.sampler
                && plan.binding == 0 && plan.descriptor_type == 1 && plan.descriptor_count == 1
                && plan.stage_flags == 16,
            SetupAction::AllocateDescriptorSet { pool, layout } => pool
                == setup.renderer.descriptor_pool && layout == setup.renderer.texture_layout,
            SetupAction::CreatePipelineLayout(plan) => plan.set_layout
                == setup.renderer.texture_layout && plan.push_stage_flags == 1 && plan.push_offset
                == 0 && plan.push_size == 16,
            SetupAction::CreateRenderPass(plan) => plan.format == setup.format && plan.samples == 1
                && plan.load_op == 2 && plan.store_op == 0 && plan.stencil_load_op == 2
                && plan.stencil_store_op == 1 && plan.initial_layout == 0 && plan.final_layout
                == 1000001002 && plan.attachment == 0 && plan.attachment_layout == 2
                && plan.bind_point == 0,
            SetupAction::CreatePipeline(plan) => plan.vertex_shader == setup.vertex_shader
                && plan.fragment_shader == setup.fragment_shader && plan.extent == setup.image_size
                && plan.layout == setup.renderer.pipeline_layout && plan.render_pass
                == setup.renderer.render_pass && plan.topology == 4 && plan.min_depth == 0
                && plan.max_depth == 0x3f80_0000 && plan.line_width == 0x3f80_0000 && plan.samples
                == 1 && plan.blend_enable && plan.src_color_blend_factor == 6
                && plan.dst_color_blend_factor == 7 && plan.color_blend_op == 0
                && plan.src_alpha_blend_factor == 1 && plan.dst_alpha_blend_factor == 0
                && plan.color_write_mask == 15,
            SetupAction::CreateFrame(plan) => plan.queue_family_index == setup.queue_family_index
                && plan.render_pass == setup.renderer.render_pass && plan.image
                == setup.images[setup.renderer.frame_datas.len() as int] && plan.format
                == setup.format && plan.extent == setup.image_size,
            SetupAction::DestroyShader(shader) => shader == setup.vertex_shader || shader
                == setup.fragment_shader,
            _ => true,
        },
{
}

/// Each object that was made is kept for what it is, and what comes next is asked for. What the
/// setup was begun with stays as it is.
pub proof fn law_object_kept(setup: SetupView, object: u64)
    requires
        setup.awaits(SetupReply::Made(Some(object))),
    ensures
        ({
            let after = setup.told(SetupReply::Made(Some(object)));
            let before = setup.renderer;
            let made = after.renderer;
            let then = after.asks();
            &&& setup.asks() is CreateDescriptorPool ==> made == (RendererView {
                descriptor_pool: object,
                ..before
            }) && then is CreateSampler
            &&& setup.asks() is CreateSampler ==> made == (RendererView {
                sampler: object,
                ..before
            }) && then is CreateTextureLayout
            &&& setup.asks() is CreateTextureLayout ==> made == (RendererView {
                texture_layout: object,
                ..before
            }) && then is AllocateDescriptorSet
            &&& setup.asks() is AllocateDescriptorSet ==> made == (RendererView {
                texture_descriptor_set: object,
                ..before
            }) && then is CreatePipelineLayout
            &&& setup.asks() is CreatePipelineLayout ==> made == (RendererView {
                pipeline_layout: object,
                ..before
            }) && then is CreateRenderPass
            &&& setup.asks() is CreateRenderPass ==> made == (RendererView {
                render_pass: object,
                ..before
            }) && then is CreateVertexShader
            &&& setup.asks() is CreateVertexShader ==> made == before && after.vertex_shader
                == object && then is CreateFragmentShader
            &&& setup.asks() is CreateFragmentShader ==> made == before && after.fragment_shader
                == object && after.vertex_shader == setup.vertex_shader && then is CreatePipeline
            &&& setup.asks() is CreatePipeline ==> made == (RendererView {
                pipeline: object,
                ..before
            }) && then == SetupAction::DestroyShader(setup.fragment_shader)
            &&& after.queue_family_index == setup.queue_family_index
            &&& after.image_size == setup.image_size
            &&& after.format == setup.format
            &&& after.images == setup.images
        }),
{
}

/// An object that could not be made ends the setup under its own name, after the shaders that were
/// made are given back.
pub proof fn law_object_missing(setup: SetupView)
    requires
        setup.awaits(SetupReply::Made(None)),
    ensures
        ({
            let after = setup.told(SetupReply::Made(None));
            let dropped = after.told(SetupReply::Destroyed);
            let failed = |now: SetupView, err: SetupError| now.asks() == SetupAction::Finish(
                Err(err),
            );
            &&& after.renderer == setup.renderer
            &&& match setup.asks() {
                SetupAction::CreateDescriptorPool(_) => failed(after, SetupError::DescriptorPool),
                SetupAction::CreateSampler(_) => failed(after, SetupError::Sampler),
                SetupAction::CreateTextureLayout(_) => failed(after, SetupError::TextureLayout),
                SetupAction::AllocateDescriptorSet { .. } => failed(
                    after,
                    SetupError::DescriptorSet,
                ),
                SetupAction::CreatePipelineLayout(_) => failed(after, SetupError::PipelineLayout),
                SetupAction::CreateRenderPass(_) => failed(after, SetupError::RenderPass),
                SetupAction::CreateVertexShader => failed(after, SetupError::VertexShader),
                SetupAction::CreateFragmentShader => after.asks() == SetupAction::DestroyShader(
                    setup.vertex_shader,
                ) && failed(dropped, SetupError::FragmentShader),
                SetupAction::CreatePipeline(_) => after.asks() == SetupAction::DestroyShader(
                    setup.fragment_shader,
                ) && dropped.asks() == SetupAction::DestroyShader(setup.vertex_shader) && failed(
                    dropped.told(SetupReply::Destroyed),
                    SetupError::Pipeline,
                ),
                _ => false,
            }
        }),
{
}

/// A frame that was made is the next one of the renderer, and the setup is through once each image
/// has one. One that could not be made ends the setup.
pub proof fn law_frame_kept(setup: SetupView, frame: FrameData)
    requires
        setup.wf(),
        setup.asks() is CreateFrame,
    ensures
        ({
            let after = setup.told(SetupReply::Frame(Some(frame)));
            let failed = setup.told(SetupReply::Frame(None));
            let n = setup.renderer.frame_datas.len();
            &&& after.renderer == (RendererView {
                frame_datas: setup.renderer.frame_datas.push(frame),
                ..setup.renderer
            })
            &&& after.asks() is CreateFrame <==> n + 1 < setup.images.len()
            &&& after.asks() == SetupAction::Finish(Ok(())) <==> n + 1 == setup.images.len()
            &&& failed.asks() == SetupAction::Finish(Err(SetupError::Frame))
            &&& failed.renderer == setup.renderer
        }),
{
}

/// A pipeline that was made is followed by its frames, once both shaders are given back.
pub proof fn law_frames_follow(setup: SetupView, object: u64)
    requires
        setup.wf(),
        setup.asks() is CreatePipeline,
    ensures
        ({
            let made = setup.told(SetupReply::Made(Some(object)));
            let one = made.told(SetupReply::Destroyed);
            let both = one.told(SetupReply::Destroyed);
            &&& one.asks() == SetupAction::DestroyShader(setup.vertex_shader)
            &&& both.renderer == made.renderer
            &&& setup.renderer.frame_datas.len() < setup.images.len() ==> both.asks() is CreateFrame
            &&& setup.renderer.frame_datas.len() == setup.images.len() ==> both.asks()
                == SetupAction::Finish(Ok(()))
        }),
{
}

/// A setup begins with what it is for, and with nothing made.
pub proof fn law_setup_begins(
    queue_family_index: u32,
    image_size: (u32, u32),
    format: i32,
    images: Seq<u64>,
)
    ensures
        ({
            let start = setup_start(queue_family_index, image_size, format, images);
            &&& start.queue_family_index == queue_family_index
            &&& start.image_size == image_size
            &&& start.format == format
            &&& start.images == images
            &&& start.renderer.texture is None
            &&& start.renderer.frame_datas.len() == 0
            &&& start.renderer.descriptor_pool == 0 && start.renderer.sampler == 0
            &&& start.renderer.texture_layout == 0 && start.renderer.texture_descriptor_set == 0
            &&& start.renderer.pipeline_layout == 0 && start.renderer.render_pass == 0
            &&& start.renderer.pipeline == 0
            &&& start.vertex_shader == 0 && start.fragment_shader == 0
            &&& start.asks() is CreateDescriptorPool
        }),
{
}

} // verus!
