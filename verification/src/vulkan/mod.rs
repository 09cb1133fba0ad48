//! Drawing the overlay in programs that present with Vulkan.
//!
//! Vulkan objects are named by their raw handles, and formats, flags and layouts by their raw
//! values. What is asked of the device is a value that says which call to make with what.

pub mod draw;
pub mod present;
pub mod queue;
pub mod setup;
pub mod swapchain;
pub mod texture;

use vstd::prelude::*;

verus! {

/// What one image of a swapchain is drawn with.
#[derive(Debug, Clone, Copy, PartialEq, Eq, Structural)]
pub struct FrameData {
    pub view: u64,
    pub framebuffer: u64,
    pub command_pool: u64,
    pub command_buffer: u64,
    pub fence: u64,
    pub submit_semaphore: u64,
}

/// The imported overlay texture.
#[derive(Debug, Clone, Copy, PartialEq, Eq, Structural)]
pub struct Texture {
    pub memory: u64,
    pub image: u64,
    pub view: u64,
}

/// A vulkan renderer for rendering an overlay.
#[derive(Debug)]
pub struct VulkanRenderer {
    pub descriptor_pool: u64,
    pub sampler: u64,
    pub texture_layout: u64,
    pub texture_descriptor_set: u64,
    pub texture: Option<Texture>,
    pub pipeline_layout: u64,
    pub render_pass: u64,
    pub pipeline: u64,
    pub frame_datas: Vec<FrameData>,
}

/// The objects of a renderer.
#[verifier::ext_equal]
pub ghost struct RendererView {
    pub descriptor_pool: u64,
    pub sampler: u64,
    pub texture_layout: u64,
    pub texture_descriptor_set: u64,
    pub texture: Option<Texture>,
    pub pipeline_layout: u64,
    pub render_pass: u64,
    pub pipeline: u64,
    pub frame_datas: Seq<FrameData>,
}

impl View for VulkanRenderer {
    type V = RendererView;

    open spec fn view(&self) -> RendererView {
        RendererView {
            descriptor_pool: self.descriptor_pool,
            sampler: self.sampler,
            texture_layout: self.texture_layout,
            texture_descriptor_set: self.texture_descriptor_set,
            texture: self.texture,
            pipeline_layout: self.pipeline_layout,
            render_pass: self.render_pass,
            pipeline: self.pipeline,
            frame_datas: self.frame_datas@,
        }
    }
}

/// An object to give back to the device.
#[derive(Debug, Clone, Copy, PartialEq, Eq, Structural)]
pub enum Destroy {
    Semaphore(u64),
    Fence(u64),
    CommandBuffer { pool: u64, buffer: u64 },
    CommandPool(u64),
    Framebuffer(u64),
    ImageView(u64),
    DescriptorPool(u64),
    Image(u64),
    Memory(u64),
    Pipeline(u64),
    RenderPass(u64),
    PipelineLayout(u64),
    DescriptorSetLayout(u64),
    Sampler(u64),
}

impl FrameData {
    /// The objects of a frame, in the order in which they are given back.
    pub open spec fn parts(self) -> Seq<Destroy> {
        seq![
            Destroy::Semaphore(self.submit_semaphore),
            Destroy::Fence(self.fence),
            Destroy::CommandBuffer { pool: self.command_pool, buffer: self.command_buffer },
            Destroy::CommandPool(self.command_pool),
            Destroy::Framebuffer(self.framebuffer),
            Destroy::ImageView(self.view),
        ]
    }
}

impl Texture {
    /// The objects of a texture, in the order in which they are given back.
    pub open spec fn parts(self) -> Seq<Destroy> {
        seq![
            Destroy::ImageView(self.view),
            Destroy::Image(self.image),
            Destroy::Memory(self.memory),
        ]
    }

    pub(crate) fn append_parts(&self, out: &mut Vec<Destroy>)
        ensures
            final(out)@ == old(out)@ + self.parts(),
    {
        out.push(Destroy::ImageView(self.view));
        out.push(Destroy::Image(self.image));
        out.push(Destroy::Memory(self.memory));
        assert(out@ =~= old(out)@ + self.parts());
    }
}

/// The objects of the frames, the first frame's first.
pub open spec fn frame_parts(frames: Seq<FrameData>) -> Seq<Destroy>
    decreases frames.len(),
{
    if frames.len() == 0 {
        Seq::empty()
    } else {
        frame_parts(frames.drop_last()) + frames.last().parts()
    }
}

impl RendererView {
    /// Everything the renderer holds, in the order in which it is given back.
    pub open spec fn parts(self) -> Seq<Destroy> {
        frame_parts(self.frame_datas) + seq![Destroy::DescriptorPool(self.descriptor_pool)] + (
        match self.texture {
            Some(texture) => texture.parts(),
            None => Seq::empty(),
        }) + seq![
            Destroy::Pipeline(self.pipeline),
            Destroy::RenderPass(self.render_pass),
            Destroy::PipelineLayout(self.pipeline_layout),
            Destroy::DescriptorSetLayout(self.texture_layout),
            Destroy::Sampler(self.sampler),
        ]
    }
}

impl VulkanRenderer {
    /// What to give back to the device, once it is idle, when the renderer goes.
    pub fn teardown(&self) -> (r: Vec<Destroy>)
        ensures
            r@ == self@.parts(),
    {
        let mut out: Vec<Destroy> = Vec::new();
        let mut i: usize = 0;
        while i < self.frame_datas.len()
            invariant
                i <= self.frame_datas.len(),
                out@ == frame_parts(self.frame_datas@.take(i as int)),
            decreases self.frame_datas.len() - i,
        {
            let frame = self.frame_datas[i];
            let ghost before = out@;
            out.push(Destroy::Semaphore(frame.submit_semaphore));
            out.push(Destroy::Fence(frame.fence));
            out.push(
                Destroy::CommandBuffer { pool: frame.command_pool, buffer: frame.command_buffer },
            );
            out.push(Destroy::CommandPool(frame.command_pool));
            out.push(Destroy::Framebuffer(frame.framebuffer));
            out.push(Destroy::ImageView(frame.view));
            proof {
                assert(out@ =~= before + frame.parts());
                let upto = self.frame_datas@.take(i + 1);
                assert(upto.drop_last() =~= self.frame_datas@.take(i as int));
            }
            i += 1;
        }
        proof {
            assert(self.frame_datas@.take(i as int) =~= self.frame_datas@);
        }
        let ghost frames = out@;
        out.push(Destroy::DescriptorPool(self.descriptor_pool));
        if let Some(texture) = &self.texture {
            texture.append_parts(&mut out);
        }
        out.push(Destroy::Pipeline(self.pipeline));
        out.push(Destroy::RenderPass(self.render_pass));
        out.push(Destroy::PipelineLayout(self.pipeline_layout));
        out.push(Destroy::DescriptorSetLayout(self.texture_layout));
        out.push(Destroy::Sampler(self.sampler));
        assert(out@ =~= self@.parts());
        out
    }
}

/// Frame `i` gives back its own six objects, the semaphore, the fence, the command buffer and its
/// pool, the framebuffer and the view, in this order and at its place among the frames.
pub proof fn law_frame_given_back(frames: Seq<FrameData>, i: int)
    requires
        0 <= i < frames.len(),
    ensures
        frame_parts(frames).len() == 6 * frames.len(),
        frame_parts(frames)[6 * i] == Destroy::Semaphore(frames[i].submit_semaphore),
        frame_parts(frames)[6 * i + 1] == Destroy::Fence(frames[i].fence),
        frame_parts(frames)[6 * i + 2] == (Destroy::CommandBuffer {
            pool: frames[i].command_pool,
            buffer: frames[i].command_buffer,
        }),
        frame_parts(frames)[6 * i + 3] == Destroy::CommandPool(frames[i].command_pool),
        frame_parts(frames)[6 * i + 4] == Destroy::Framebuffer(frames[i].framebuffer),
        frame_parts(frames)[6 * i + 5] == Destroy::ImageView(frames[i].view),
    decreases frames.len(),
{
    let before = frames.drop_last();
    if i < before.len() {
        law_frame_given_back(before, i);
    } else if before.len() > 0 {
        law_frame_given_back(before, 0);
    }
}

/// A renderer gives back its frames first, then the pool of descriptors, then the texture, if it
/// holds one, with the view before the image and the image before its memory, and then what
/// everything was made with. Nothing is given back twice, and nothing else is.
pub proof fn law_all_given_back(renderer: RendererView)
    ensures
        ({
            let parts = renderer.parts();
            let n = 6 * renderer.frame_datas.len() as int;
            let t = n + 1 + (if renderer.texture is Some {
                3int
            } else {
                0int
            });
            &&& parts.len() == t + 5
            &&& parts.take(n) == frame_parts(renderer.frame_datas)
            &&& parts[n] == Destroy::DescriptorPool(renderer.descriptor_pool)
            &&& renderer.texture matches Some(texture) ==> parts[n + 1] == Destroy::ImageView(
                texture.view,
            ) && parts[n + 2] == Destroy::Image(texture.image) && parts[n + 3] == Destroy::Memory(
                texture.memory,
            )
            &&& parts[t] == Destroy::Pipeline(renderer.pipeline)
            &&& parts[t + 1] == Destroy::RenderPass(renderer.render_pass)
            &&& parts[t + 2] == Destroy::PipelineLayout(renderer.pipeline_layout)
            &&& parts[t + 3] == Destroy::DescriptorSetLayout(renderer.texture_layout)
            &&& parts[t + 4] == Destroy::Sampler(renderer.sampler)
        }),
{
    let frames = renderer.frame_datas;
    if frames.len() > 0 {
        law_frame_given_back(frames, 0);
    }
    assert(frame_parts(frames).len() == 6 * frames.len());
    assert(renderer.parts().take(frame_parts(frames).len() as int) =~= frame_parts(frames));
}

} // verus!
