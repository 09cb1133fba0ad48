//! Importing the overlay texture.

use crate::vulkan::setup::{
    DESCRIPTOR_COMBINED_IMAGE_SAMPLER, LAYOUT_UNDEFINED, SAMPLES_1,
};
use crate::vulkan::{RendererView, Texture, VulkanRenderer};
use vstd::prelude::*;

verus! {

pub const DXGI_FORMAT_R16G16B16A16_FLOAT: i32 = 10;

pub const DXGI_FORMAT_R16G16B16A16_UNORM: i32 = 11;

pub const DXGI_FORMAT_R8G8B8A8_UNORM: i32 = 28;

pub const DXGI_FORMAT_R8G8B8A8_UNORM_SRGB: i32 = 29;

pub const DXGI_FORMAT_B8G8R8A8_UNORM: i32 = 87;

pub const FORMAT_R8G8B8A8_UNORM: i32 = 37;

pub const FORMAT_R8G8B8A8_SRGB: i32 = 43;

pub const FORMAT_B8G8R8A8_UNORM: i32 = 44;

pub const FORMAT_R16G16B16A16_UNORM: i32 = 91;

pub const FORMAT_R16G16B16A16_SFLOAT: i32 = 97;

/// Property flag of memory that is fast for the device.
pub const MEMORY_DEVICE_LOCAL: u32 = 0b1;

/// The vulkan format of a DXGI format, for those that an overlay texture can have.
pub open spec fn vk_format(format: i32) -> Option<i32> {
    if format == DXGI_FORMAT_R8G8B8A8_UNORM {
        Some(FORMAT_R8G8B8A8_UNORM)
    } else if format == DXGI_FORMAT_R8G8B8A8_UNORM_SRGB {
        Some(FORMAT_R8G8B8A8_SRGB)
    } else if format == DXGI_FORMAT_B8G8R8A8_UNORM {
        Some(FORMAT_B8G8R8A8_UNORM)
    } else if format == DXGI_FORMAT_R16G16B16A16_UNORM {
        Some(FORMAT_R16G16B16A16_UNORM)
    } else if format == DXGI_FORMAT_R16G16B16A16_FLOAT {
        Some(FORMAT_R16G16B16A16_SFLOAT)
    } else {
        None
    }
}

/// Maps a DXGI format to the vulkan format of the same layout.
pub fn map_dxgi_format_to_vk(format: i32) -> (r: Option<i32>)
    ensures
        r == vk_format(format),
{
    match format {
        DXGI_FORMAT_R8G8B8A8_UNORM => Some(FORMAT_R8G8B8A8_UNORM),
        DXGI_FORMAT_R8G8B8A8_UNORM_SRGB => Some(FORMAT_R8G8B8A8_SRGB),
        DXGI_FORMAT_B8G8R8A8_UNORM => Some(FORMAT_B8G8R8A8_UNORM),
        DXGI_FORMAT_R16G16B16A16_UNORM => Some(FORMAT_R16G16B16A16_UNORM),
        DXGI_FORMAT_R16G16B16A16_FLOAT => Some(FORMAT_R16G16B16A16_SFLOAT),
        _ => None,
    }
}

/// Two DXGI formats never share a vulkan format.
pub proof fn law_formats_distinct(a: i32, b: i32)
    requires
        vk_format(a) is Some,
        vk_format(a) == vk_format(b),
    ensures
        a == b,
{
}

/// Whether memory type `i` can hold the image, as bit `i` of `bits` tells, and is device local.
pub open spec fn suits(bits: u32, types: Seq<u32>, i: int) -> bool {
    &&& 0 <= i < types.len()
    &&& i < 32
    &&& (bits >> (i as u32)) & 1 == 1
    &&& types[i] & MEMORY_DEVICE_LOCAL == MEMORY_DEVICE_LOCAL
}

/// `index` is the first memory type that suits, or zero where none does.
pub open spec fn is_memory_type(bits: u32, types: Seq<u32>, index: u32) -> bool {
    if exists|i: int| suits(bits, types, i) {
        suits(bits, types, index as int) && forall|i: int|
            0 <= i < index ==> !suits(bits, types, i)
    } else {
        index == 0
    }
}

/// The memory type to import a texture with.
pub open spec fn memory_type(bits: u32, types: Seq<u32>) -> u32 {
    choose|index: u32| is_memory_type(bits, types, index)
}

/// Exactly one memory type is chosen.
proof fn lemma_one_memory_type(bits: u32, types: Seq<u32>, index: u32)
    requires
        is_memory_type(bits, types, index),
    ensures
        memory_type(bits, types) == index,
{
    let other = memory_type(bits, types);
    assert(is_memory_type(bits, types, other));
    if other < index {
        assert(!suits(bits, types, other as int));
    } else if index < other {
        assert(!suits(bits, types, index as int));
    }
}

/// Chooses the memory type to import the texture with. `bits` tells which types can hold the
/// image, and `types` the property flags of each type.
pub fn memory_type_index(bits: u32, types: &[u32]) -> (r: u32)
    requires
        types@.len() <= u32::MAX,
    ensures
        is_memory_type(bits, types@, r),
        r == memory_type(bits, types@),
{
    assert(bits >> 0 == bits) by (bit_vector);
    let mut left: u32 = bits;
    let mut i: usize = 0;
    while i < types.len()
        invariant
            i <= types@.len(),
            types@.len() <= u32::MAX,
            i < 32 ==> left == bits >> (i as u32),
            i >= 32 ==> left == 0,
            forall|j: int| 0 <= j < i ==> !suits(bits, types@, j),
        decreases types.len() - i,
    {
        if left & 1 == 1 && types[i] & MEMORY_DEVICE_LOCAL == MEMORY_DEVICE_LOCAL {
            proof {
                assert(0u32 & 1 == 0) by (bit_vector);
                assert(suits(bits, types@, i as int));
                lemma_one_memory_type(bits, types@, i as u32);
            }
            return i as u32;
        }
        proof {
            let n = i as u32;
            if n < 31 {
                assert((bits >> n) >> 1 == bits >> ((n + 1) as u32)) by (bit_vector)
                    requires
                        n < 31,
                ;
            } else if n == 31 {
                assert((bits >> 31) >> 1 == 0) by (bit_vector);
            } else {
                assert(0u32 >> 1 == 0) by (bit_vector);
            }
        }
        left = left >> 1;
        i += 1;
    }
    proof {
        assert forall|j: int| !suits(bits, types@, j) by {}
        lemma_one_memory_type(bits, types@, 0);
    }
    0
}

/// What a shared Direct3D texture is.
#[derive(Debug, Clone, Copy, PartialEq, Eq, Structural)]
pub struct SharedTexture {
    pub width: u32,
    pub height: u32,
    /// DXGI format.
    pub format: i32,
    /// Handle by which it is shared.
    pub handle: u64,
}

/// What the device needs of the memory for an image.
#[derive(Debug, Clone, Copy, PartialEq, Eq, Structural)]
pub struct MemoryNeeds {
    pub size: u64,
    pub type_bits: u32,
    pub prefers_dedicated: bool,
    pub requires_dedicated: bool,
}

pub const IMAGE_TYPE_2D: i32 = 1;

pub const VIEW_TYPE_2D: i32 = 1;

pub const TILING_OPTIMAL: i32 = 0;

pub const USAGE_SAMPLED: u32 = 0b100;

pub const SHARING_EXCLUSIVE: i32 = 0;

pub const ASPECT_COLOR: u32 = 0b1;

pub const LAYOUT_SHADER_READ_ONLY: i32 = 5;

/// Handle type of a shared Direct3D 11 texture.
pub const HANDLE_D3D11_TEXTURE_KMT: u32 = 0b1_0000;

/// An image in externally shared memory.
#[derive(Debug, Clone, Copy, PartialEq, Eq, Structural)]
pub struct ImagePlan {
    pub image_type: i32,
    pub format: i32,
    pub width: u32,
    pub height: u32,
    pub depth: u32,
    pub mip_levels: u32,
    pub array_layers: u32,
    pub samples: u32,
    pub tiling: i32,
    pub usage: u32,
    pub sharing_mode: i32,
    pub initial_layout: i32,
    pub handle_types: u32,
}

/// The image of the overlay texture: two-dimensional, with one level and one layer, and sampled.
pub open spec fn image_plan(format: i32, width: u32, height: u32) -> ImagePlan {
    ImagePlan {
        image_type: IMAGE_TYPE_2D,
        format,
        width,
        height,
        depth: 1,
        mip_levels: 1,
        array_layers: 1,
        samples: SAMPLES_1,
        tiling: TILING_OPTIMAL,
        usage: USAGE_SAMPLED,
        sharing_mode: SHARING_EXCLUSIVE,
        initial_layout: LAYOUT_UNDEFINED,
        handle_types: HANDLE_D3D11_TEXTURE_KMT,
    }
}

/// Gives the image of the overlay texture.
pub fn texture_image(format: i32, width: u32, height: u32) -> (r: ImagePlan)
    ensures
        r == image_plan(format, width, height),
{
    ImagePlan {
        image_type: IMAGE_TYPE_2D,
        format,
        width,
        height,
        depth: 1,
        mip_levels: 1,
        array_layers: 1,
        samples: SAMPLES_1,
        tiling: TILING_OPTIMAL,
        usage: USAGE_SAMPLED,
        sharing_mode: SHARING_EXCLUSIVE,
        initial_layout: LAYOUT_UNDEFINED,
        handle_types: HANDLE_D3D11_TEXTURE_KMT,
    }
}

/// A view of an image.
#[derive(Debug, Clone, Copy, PartialEq, Eq, Structural)]
pub struct ViewPlan {
    pub image: u64,
    pub format: i32,
    pub view_type: i32,
    pub aspect_mask: u32,
    pub base_mip_level: u32,
    pub level_count: u32,
    pub base_array_layer: u32,
    pub layer_count: u32,
}

/// The view of the overlay texture: all of its image.
pub open spec fn view_plan(image: u64, format: i32) -> ViewPlan {
    ViewPlan {
        image,
        format,
        view_type: VIEW_TYPE_2D,
        aspect_mask: ASPECT_COLOR,
        base_mip_level: 0,
        level_count: 1,
        base_array_layer: 0,
        layer_count: 1,
    }
}

/// Gives the view of the overlay texture.
pub fn texture_view(image: u64, format: i32) -> (r: ViewPlan)
    ensures
        r == view_plan(image, format),
{
    ViewPlan {
        image,
        format,
        view_type: VIEW_TYPE_2D,
        aspect_mask: ASPECT_COLOR,
        base_mip_level: 0,
        level_count: 1,
        base_array_layer: 0,
        layer_count: 1,
    }
}

/// A write to a descriptor set.
#[derive(Debug, Clone, Copy, PartialEq, Eq, Structural)]
pub struct DescriptorPlan {
    pub set: u64,
    pub binding: u32,
    pub descriptor_count: u32,
    pub descriptor_type: i32,
    pub view: u64,
    pub image_layout: i32,
}

/// The write that has the descriptor set show a view.
pub open spec fn descriptor_plan(set: u64, view: u64) -> DescriptorPlan {
    DescriptorPlan {
        set,
        binding: 0,
        descriptor_count: 1,
        descriptor_type: DESCRIPTOR_COMBINED_IMAGE_SAMPLER,
        view,
        image_layout: LAYOUT_SHADER_READ_ONLY,
    }
}

/// Gives the write that has the descriptor set show a view.
pub fn texture_descriptor(set: u64, view: u64) -> (r: DescriptorPlan)
    ensures
        r == descriptor_plan(set, view),
{
    DescriptorPlan {
        set,
        binding: 0,
        descriptor_count: 1,
        descriptor_type: DESCRIPTOR_COMBINED_IMAGE_SAMPLER,
        view,
        image_layout: LAYOUT_SHADER_READ_ONLY,
    }
}

/// A memory allocation that imports a shared texture.
#[derive(Debug, Clone, Copy, PartialEq, Eq, Structural)]
pub struct ImportPlan {
    pub size: u64,
    pub memory_type_index: u32,
    pub handle_type: u32,
    pub handle: u64,
    /// The image the memory is for alone, where it is.
    pub dedicated: Option<u64>,
}

/// Why the texture was not imported.
#[derive(Debug, Clone, Copy, PartialEq, Eq, Structural)]
pub enum TextureError {
    /// The DXGI format has no vulkan format.
    UnsupportedFormat,
    /// A call to the device failed.
    Device,
}

impl TextureError {
    pub open spec fn text(self) -> Option<Seq<char>> {
        match self {
            TextureError::UnsupportedFormat => Some(
                "unsupported DXGI format for overlay texture"@,
            ),
            TextureError::Device => None,
        }
    }

    /// What went wrong, where the device does not tell.
    pub fn message(&self) -> (r: Option<&'static str>)
        ensures
            match r {
                Some(text) => self.text() == Some(text@),
                None => self.text() is None,
            },
    {
        match self {
            TextureError::UnsupportedFormat => Some("unsupported DXGI format for overlay texture"),
            TextureError::Device => None,
        }
    }
}

/// What came back from the device.
#[derive(Debug, Clone, Copy, PartialEq, Eq, Structural)]
pub enum TextureReply {
    /// Whether the call succeeded.
    Done(bool),
    Shared(SharedTexture),
    /// The object that was made, if it was.
    Made(Option<u64>),
    Needs(MemoryNeeds),
}

/// What to ask of the device.
#[derive(Debug, Clone, Copy, PartialEq, Eq)]
pub enum TextureAction {
    WaitIdle,
    /// Give back a view, an image and its memory, in this order.
    Release(Texture),
    /// Describe the shared texture.
    Describe,
    CreateImage(ImagePlan),
    QueryNeeds { image: u64 },
    Allocate(ImportPlan),
    Bind { image: u64, memory: u64, offset: u64 },
    CreateView(ViewPlan),
    WriteDescriptor(DescriptorPlan),
    Finish(Result<(), TextureError>),
}

/// How far an update has come.
#[derive(Debug, Clone, Copy, PartialEq, Eq, Structural)]
pub enum TextureStage {
    Waiting { old: Texture },
    Releasing { old: Texture },
    Describing,
    CreatingImage { shared: SharedTexture, format: i32 },
    QueryingNeeds { shared: SharedTexture, format: i32, image: u64 },
    Allocating { plan: ImportPlan, format: i32, image: u64 },
    Binding { format: i32, image: u64, memory: u64 },
    CreatingView { format: i32, image: u64, memory: u64 },
    Writing { texture: Texture },
    Updated,
    Failed(TextureError),
}

/// An update of the overlay texture in progress.
#[derive(Debug, Clone, Copy, PartialEq, Eq, Structural)]
pub struct TextureUpdate {
    /// Descriptor set that shows the texture.
    pub set: u64,
    /// Whether there is a new texture.
    pub replaced: bool,
    pub stage: TextureStage,
}

impl TextureUpdate {
    /// Whether `reply` answers what the update asks.
    pub open spec fn awaits(self, reply: TextureReply) -> bool {
        match self.stage {
            TextureStage::Waiting { .. } => reply is Done,
            TextureStage::Releasing { .. } => reply is Done,
            TextureStage::Describing => reply is Shared,
            TextureStage::CreatingImage { .. } => reply is Made,
            TextureStage::QueryingNeeds { .. } => reply is Needs,
            TextureStage::Allocating { .. } => reply is Made,
            TextureStage::Binding { .. } => reply is Done,
            TextureStage::CreatingView { .. } => reply is Made,
            TextureStage::Writing { .. } => reply is Done,
            TextureStage::Updated => false,
            TextureStage::Failed(_) => false,
        }
    }

    /// What the update asks for.
    pub open spec fn asks(self) -> TextureAction {
        match self.stage {
            TextureStage::Waiting { .. } => TextureAction::WaitIdle,
            TextureStage::Releasing { old } => TextureAction::Release(old),
            TextureStage::Describing => TextureAction::Describe,
            TextureStage::CreatingImage { shared, format } => TextureAction::CreateImage(
                image_plan(format, shared.width, shared.height),
            ),
            TextureStage::QueryingNeeds { image, .. } => TextureAction::QueryNeeds { image },
            TextureStage::Allocating { plan, .. } => TextureAction::Allocate(plan),
            TextureStage::Binding { image, memory, .. } => TextureAction::Bind {
                image,
                memory,
                offset: 0,
            },
            TextureStage::CreatingView { image, format, .. } => TextureAction::CreateView(
                view_plan(image, format),
            ),
            TextureStage::Writing { texture } => TextureAction::WriteDescriptor(
                descriptor_plan(self.set, texture.view),
            ),
            TextureStage::Updated => TextureAction::Finish(Ok(())),
            TextureStage::Failed(err) => TextureAction::Finish(Err(err)),
        }
    }

    /// Where the update stands once the old texture, if any, is gone.
    pub open spec fn released(replaced: bool) -> TextureStage {
        if replaced {
            TextureStage::Describing
        } else {
            TextureStage::Updated
        }
    }

    /// Where the update stands after `reply`. `types` are the property flags of the device's
    /// memory types.
    pub open spec fn next(self, reply: TextureReply, types: Seq<u32>) -> TextureStage {
        match (self.stage, reply) {
            (TextureStage::Waiting { old }, TextureReply::Done(true)) => {
                TextureStage::Releasing { old }
            },
            (TextureStage::Releasing { .. }, _) => TextureUpdate::released(self.replaced),
            (TextureStage::Describing, TextureReply::Shared(shared)) => {
                match vk_format(shared.format) {
                    Some(format) => TextureStage::CreatingImage { shared, format },
                    None => TextureStage::Failed(TextureError::UnsupportedFormat),
                }
            },
            (
                TextureStage::CreatingImage { shared, format },
                TextureReply::Made(Some(image)),
            ) => TextureStage::QueryingNeeds { shared, format, image },
            (
                TextureStage::QueryingNeeds { shared, format, image },
                TextureReply::Needs(needs),
            ) => TextureStage::Allocating {
                plan: ImportPlan {
                    size: needs.size,
                    memory_type_index: memory_type(needs.type_bits, types),
                    handle_type: HANDLE_D3D11_TEXTURE_KMT,
                    handle: shared.handle,
                    dedicated: if needs.prefers_dedicated || needs.requires_dedicated {
                        Some(image)
                    } else {
                        None
                    },
                },
                format,
                image,
            },
            (
                TextureStage::Allocating { plan, format, image },
                TextureReply::Made(Some(memory)),
            ) => TextureStage::Binding { format, image, memory },
            (TextureStage::Binding { format, image, memory }, TextureReply::Done(true)) => {
                TextureStage::CreatingView { format, image, memory }
            },
            (
                TextureStage::CreatingView { format, image, memory },
                TextureReply::Made(Some(view)),
            ) => TextureStage::Writing { texture: Texture { memory, image, view } },
            (TextureStage::Writing { .. }, _) => TextureStage::Updated,
            _ => TextureStage::Failed(TextureError::Device),
        }
    }

    /// What to ask of the device now.
    pub fn action(&self) -> (r: TextureAction)
        ensures
            r == self.asks(),
    {
        match self.stage {
            TextureStage::Waiting { .. } => TextureAction::WaitIdle,
            TextureStage::Releasing { old } => TextureAction::Release(old),
            TextureStage::Describing => TextureAction::Describe,
            TextureStage::CreatingImage { shared, format } => TextureAction::CreateImage(
                texture_image(format, shared.width, shared.height),
            ),
            TextureStage::QueryingNeeds { image, .. } => TextureAction::QueryNeeds { image },
            TextureStage::Allocating { plan, .. } => TextureAction::Allocate(plan),
            TextureStage::Binding { image, memory, .. } => TextureAction::Bind {
                image,
                memory,
                offset: 0,
            },
            TextureStage::CreatingView { image, format, .. } => TextureAction::CreateView(
                texture_view(image, format),
            ),
            TextureStage::Writing { texture } => TextureAction::WriteDescriptor(
                texture_descriptor(self.set, texture.view),
            ),
            TextureStage::Updated => TextureAction::Finish(Ok(())),
            TextureStage::Failed(err) => TextureAction::Finish(Err(err)),
        }
    }
}

/// The texture that the renderer holds after the reply to `update`: the new one once the
/// descriptor set shows it.
pub open spec fn texture_after(held: Option<Texture>, update: TextureUpdate) -> Option<Texture> {
    match update.stage {
        TextureStage::Writing { texture } => Some(texture),
        _ => held,
    }
}

impl VulkanRenderer {
    /// Begins to update the overlay texture, with a shared Direct3D texture if `replaced`. The
    /// renderer holds no texture until the update is through.
    pub fn update_texture(&mut self, replaced: bool) -> (r: TextureUpdate)
        ensures
            final(self)@ == (RendererView { texture: None, ..old(self)@ }),
            r == begun(old(self).texture_descriptor_set, old(self).texture, replaced),
    {
        let stage = match self.texture.take() {
            Some(old) => TextureStage::Waiting { old },
            None => if replaced {
                TextureStage::Describing
            } else {
                TextureStage::Updated
            },
        };
        TextureUpdate { set: self.texture_descriptor_set, replaced, stage }
    }

    /// Tells an update of the texture what came back from the device.
    pub fn advance_texture(
        &mut self,
        update: &mut TextureUpdate,
        reply: TextureReply,
        types: &[u32],
    )
        requires
            old(update).awaits(reply),
            types@.len() <= u32::MAX,
        ensures
            *final(update) == (TextureUpdate {
                stage: old(update).next(reply, types@),
                ..*old(update)
            }),
            final(self)@ == (RendererView {
                texture: texture_after(old(self).texture, *old(update)),
                ..old(self)@
            }),
    {
        let failed = TextureStage::Failed(TextureError::Device);
        update.stage =
        match (update.stage, reply) {
            (TextureStage::Waiting { old }, TextureReply::Done(idle)) => if idle {
                TextureStage::Releasing { old }
            } else {
                failed
            },
            (TextureStage::Releasing { .. }, _) => if update.replaced {
                TextureStage::Describing
            } else {
                TextureStage::Updated
            },
            (TextureStage::Describing, TextureReply::Shared(shared)) => {
                match map_dxgi_format_to_vk(shared.format) {
                    Some(format) => TextureStage::CreatingImage { shared, format },
                    None => TextureStage::Failed(TextureError::UnsupportedFormat),
                }
            },
            (TextureStage::CreatingImage { shared, format }, TextureReply::Made(made)) => {
                match made {
                    Some(image) => TextureStage::QueryingNeeds { shared, format, image },
                    None => failed,
                }
            },
            (
                TextureStage::QueryingNeeds { shared, format, image },
                TextureReply::Needs(needs),
            ) => {
                let dedicated = if needs.prefers_dedicated || needs.requires_dedicated {
                    Some(image)
                } else {
                    None
                };
                let plan = ImportPlan {
                    size: needs.size,
                    memory_type_index: memory_type_index(needs.type_bits, types),
                    handle_type: HANDLE_D3D11_TEXTURE_KMT,
                    handle: shared.handle,
                    dedicated,
                };
                TextureStage::Allocating { plan, format, image }
            },
            (TextureStage::Allocating { format, image, .. }, TextureReply::Made(made)) => {
                match made {
                    Some(memory) => TextureStage::Binding { format, image, memory },
                    None => failed,
                }
            },
            (TextureStage::Binding { format, image, memory }, TextureReply::Done(bound)) => {
                if bound {
                    TextureStage::CreatingView { format, image, memory }
                } else {
                    failed
                }
            },
            (TextureStage::CreatingView { format, image, memory }, TextureReply::Made(made)) => {
                match made {
                    Some(view) => {
                        TextureStage::Writing { texture: Texture { memory, image, view } }
                    },
                    None => failed,
                }
            },
            (TextureStage::Writing { texture }, _) => {
                self.texture = Some(texture);
                TextureStage::Updated
            },
            _ => failed,
        };
    }
}

/// An update that has asked for nothing yet, of a renderer that held `old`.
pub open spec fn begun(set: u64, old: Option<Texture>, replaced: bool) -> TextureUpdate {
    TextureUpdate {
        set,
        replaced,
        stage: match old {
            Some(old) => TextureStage::Waiting { old },
            None => TextureUpdate::released(replaced),
        },
    }
}

/// The update and the texture that the renderer holds after `replies`.
pub open spec fn texture_run(
    start: TextureUpdate,
    replies: Seq<TextureReply>,
    types: Seq<u32>,
) -> (TextureUpdate, Option<Texture>)
    decreases replies.len(),
{
    if replies.len() == 0 {
        (start, None)
    } else {
        let (update, held) = texture_run(start, replies.drop_last(), types);
        (
            TextureUpdate { stage: update.next(replies.last(), types), ..update },
            texture_after(held, update),
        )
    }
}

/// Whether each of `replies` answers what the update asked.
pub open spec fn texture_awaits(
    start: TextureUpdate,
    replies: Seq<TextureReply>,
    types: Seq<u32>,
) -> bool
    decreases replies.len(),
{
    replies.len() == 0 || (texture_awaits(start, replies.drop_last(), types) && texture_run(
        start,
        replies.drop_last(),
        types,
    ).0.awaits(replies.last()))
}

/// An update that succeeds leaves the renderer with a texture exactly where there is a new one;
/// until then, and where the update fails, the renderer holds none.
pub proof fn law_texture_held(
    set: u64,
    old: Option<Texture>,
    replaced: bool,
    replies: Seq<TextureReply>,
    types: Seq<u32>,
)
    requires
        texture_awaits(begun(set, old, replaced), replies, types),
    ensures
        ({
            let (update, held) = texture_run(begun(set, old, replaced), replies, types);
            &&& update.replaced == replaced
            &&& update.asks() == TextureAction::Finish(Ok(())) ==> (held is Some <==> replaced)
            &&& update.asks() != TextureAction::Finish(Ok(())) ==> held is None
        }),
    decreases replies.len(),
{
    if replies.len() > 0 {
        law_texture_held(set, old, replaced, replies.drop_last(), types);
        lemma_new_texture_only_if_replaced(set, old, replaced, replies.drop_last(), types);
    }
}

/// Without a new texture an update only releases the old one.
proof fn lemma_new_texture_only_if_replaced(
    set: u64,
    old: Option<Texture>,
    replaced: bool,
    replies: Seq<TextureReply>,
    types: Seq<u32>,
)
    requires
        texture_awaits(begun(set, old, replaced), replies, types),
    ensures
        ({
            let update = texture_run(begun(set, old, replaced), replies, types).0;
            &&& update.replaced == replaced
            &&& !replaced ==> update.stage is Waiting || update.stage is Releasing
                || update.stage is Updated || update.stage is Failed
        }),
    decreases replies.len(),
{
    if replies.len() > 0 {
        lemma_new_texture_only_if_replaced(set, old, replaced, replies.drop_last(), types);
    }
}

/// A texture that the renderer held is released before anything else is done, and only after
/// the device was found idle.
pub proof fn law_old_texture_released(
    set: u64,
    old: Texture,
    replaced: bool,
    replies: Seq<TextureReply>,
    types: Seq<u32>,
)
    requires
        texture_awaits(begun(set, Some(old), replaced), replies, types),
    ensures
        ({
            let asks = texture_run(begun(set, Some(old), replaced), replies, types).0.asks();
            &&& replies.len() == 0 ==> asks == TextureAction::WaitIdle
            &&& replies.len() == 1 ==> asks == if replies[0] == TextureReply::Done(true) {
                TextureAction::Release(old)
            } else {
                TextureAction::Finish(Err(TextureError::Device))
            }
            &&& replies.len() >= 2 ==> replies[0] == TextureReply::Done(true)
            &&& replies.len() >= 2 ==> !(asks is Release) && !(asks is WaitIdle)
        }),
    decreases replies.len(),
{
    if replies.len() > 0 {
        law_old_texture_released(set, old, replaced, replies.drop_last(), types);
        if replies.len() == 1 {
            assert(texture_run(begun(set, Some(old), replaced), replies.drop_last(), types).0
                == begun(set, Some(old), replaced));
        }
    }
}

/// Each DXGI format that an overlay texture can have is the vulkan format with the same channels,
/// the same bits and the same encoding; no other has one.
pub proof fn law_formats(format: i32)
    ensures
        vk_format(10) == Some(97i32),
        vk_format(11) == Some(91i32),
        vk_format(28) == Some(37i32),
        vk_format(29) == Some(43i32),
        vk_format(87) == Some(44i32),
        vk_format(format) is Some <==> format == 10 || format == 11 || format == 28 || format == 29
            || format == 87,
{
}

/// A memory type that is chosen can hold the image and is device local, if there is one that does
/// and is, and none before it does and is. Bit `i` of the bits stands for type `i`.
pub proof fn law_memory_type(bits: u32, types: Seq<u32>, i: u32)
    requires
        i < 32,
        i < types.len(),
        bits & (1u32 << i) != 0,
        types[i as int] & 1 != 0,
    ensures
        ({
            let chosen = memory_type(bits, types);
            &&& chosen <= i
            &&& bits & (1u32 << chosen) != 0
            &&& types[chosen as int] & 1 != 0
        }),
{
    let flags = types[i as int];
    assert((bits >> i) & 1 == 1) by (bit_vector)
        requires
            i < 32,
            bits & (1u32 << i) != 0,
    ;
    assert(flags & 1 == 1) by (bit_vector)
        requires
            flags & 1 != 0,
    ;
    assert(suits(bits, types, i as int));
    lemma_least_suits(bits, types, i as nat);
    let chosen = memory_type(bits, types);
    assert(is_memory_type(bits, types, chosen));
    assert(chosen <= i) by {
        if i < chosen {
            assert(!suits(bits, types, i as int));
        }
    }
    assert(bits & (1u32 << chosen) != 0) by (bit_vector)
        requires
            chosen < 32,
            (bits >> chosen) & 1 == 1,
    ;
    let kept = types[chosen as int];
    assert(kept & 1 != 0) by (bit_vector)
        requires
            kept & 1 == 1,
    ;
}

/// Where a memory type suits there is a first one.
proof fn lemma_least_suits(bits: u32, types: Seq<u32>, i: nat)
    requires
        suits(bits, types, i as int),
    ensures
        exists|index: u32| is_memory_type(bits, types, index),
    decreases i,
{
    if exists|j: nat| j < i && suits(bits, types, j as int) {
        let j = choose|j: nat| j < i && suits(bits, types, j as int);
        lemma_least_suits(bits, types, j);
    } else {
        assert forall|j: int| 0 <= j < i implies !suits(bits, types, j) by {
            assert((j as nat) as int == j);
        }
        assert(is_memory_type(bits, types, i as u32));
    }
}

/// A texture that is shared is imported as what it is: the image has its extent and the vulkan
/// format of its format, the memory is imported under its handle with the size that the image
/// needs, is for the image alone exactly where the device wants that, and is bound to it; the view
/// is of that image, and the descriptor set shows that view. The renderer then holds just these
/// objects.
pub proof fn law_texture_imported(
    update: TextureUpdate,
    shared: SharedTexture,
    image: u64,
    needs: MemoryNeeds,
    memory: u64,
    view: u64,
    types: Seq<u32>,
    held: Option<Texture>,
)
    requires
        update.asks() is Describe,
        vk_format(shared.format) is Some,
    ensures
        ({
            let format = vk_format(shared.format)->0;
            let described = TextureUpdate {
                stage: update.next(TextureReply::Shared(shared), types),
                ..update
            };
            let made = TextureUpdate {
                stage: described.next(TextureReply::Made(Some(image)), types),
                ..described
            };
            let measured = TextureUpdate {
                stage: made.next(TextureReply::Needs(needs), types),
                ..made
            };
            let allocated = TextureUpdate {
                stage: measured.next(TextureReply::Made(Some(memory)), types),
                ..measured
            };
            let bound = TextureUpdate {
                stage: allocated.next(TextureReply::Done(true), types),
                ..allocated
            };
            let viewed = TextureUpdate {
                stage: bound.next(TextureReply::Made(Some(view)), types),
                ..bound
            };
            let written = TextureUpdate {
                stage: viewed.next(TextureReply::Done(true), types),
                ..viewed
            };
            &&& described.asks() matches TextureAction::CreateImage(plan) && plan.width
                == shared.width && plan.height == shared.height && plan.depth == 1 && plan.format
                == format && plan.image_type == 1 && plan.mip_levels == 1 && plan.array_layers == 1
                && plan.samples == 1 && plan.tiling == 0 && plan.usage == 4 && plan.sharing_mode
                == 0 && plan.initial_layout == 0 && plan.handle_types == 16
            &&& made.asks() == (TextureAction::QueryNeeds { image })
            &&& measured.asks() matches TextureAction::Allocate(plan) && plan.size == needs.size
                && plan.handle == shared.handle && plan.handle_type == 16 && plan.memory_type_index
                == memory_type(needs.type_bits, types) && (plan.dedicated == Some(image)
                <==> needs.prefers_dedicated || needs.requires_dedicated) && (plan.dedicated is None
                <==> !needs.prefers_dedicated && !needs.requires_dedicated)
            &&& allocated.asks() == (TextureAction::Bind { image, memory, offset: 0 })
            &&& bound.asks() matches TextureAction::CreateView(plan) && plan.image == image
                && plan.format == format && plan.view_type == 1 && plan.aspect_mask == 1
                && plan.base_mip_level == 0 && plan.level_count == 1 && plan.base_array_layer == 0
                && plan.layer_count == 1
            &&& viewed.asks() matches TextureAction::WriteDescriptor(plan) && plan.set == update.set
                && plan.view == view && plan.binding == 0 && plan.descriptor_count == 1
                && plan.descriptor_type == 1 && plan.image_layout == 5
            &&& written.asks() == TextureAction::Finish(Ok(()))
            &&& texture_after(held, viewed) == Some(Texture { memory, image, view })
        }),
{
}

/// A call that fails ends an update, and a format that has no vulkan format ends it before
/// anything is made.
pub proof fn law_texture_failed(update: TextureUpdate, reply: TextureReply, types: Seq<u32>)
    requires
        update.awaits(reply),
    ensures
        ({
            let then = (TextureUpdate { stage: update.next(reply, types), ..update }).asks();
            let device = TextureAction::Finish(Err(TextureError::Device));
            &&& then == device <==> reply == TextureReply::Made(None) || (reply
                == TextureReply::Done(false) && (update.asks() is WaitIdle || update.asks() is Bind))
            &&& then == TextureAction::Finish(Err(TextureError::UnsupportedFormat)) <==> (reply
                matches TextureReply::Shared(shared) && vk_format(shared.format) is None)
            &&& update.asks() is Release ==> then == (if update.replaced {
                TextureAction::Describe
            } else {
                TextureAction::Finish(Ok(()))
            })
        }),
{
}

/// An update begins with the texture that was held, and without one with the new one, if any.
pub proof fn law_texture_begun(set: u64, old: Option<Texture>, replaced: bool)
    ensures
        begun(set, old, replaced).set == set,
        begun(set, old, replaced).replaced == replaced,
        old is Some ==> begun(set, old, replaced).asks() is WaitIdle,
        old is None && replaced ==> begun(set, old, replaced).asks() is Describe,
        old is None && !replaced ==> begun(set, old, replaced).asks() == TextureAction::Finish(
            Ok(()),
        ),
{
}

} // verus!
