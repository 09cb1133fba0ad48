use ash::vk;
use asdf_overlay::backend::Backends;
use asdf_overlay::event::GpuLuid;
use asdf_overlay::render::{DxInterop, OverlaySurface, Renderer};
use asdf_overlay::vulkan::draw::{
    record, render_area, wait_dst_stage_mask, Area, Command, DrawAction,
};
use asdf_overlay::vulkan::present::{PresentEvent, PresentStage, Presenting};
use asdf_overlay::vulkan::queue::{
    draw_overlay, present, DrawEvent, OverlayStep, PresentEnd, PresentStart,
};
use asdf_overlay::vulkan::setup::{
    create_descriptor_pool, create_pipeline, create_pipeline_layout, create_render_pass,
    create_sampler, create_texture_layout, SetupAction, SetupError, SetupReply,
};
use asdf_overlay::vulkan::swapchain::{CreateStep, Swapchains};
use asdf_overlay::vulkan::texture::{
    map_dxgi_format_to_vk, memory_type_index, texture_descriptor, texture_image, texture_view,
    ImportPlan, MemoryNeeds, SharedTexture,
    TextureAction, TextureError, TextureReply, MEMORY_DEVICE_LOCAL,
};
use asdf_overlay::vulkan::{Destroy, FrameData, Texture, VulkanRenderer};

fn frame(n: u64) -> FrameData {
    FrameData {
        view: n,
        framebuffer: n + 1,
        command_pool: n + 2,
        command_buffer: n + 3,
        fence: n + 4,
        submit_semaphore: n + 5,
    }
}

fn renderer(texture: Option<Texture>) -> VulkanRenderer {
    VulkanRenderer {
        descriptor_pool: 1,
        sampler: 2,
        texture_layout: 3,
        texture_descriptor_set: 4,
        texture,
        pipeline_layout: 5,
        render_pass: 6,
        pipeline: 7,
        frame_datas: vec![frame(100), frame(200)],
    }
}

const TEXTURE: Texture = Texture { memory: 31, image: 32, view: 33 };

#[test]
fn formats_are_those_of_vulkan() {
    let pairs = [
        (28, vk::Format::R8G8B8A8_UNORM),
        (29, vk::Format::R8G8B8A8_SRGB),
        (87, vk::Format::B8G8R8A8_UNORM),
        (11, vk::Format::R16G16B16A16_UNORM),
        (10, vk::Format::R16G16B16A16_SFLOAT),
    ];
    for (dxgi, format) in pairs {
        assert_eq!(map_dxgi_format_to_vk(dxgi), Some(format.as_raw()));
    }
    assert_eq!(map_dxgi_format_to_vk(0), None);
    assert_eq!(map_dxgi_format_to_vk(88), None);
    assert_eq!(MEMORY_DEVICE_LOCAL, vk::MemoryPropertyFlags::DEVICE_LOCAL.as_raw());
}

#[test]
fn plans_are_in_the_terms_of_vulkan() {
    let pool = create_descriptor_pool();
    assert_eq!((pool.max_sets, pool.descriptor_count), (1, 1));
    assert_eq!(pool.descriptor_type, vk::DescriptorType::COMBINED_IMAGE_SAMPLER.as_raw());
    let sampler = create_sampler();
    assert_eq!(sampler.mag_filter, vk::Filter::NEAREST.as_raw());
    assert_eq!(sampler.min_filter, vk::Filter::NEAREST.as_raw());
    let clamp = vk::SamplerAddressMode::CLAMP_TO_EDGE.as_raw();
    assert_eq!(
        (sampler.address_mode_u, sampler.address_mode_v, sampler.address_mode_w),
        (clamp, clamp, clamp)
    );
    let layout = create_texture_layout(9);
    assert_eq!((layout.binding, layout.descriptor_count, layout.sampler), (0, 1, 9));
    assert_eq!(layout.descriptor_type, vk::DescriptorType::COMBINED_IMAGE_SAMPLER.as_raw());
    assert_eq!(layout.stage_flags, vk::ShaderStageFlags::FRAGMENT.as_raw());
    let layout = create_pipeline_layout(8);
    assert_eq!((layout.set_layout, layout.push_offset, layout.push_size), (8, 0, 16));
    assert_eq!(layout.push_stage_flags, vk::ShaderStageFlags::VERTEX.as_raw());
    let pass = create_render_pass(44);
    assert_eq!((pass.format, pass.attachment), (44, 0));
    assert_eq!(pass.samples, vk::SampleCountFlags::TYPE_1.as_raw());
    assert_eq!(pass.load_op, vk::AttachmentLoadOp::DONT_CARE.as_raw());
    assert_eq!(pass.store_op, vk::AttachmentStoreOp::STORE.as_raw());
    assert_eq!(pass.stencil_load_op, vk::AttachmentLoadOp::DONT_CARE.as_raw());
    assert_eq!(pass.stencil_store_op, vk::AttachmentStoreOp::DONT_CARE.as_raw());
    assert_eq!(pass.initial_layout, vk::ImageLayout::UNDEFINED.as_raw());
    assert_eq!(pass.final_layout, vk::ImageLayout::PRESENT_SRC_KHR.as_raw());
    assert_eq!(pass.attachment_layout, vk::ImageLayout::COLOR_ATTACHMENT_OPTIMAL.as_raw());
    assert_eq!(pass.bind_point, vk::PipelineBindPoint::GRAPHICS.as_raw());
    let pipeline = create_pipeline(1, 2, (640, 480), 3, 4);
    assert_eq!((pipeline.vertex_shader, pipeline.fragment_shader), (1, 2));
    assert_eq!((pipeline.layout, pipeline.render_pass, pipeline.extent), (3, 4, (640, 480)));
    assert_eq!(pipeline.topology, vk::PrimitiveTopology::TRIANGLE_STRIP.as_raw());
    assert_eq!(pipeline.samples, vk::SampleCountFlags::TYPE_1.as_raw());
    assert_eq!(pipeline.min_depth, 0.0f32.to_bits());
    assert_eq!((pipeline.max_depth, pipeline.line_width), (1.0f32.to_bits(), 1.0f32.to_bits()));
    assert!(pipeline.blend_enable);
    assert_eq!(pipeline.src_color_blend_factor, vk::BlendFactor::SRC_ALPHA.as_raw());
    assert_eq!(pipeline.dst_color_blend_factor, vk::BlendFactor::ONE_MINUS_SRC_ALPHA.as_raw());
    assert_eq!(pipeline.color_blend_op, vk::BlendOp::ADD.as_raw());
    assert_eq!(pipeline.src_alpha_blend_factor, vk::BlendFactor::ONE.as_raw());
    assert_eq!(pipeline.dst_alpha_blend_factor, vk::BlendFactor::ZERO.as_raw());
    assert_eq!(pipeline.color_write_mask, vk::ColorComponentFlags::RGBA.as_raw());
}

#[test]
fn texture_plans_are_in_the_terms_of_vulkan() {
    let image = texture_image(44, 300, 200);
    assert_eq!(image.image_type, vk::ImageType::TYPE_2D.as_raw());
    assert_eq!((image.format, image.width, image.height, image.depth), (44, 300, 200, 1));
    assert_eq!((image.mip_levels, image.array_layers), (1, 1));
    assert_eq!(image.samples, vk::SampleCountFlags::TYPE_1.as_raw());
    assert_eq!(image.tiling, vk::ImageTiling::OPTIMAL.as_raw());
    assert_eq!(image.usage, vk::ImageUsageFlags::SAMPLED.as_raw());
    assert_eq!(image.sharing_mode, vk::SharingMode::EXCLUSIVE.as_raw());
    assert_eq!(image.initial_layout, vk::ImageLayout::UNDEFINED.as_raw());
    let kmt = vk::ExternalMemoryHandleTypeFlags::D3D11_TEXTURE_KMT.as_raw();
    assert_eq!(image.handle_types, kmt);
    let view = texture_view(51, 44);
    assert_eq!((view.image, view.format), (51, 44));
    assert_eq!(view.view_type, vk::ImageViewType::TYPE_2D.as_raw());
    assert_eq!(view.aspect_mask, vk::ImageAspectFlags::COLOR.as_raw());
    assert_eq!((view.base_mip_level, view.level_count), (0, 1));
    assert_eq!((view.base_array_layer, view.layer_count), (0, 1));
    let write = texture_descriptor(4, 53);
    assert_eq!((write.set, write.view, write.binding, write.descriptor_count), (4, 53, 0, 1));
    assert_eq!(write.descriptor_type, vk::DescriptorType::COMBINED_IMAGE_SAMPLER.as_raw());
    assert_eq!(write.image_layout, vk::ImageLayout::SHADER_READ_ONLY_OPTIMAL.as_raw());
}

#[test]
fn first_device_local_memory_type_is_chosen() {
    assert_eq!(memory_type_index(0b1110, &[1, 6, 1, 1]), 2);
    assert_eq!(memory_type_index(0b0001, &[7, 1]), 0);
    // none suits
    assert_eq!(memory_type_index(0b0010, &[1, 6]), 0);
    assert_eq!(memory_type_index(0, &[1; 32]), 0);
    assert_eq!(memory_type_index(1 << 31, &[1; 32]), 31);
    // beyond the bits
    assert_eq!(memory_type_index(u32::MAX, &[[0; 32].as_slice(), &[1]].concat()), 0);
}

#[test]
fn texture_is_imported() {
    let mut renderer = renderer(Some(TEXTURE));
    let types = [0, MEMORY_DEVICE_LOCAL];
    let mut update = renderer.update_texture(true);
    assert_eq!(renderer.texture, None);
    assert_eq!(update.action(), TextureAction::WaitIdle);
    renderer.advance_texture(&mut update, TextureReply::Done(true), &types);
    assert_eq!(update.action(), TextureAction::Release(TEXTURE));
    renderer.advance_texture(&mut update, TextureReply::Done(true), &types);
    assert_eq!(update.action(), TextureAction::Describe);
    let shared = SharedTexture { width: 300, height: 200, format: 87, handle: 99 };
    renderer.advance_texture(&mut update, TextureReply::Shared(shared), &types);
    assert_eq!(update.action(), TextureAction::CreateImage(texture_image(44, 300, 200)));
    renderer.advance_texture(&mut update, TextureReply::Made(Some(51)), &types);
    assert_eq!(update.action(), TextureAction::QueryNeeds { image: 51 });
    let needs = MemoryNeeds {
        size: 4096,
        type_bits: 0b11,
        prefers_dedicated: true,
        requires_dedicated: false,
    };
    renderer.advance_texture(&mut update, TextureReply::Needs(needs), &types);
    let plan = ImportPlan {
        size: 4096,
        memory_type_index: 1,
        handle_type: 16,
        handle: 99,
        dedicated: Some(51),
    };
    assert_eq!(update.action(), TextureAction::Allocate(plan));
    renderer.advance_texture(&mut update, TextureReply::Made(Some(52)), &types);
    assert_eq!(update.action(), TextureAction::Bind { image: 51, memory: 52, offset: 0 });
    renderer.advance_texture(&mut update, TextureReply::Done(true), &types);
    assert_eq!(update.action(), TextureAction::CreateView(texture_view(51, 44)));
    renderer.advance_texture(&mut update, TextureReply::Made(Some(53)), &types);
    assert_eq!(update.action(), TextureAction::WriteDescriptor(texture_descriptor(4, 53)));
    assert_eq!(renderer.texture, None);
    renderer.advance_texture(&mut update, TextureReply::Done(true), &types);
    assert_eq!(update.action(), TextureAction::Finish(Ok(())));
    assert_eq!(renderer.texture, Some(Texture { memory: 52, image: 51, view: 53 }));
}

#[test]
fn texture_update_can_fail_or_have_nothing_to_do() {
    let mut bare = renderer(None);
    assert_eq!(bare.update_texture(false).action(), TextureAction::Finish(Ok(())));

    let mut update = bare.update_texture(true);
    let shared = SharedTexture { width: 1, height: 1, format: 2, handle: 3 };
    bare.advance_texture(&mut update, TextureReply::Shared(shared), &[]);
    let unsupported = TextureError::UnsupportedFormat;
    assert_eq!(update.action(), TextureAction::Finish(Err(unsupported)));
    assert_eq!(unsupported.message(), Some("unsupported DXGI format for overlay texture"));

    let mut held = renderer(Some(TEXTURE));
    let mut update = held.update_texture(false);
    held.advance_texture(&mut update, TextureReply::Done(false), &[]);
    assert_eq!(update.action(), TextureAction::Finish(Err(TextureError::Device)));
    assert_eq!(TextureError::Device.message(), None);
    assert_eq!(held.texture, None);

    let mut held = renderer(Some(TEXTURE));
    let mut update = held.update_texture(false);
    held.advance_texture(&mut update, TextureReply::Done(true), &[]);
    held.advance_texture(&mut update, TextureReply::Done(true), &[]);
    assert_eq!(update.action(), TextureAction::Finish(Ok(())));

    let mut update = bare.update_texture(true);
    let shared = SharedTexture { width: 1, height: 1, format: 28, handle: 3 };
    bare.advance_texture(&mut update, TextureReply::Shared(shared), &[]);
    bare.advance_texture(&mut update, TextureReply::Made(Some(6)), &[]);
    let needs = MemoryNeeds {
        size: 1,
        type_bits: 1,
        prefers_dedicated: false,
        requires_dedicated: false,
    };
    bare.advance_texture(&mut update, TextureReply::Needs(needs), &[]);
    let plan = ImportPlan {
        size: 1,
        memory_type_index: 0,
        handle_type: 16,
        handle: 3,
        dedicated: None,
    };
    assert_eq!(update.action(), TextureAction::Allocate(plan));
    bare.advance_texture(&mut update, TextureReply::Made(None), &[]);
    assert_eq!(update.action(), TextureAction::Finish(Err(TextureError::Device)));
}

#[test]
fn frame_is_drawn() {
    let renderer = renderer(Some(TEXTURE));
    let begin = || renderer.draw(vec![61, 62], 1, (-10, 20), (100, 50), (60, 40)).unwrap();
    let mut draw = begin();
    let used = frame(200);
    assert_eq!(draw.action(), DrawAction::WaitFence { fence: used.fence, wait_all: true, timeout_ns: u64::MAX });
    draw.advance(true);
    assert_eq!(draw.action(), DrawAction::ResetPool { command_pool: used.command_pool, flags: 0 });
    draw.advance(true);
    assert_eq!(draw.action(), DrawAction::ResetFence { fence: used.fence });
    draw.advance(true);
    assert_eq!(draw.action(), DrawAction::Begin {
            command_buffer: used.command_buffer,
            flags: vk::CommandBufferUsageFlags::ONE_TIME_SUBMIT.as_raw(),
        });
    draw.advance(true);
    let DrawAction::Record(recording) = draw.action() else {
        panic!("{draw:?}");
    };
    assert_eq!(recording.area, Area { x: 0, y: 20, width: 60, height: 20 });
    assert_eq!((recording.render_pass, recording.framebuffer), (6, used.framebuffer));
    assert_eq!((recording.pipeline, recording.pipeline_layout), (7, 5));
    assert_eq!(recording.descriptor_set, 4);
    let graphics = vk::PipelineBindPoint::GRAPHICS.as_raw();
    let commands = vec![
        Command::BeginRenderPass {
            render_pass: 6,
            framebuffer: used.framebuffer,
            area: recording.area,
            contents: vk::SubpassContents::INLINE.as_raw(),
        },
        Command::BindDescriptorSet { bind_point: graphics, layout: 5, first_set: 0, set: 4 },
        Command::BindPipeline { bind_point: graphics, pipeline: 7 },
        Command::PushPlace {
            layout: 5,
            stage_flags: vk::ShaderStageFlags::VERTEX.as_raw(),
            offset: 0,
            position: (-10, 20),
            size: (100, 50),
            screen: (60, 40),
        },
        Command::Draw { vertices: 4, instances: 1, first_vertex: 0, first_instance: 0 },
        Command::EndRenderPass,
    ];
    assert_eq!(record(&recording), commands);
    draw.advance(true);
    assert_eq!(draw.action(), DrawAction::End { command_buffer: used.command_buffer });
    draw.advance(true);
    let submit = DrawAction::Submit {
        command_buffer: used.command_buffer,
        wait_semaphores: &vec![61, 62],
        wait_dst_stage_mask: &vec![1, 1],
        semaphore: used.submit_semaphore,
        fence: used.fence,
    };
    assert_eq!(draw.action(), submit);
    let mut failed = begin();
    for _ in 0..6 {
        failed.advance(true);
    }
    assert_eq!(failed.action(), submit);
    failed.advance(false);
    assert_eq!(failed.action(), DrawAction::Finish(Err(())));
    draw.advance(true);
    assert_eq!(draw.action(), DrawAction::Finish(Ok(used.submit_semaphore)));
}

#[test]
fn nothing_is_drawn_without_a_texture() {
    assert!(renderer(None).draw(vec![], 99, (500, 500), (1, 1), (1, 1)).is_none());
}

#[test]
fn drawing_stays_on_the_screen() {
    assert_eq!(
        render_area((10, 10), (5, 5), (100, 100)),
        Area { x: 10, y: 10, width: 5, height: 5 }
    );
    assert_eq!(
        render_area((95, i32::MIN), (10, 500), (100, 100)),
        Area { x: 95, y: 0, width: 5, height: 100 }
    );
    assert_eq!(
        render_area((100, 100), (10, 10), (100, 100)),
        Area { x: 100, y: 100, width: 0, height: 0 }
    );
    let masks = wait_dst_stage_mask(&[4, 5, 6]);
    assert_eq!(masks, vec![vk::PipelineStageFlags::TOP_OF_PIPE.as_raw(); 3]);
    assert!(wait_dst_stage_mask(&[]).is_empty());
}

#[test]
fn renderer_is_set_up() {
    let mut setup = VulkanRenderer::new(3, (640, 480), 44, vec![71, 72]);
    let mut asked = Vec::new();
    let mut next = 1000;
    loop {
        let action = setup.action();
        asked.push(action);
        match action {
            SetupAction::Finish(result) => {
                assert_eq!(result, Ok(()));
                break;
            }
            SetupAction::DestroyShader(_) => setup.advance(SetupReply::Destroyed),
            SetupAction::CreateFrame(plan) => {
                assert_eq!((plan.queue_family_index, plan.format), (3, 44));
                assert_eq!((plan.render_pass, plan.extent), (1005, (640, 480)));
                setup.advance(SetupReply::Frame(Some(frame(plan.image * 10))));
            }
            _ => {
                setup.advance(SetupReply::Made(Some(next)));
                next += 1;
            }
        }
    }
    assert_eq!(asked[0], SetupAction::CreateDescriptorPool(create_descriptor_pool()));
    assert_eq!(asked[1], SetupAction::CreateSampler(create_sampler()));
    assert_eq!(asked[2], SetupAction::CreateTextureLayout(create_texture_layout(1001)));
    assert_eq!(asked[3], SetupAction::AllocateDescriptorSet { pool: 1000, layout: 1002 });
    assert_eq!(asked[4], SetupAction::CreatePipelineLayout(create_pipeline_layout(1002)));
    assert_eq!(asked[5], SetupAction::CreateRenderPass(create_render_pass(44)));
    assert_eq!(asked[6], SetupAction::CreateVertexShader);
    assert_eq!(asked[7], SetupAction::CreateFragmentShader);
    let plan = create_pipeline(1006, 1007, (640, 480), 1004, 1005);
    assert_eq!(asked[8], SetupAction::CreatePipeline(plan));
    assert_eq!(asked[9], SetupAction::DestroyShader(1007));
    assert_eq!(asked[10], SetupAction::DestroyShader(1006));
    assert_eq!(asked.len(), 14);
    let made = setup.finish();
    assert_eq!((made.descriptor_pool, made.sampler, made.texture_layout), (1000, 1001, 1002));
    assert_eq!((made.texture_descriptor_set, made.pipeline_layout), (1003, 1004));
    assert_eq!((made.render_pass, made.pipeline, made.texture), (1005, 1008, None));
    assert_eq!(made.frame_datas, vec![frame(710), frame(720)]);
}

#[test]
fn failed_setup_gives_its_shaders_back() {
    let errors = [
        (SetupError::DescriptorPool, "failed to create DescriptorPool", vec![]),
        (SetupError::Sampler, "failed to create Sampler", vec![]),
        (SetupError::TextureLayout, "failed to create texture DescriptorSetLayout", vec![]),
        (SetupError::DescriptorSet, "failed to create DescriptorSet", vec![]),
        (SetupError::PipelineLayout, "failed to create PipelineLayout", vec![]),
        (SetupError::RenderPass, "failed to create RenderPass", vec![]),
        (SetupError::VertexShader, "failed to create vertex shader module", vec![]),
        (SetupError::FragmentShader, "failed to create fragment shader module", vec![6]),
        (SetupError::Pipeline, "failed to create Pipeline", vec![7, 6]),
        (SetupError::Frame, "failed to create SwapchainImageData", vec![7, 6]),
    ];
    for (step, (error, text, shaders)) in errors.into_iter().enumerate() {
        let mut setup = VulkanRenderer::new(0, (1, 1), 37, vec![1]);
        let mut made = 0;
        let mut destroyed = Vec::new();
        let result = loop {
            match setup.action() {
                SetupAction::Finish(result) => break result,
                SetupAction::DestroyShader(shader) => {
                    destroyed.push(shader);
                    setup.advance(SetupReply::Destroyed);
                }
                SetupAction::CreateFrame(_) => setup.advance(SetupReply::Frame(None)),
                _ if made == step => setup.advance(SetupReply::Made(None)),
                _ => {
                    setup.advance(SetupReply::Made(Some(made as u64)));
                    made += 1;
                }
            }
        };
        assert_eq!(result, Err(error));
        assert_eq!(error.message(), text);
        assert_eq!(destroyed, shaders);
    }
}

#[test]
fn renderer_gives_everything_back() {
    let parts = |f: FrameData| {
        vec![
            Destroy::Semaphore(f.submit_semaphore),
            Destroy::Fence(f.fence),
            Destroy::CommandBuffer { pool: f.command_pool, buffer: f.command_buffer },
            Destroy::CommandPool(f.command_pool),
            Destroy::Framebuffer(f.framebuffer),
            Destroy::ImageView(f.view),
        ]
    };
    let tail = [
        Destroy::Pipeline(7),
        Destroy::RenderPass(6),
        Destroy::PipelineLayout(5),
        Destroy::DescriptorSetLayout(3),
        Destroy::Sampler(2),
    ];
    let mut expected = [parts(frame(100)), parts(frame(200))].concat();
    expected.push(Destroy::DescriptorPool(1));
    let without = [&expected[..], &tail].concat();
    assert_eq!(renderer(None).teardown(), without);
    let texture = [Destroy::ImageView(33), Destroy::Image(32), Destroy::Memory(31)];
    let with = [&expected[..], &texture, &tail].concat();
    assert_eq!(renderer(Some(TEXTURE)).teardown(), with);
}

fn windows() -> Backends {
    let mut backends = Backends::new();
    let interop = DxInterop { gpu_id: GpuLuid { low: 1, high: 0 } };
    assert!(backends.init_backend(5, interop, (60, 40)).is_some());
    let mut backend = backends.get(5).unwrap();
    assert!(backend.render.surface.invalidate_update());
    backends.put(5, backend);
    backends
}

#[test]
fn swapchains_come_and_go() {
    let mut backends = windows();
    let mut swapchains = Swapchains::new();
    let made = swapchains.swapchain_created(vk::Result::SUCCESS.as_raw(), 8, Some(5), (4, 3), 44);
    assert_eq!(made.0, 0);
    let info = swapchains.get(8).unwrap();
    assert_eq!((info.hwnd, info.image_size, info.format), (5, (4, 3), 44));
    assert!(swapchains.take_renderer(8).is_none());
    assert!(swapchains.put_renderer(8, renderer(None)).is_none());
    assert_eq!(swapchains.take_renderer(8).unwrap().pipeline, 7);
    assert!(swapchains.put_renderer(8, renderer(None)).is_none());
    assert!(swapchains.put_renderer(9, renderer(None)).is_some());

    // another swapchain takes its place
    let (step, gone) = swapchains.create_swapchain(&mut backends, 8, true);
    assert_eq!(step, CreateStep::Forward);
    assert_eq!(gone.unwrap().pipeline, 7);
    assert!(swapchains.get(8).is_none());
    assert!(backends.get(5).unwrap().render.surface.updated);

    let failed = vk::Result::ERROR_INITIALIZATION_FAILED.as_raw();
    let (step, gone) = swapchains.create_swapchain(&mut backends, 0, false);
    assert_eq!(step, CreateStep::Return(failed));
    assert!(gone.is_none());

    assert_eq!(swapchains.swapchain_created(-4, 8, Some(5), (4, 3), 44).0, -4);
    assert!(swapchains.get(8).is_none());
    assert_eq!(swapchains.swapchain_created(0, 8, None, (4, 3), 44).0, 0);
    assert!(swapchains.get(8).is_none());
    swapchains.swapchain_created(0, 8, Some(5), (4, 3), 44);
    let (forward, gone) = swapchains.destroy_swapchain(&mut backends, 8, false);
    assert!(!forward && gone.is_none());
    assert!(swapchains.get(8).is_none());
    let (forward, _) = swapchains.destroy_swapchain(&mut backends, 8, true);
    assert!(forward);
}

#[test]
fn present_waits_for_what_was_drawn() {
    let unknown = vk::Result::ERROR_UNKNOWN.as_raw();
    for (queue, dispatch) in [(false, true), (true, false)] {
        let start = present(queue, dispatch, true, vec![1], vec![0]);
        assert!(matches!(start, PresentStart::Return(result) if result == unknown));
    }
    assert!(matches!(present(true, true, false, vec![1], vec![0]), PresentStart::Through));

    let run = |drawn: [Option<u64>; 3]| {
        let PresentStart::Draw(mut drawing) = present(true, true, true, vec![1, 2, 3], vec![7, 8, 9])
        else {
            panic!("not drawn");
        };
        let mut targets = Vec::new();
        for semaphore in drawn {
            targets.push(drawing.target().unwrap());
            drawing.drawn(semaphore);
        }
        assert_eq!(targets, vec![(1, 7), (2, 8), (3, 9)]);
        assert!(drawing.target().is_none());
        drawing.finish()
    };
    assert!(matches!(run([None; 3]), PresentEnd::Through));
    let PresentEnd::After(semaphores) = run([Some(40), None, Some(41)]) else {
        panic!("nothing was drawn");
    };
    assert_eq!(semaphores, vec![40, 41]);
}

#[test]
fn vulkan_takes_a_window_and_draws_from_the_next_present_on() {
    let mut render = windows().get(5).unwrap().render;
    let presented = DrawEvent::Presented { has_renderer: false };
    assert_eq!(draw_overlay(&mut render, presented), OverlayStep::Skip);
    assert_eq!(render.renderer, Some(Renderer::Vulkan));
    assert_eq!(draw_overlay(&mut render, presented), OverlayStep::MakeRenderer);
    assert_eq!(draw_overlay(&mut render, DrawEvent::RendererMade(false)), OverlayStep::Skip);
    // no surface
    assert_eq!(draw_overlay(&mut render, DrawEvent::RendererMade(true)), OverlayStep::Skip);

    let surface = OverlaySurface { texture: 1, size: (9, 8), shared_handle: Some(3) };
    render.position = (1, 2);
    render.update_surface::<()>(Some(Ok(surface))).unwrap();
    let presented = DrawEvent::Presented { has_renderer: true };
    let update = OverlayStep::UpdateTexture { surface: Some(surface) };
    assert_eq!(draw_overlay(&mut render, presented), update);
    let draw = OverlayStep::Draw { position: (1, 2), size: (9, 8), screen: (60, 40) };
    assert_eq!(draw_overlay(&mut render, DrawEvent::TextureUpdated(true)), draw);
    assert_eq!(draw_overlay(&mut render, DrawEvent::TextureUpdated(false)), OverlayStep::Skip);
    assert_eq!(draw_overlay(&mut render, presented), draw);

    render.renderer = Some(Renderer::Dx12);
    assert_eq!(draw_overlay(&mut render, presented), OverlayStep::Skip);
    assert_eq!(render.renderer, Some(Renderer::Dx12));
}

#[test]
fn every_swapchain_of_a_present_is_drawn_on() {
    let mut backends = windows();
    let mut swapchains = Swapchains::new();
    swapchains.swapchain_created(0, 8, Some(5), (4, 3), 44);
    swapchains.swapchain_created(0, 9, Some(6), (4, 3), 44);
    let mut backend = backends.get(5).unwrap();
    let surface = OverlaySurface { texture: 1, size: (9, 8), shared_handle: Some(3) };
    backend.render.renderer = Some(Renderer::Vulkan);
    backend.render.update_surface::<()>(Some(Ok(surface))).unwrap();
    backends.put(5, backend);

    let PresentStart::Draw(drawing) = present(true, true, true, vec![7, 8, 9], vec![0, 1, 0]) else {
        panic!("not drawn");
    };
    let mut presenting = Presenting::new(drawing);
    let mut step = |event| {
        let told = presenting.advance(&mut swapchains, &mut backends, event);
        (presenting.stage, told)
    };
    // the first swapchain is not known
    assert_eq!(step(PresentEvent::Start), (PresentStage::Starting, None));
    let (stage, _) = step(PresentEvent::Start);
    assert!(matches!(stage, PresentStage::MakeRenderer { info } if info.hwnd == 5));
    let (stage, _) = step(PresentEvent::Made(true));
    assert_eq!(stage, PresentStage::UpdateTexture { surface: Some(surface) });
    let (stage, _) = step(PresentEvent::Updated(true));
    let draw = PresentStage::Draw { position: (0, 0), size: (9, 8), screen: (60, 40) };
    assert_eq!(stage, draw);
    assert_eq!(step(PresentEvent::Drawn(Some(77))).0, PresentStage::Starting);
    // the window of the third one is new, and taken
    assert_eq!(step(PresentEvent::Start).0, PresentStage::FindAdapter { hwnd: 6 });
    let interop = DxInterop { gpu_id: GpuLuid { low: 2, high: 0 } };
    let (stage, told) = step(PresentEvent::Adapter(Some((interop, (1, 2)))));
    assert_eq!(stage, PresentStage::Starting);
    assert!(told.is_some());
    assert_eq!(step(PresentEvent::Start).0, PresentStage::Over);
    assert_eq!(backends.get(6).unwrap().render.renderer, Some(Renderer::Vulkan));
    let PresentEnd::After(semaphores) = presenting.drawing.finish() else {
        panic!("nothing was drawn");
    };
    assert_eq!(semaphores, vec![77]);

    assert!(!swapchains.has_renderer(8));
    swapchains.put_renderer(8, renderer(None));
    assert!(swapchains.has_renderer(8));
    assert!(swapchains.take_renderer(8).is_some());
}
