use asdf_overlay::dx11::{self, InitReply, RendererInit};
use asdf_overlay::dx12::draw::{
    record, transition, Command, Draw, DrawAction, DrawError, DrawReply, Dx12Renderer, OpenReply,
    TextureState,
};
use asdf_overlay::dx12::fence::{FenceWait, RendererFence, WaitAction, WaitReply};
use asdf_overlay::dx12::rtv::{descriptor_heap, IndexError, RtvDescriptors};
use asdf_overlay::dx12::setup::{
    pipeline, root_sig, Setup, SetupAction, SetupError, SetupReply,
};
use asdf_overlay::dx9::{self, Dx9Functions, Scene};
use asdf_overlay::dxgi::{self, AddrLookup, AddrReply, DestructionCallback, Device, DxgiFunctions};
use asdf_overlay::event::GpuLuid;
use asdf_overlay::hooks::{HookPoint, HookSet};
use asdf_overlay::input;
use asdf_overlay::render::{
    DxInterop, OverlaySurface, RenderData, Renderer, UpdateSharedHandle,
};
use asdf_overlay::renderers::Renderers;
use asdf_overlay::util::{
    acquired, dummy_class, dummy_class_name, dummy_window, dummy_window_title, find_adapter_by_luid, get_client_size, luid_from_bytes, with_dummy_hwnd,
    with_keyed_mutex, DummyWindow, KeyedMutex, WindowError,
};

const SURFACE: OverlaySurface = OverlaySurface { texture: 1, size: (9, 8), shared_handle: Some(3) };

fn render() -> RenderData {
    RenderData::new(DxInterop { gpu_id: GpuLuid { low: 1, high: 2 } }, (60, 40))
}

fn finish_wait(mut wait: FenceWait, answers: &[WaitReply]) -> Vec<WaitAction> {
    let mut asked = vec![wait.action()];
    for answer in answers {
        wait.advance(*answer);
        asked.push(wait.action());
    }
    asked
}

#[test]
fn surface_updates_are_told_once() {
    let mut data = render();
    assert_eq!(data.surface.take_update(), Some(UpdateSharedHandle { handle: None }));
    assert_eq!(data.surface.take_update(), None);
    assert_eq!(data.update_surface::<()>(Some(Ok(SURFACE))), Ok(()));
    assert_eq!(data.surface.get(), Some(&SURFACE));
    assert_eq!(data.surface.take_update(), Some(UpdateSharedHandle { handle: Some(3) }));
    assert!(!data.surface.invalidate_update());
    data.invalidate_surface();
    assert!(data.surface.invalidate_update());
    assert!(!data.surface.invalidate_update());
    assert_eq!(data.update_surface(Some(Err("no"))), Err("no"));
    assert_eq!(data.surface.get(), None);
    assert_eq!(data.surface.take_update(), Some(UpdateSharedHandle { handle: None }));
    data.position = (4, 4);
    data.update_surface::<()>(Some(Ok(SURFACE))).unwrap();
    data.reset();
    assert_eq!((data.surface.get(), data.position), (None, (0, 0)));
    assert!(data.surface.invalidate_update());
    assert_eq!(data.window_size, (60, 40));
    data.update_surface::<()>(None).unwrap();
    assert_eq!(data.surface.get(), None);
}

#[test]
fn fence_counts_submissions() {
    let mut fence = RendererFence::new();
    assert_eq!(fence.current_value(), 0);
    assert_eq!(fence.next_value(), 1);
    fence.register(true);
    assert_eq!(fence.next_value(), 2);
    fence.register(true);
    assert_eq!(fence.current_value(), 2);
    fence.register(false);
    assert_eq!((fence.current_value(), fence.next_value()), (2, 3));
    let wait = fence.wait_pending();
    assert_eq!(
        finish_wait(wait, &[WaitReply::Completed(2)]),
        vec![WaitAction::QueryCompleted, WaitAction::Finish]
    );
}

#[test]
fn fence_waits_are_bounded_and_close_their_event() {
    let wait = RendererFence::new().wait_value(7);
    let done = WaitReply::Done(true);
    let failed = WaitReply::Done(false);
    let full = vec![
        WaitAction::QueryCompleted,
        WaitAction::CreateEvent,
        WaitAction::SetEvent { value: 7 },
        WaitAction::WaitEvent { timeout_ms: 5000 },
        WaitAction::CloseEvent,
        WaitAction::Finish,
    ];
    let below = WaitReply::Completed(6);
    assert_eq!(finish_wait(wait, &[below, done, done, done, done]), full);
    // on timeout
    assert_eq!(finish_wait(wait, &[below, done, done, failed, done]), full);
    // no event
    assert_eq!(
        finish_wait(wait, &[below, failed]),
        vec![WaitAction::QueryCompleted, WaitAction::CreateEvent, WaitAction::Finish]
    );
    // the device was removed
    assert_eq!(
        finish_wait(wait, &[below, done, failed, done])[3..],
        [WaitAction::CloseEvent, WaitAction::Finish]
    );
}

#[test]
fn back_buffer_views_are_made_once() {
    let heap = descriptor_heap();
    assert_eq!((heap.heap_type, heap.flags, heap.num_descriptors), (2, 0, 8));
    let mut rtv = RtvDescriptors::new(0x1000, 0x20);
    let first = rtv.with_next_swapchain(3).unwrap();
    assert_eq!((first.ptr, first.create), (0x1060, true));
    let again = rtv.with_next_swapchain(3).unwrap();
    assert_eq!((again.ptr, again.create), (0x1060, false));
    assert!(rtv.with_next_swapchain(0).unwrap().create);
    assert!(rtv.with_next_swapchain(7).unwrap().create);
    assert!(!rtv.with_next_swapchain(0).unwrap().create);
    rtv.reset();
    assert!(rtv.with_next_swapchain(3).unwrap().create);
    let before = rtv;
    assert_eq!(rtv.with_next_swapchain(8), Err(IndexError { index: 8 }));
    assert_eq!(rtv, before);
    assert_eq!(
        IndexError { index: 15 }.message(),
        "backbuffer index 15 exceeds RTV descriptor heap capacity (8)"
    );
}

fn step(renderer: &mut Dx12Renderer, draw: &mut Draw, reply: DrawReply) -> DrawAction {
    renderer.advance_draw(draw, reply);
    draw.action()
}

#[test]
fn dx12_frame_is_drawn_and_its_submission_recorded() {
    let mut renderer = Dx12Renderer::new();
    let done = DrawReply::Done(true);
    renderer.update_texture(UpdateSharedHandle { handle: Some(77) });
    let mut draw = renderer.draw(2, (1, 2), (3, 4), (60, 40));
    assert_eq!(draw.action(), DrawAction::OpenTexture { handle: 77 });
    let texture = OpenReply::Texture { width: 3, height: 4, format: 87 };
    let view = DrawAction::CreateView { mapping: 5768, format: 87, dimension: 4, mip_levels: 1 };
    assert_eq!(step(&mut renderer, &mut draw, DrawReply::Opened(texture)), view);
    assert_eq!(step(&mut renderer, &mut draw, done), DrawAction::WaitFence { value: 0 });
    assert_eq!(renderer.texture, TextureState::Opened);
    assert_eq!(step(&mut renderer, &mut draw, done), DrawAction::GetBackBuffer { index: 2 });
    assert_eq!(step(&mut renderer, &mut draw, done), DrawAction::ResetAllocator { index: 2 });
    assert_eq!(step(&mut renderer, &mut draw, done), DrawAction::ResetList { index: 2 });
    let recorded = DrawAction::Record { position: (1, 2), size: (3, 4), screen: (60, 40) };
    assert_eq!(step(&mut renderer, &mut draw, done), recorded);
    assert_eq!(step(&mut renderer, &mut draw, done), DrawAction::CloseList { index: 2 });
    assert_eq!(step(&mut renderer, &mut draw, done), DrawAction::Execute { index: 2 });
    assert_eq!(step(&mut renderer, &mut draw, done), DrawAction::Signal { value: 1 });
    let mut lost = renderer;
    let mut lost_draw = draw;
    assert_eq!(
        step(&mut lost, &mut lost_draw, DrawReply::Done(false)),
        DrawAction::Finish(Err(DrawError::Device))
    );
    // what was not signalled is not waited for
    assert_eq!((lost.saved_fence_val[2], lost.fence.current_value()), (0, 0));
    assert_eq!(lost.update_texture(UpdateSharedHandle { handle: None }).value, 0);
    assert_eq!(step(&mut renderer, &mut draw, done), DrawAction::Finish(Ok(())));
    assert_eq!(renderer.saved_fence_val, [0, 0, 1, 0, 0, 0, 0, 0]);
    // the next frame on the same back buffer waits for it
    let next = renderer.draw(2, (1, 2), (3, 4), (60, 40));
    assert_eq!(next.action(), DrawAction::WaitFence { value: 1 });
    let other = renderer.draw(3, (1, 2), (3, 4), (60, 40));
    assert_eq!(other.action(), DrawAction::WaitFence { value: 0 });
    // and so does an update of the texture
    let wait = renderer.update_texture(UpdateSharedHandle { handle: None });
    assert_eq!(wait.value, 1);
    assert_eq!(renderer.texture, TextureState::Empty);
}

#[test]
fn dx12_draws_nothing_where_there_is_nothing_to_draw() {
    let mut renderer = Dx12Renderer::new();
    let nothing = DrawAction::Finish(Ok(()));
    assert_eq!(renderer.draw(0, (0, 0), (1, 1), (9, 9)).action(), nothing);
    renderer.update_texture(UpdateSharedHandle { handle: Some(5) });
    assert_eq!(renderer.draw(0, (0, 0), (1, 1), (0, 9)).action(), nothing);
    assert_eq!(renderer.draw(0, (0, 0), (1, 1), (9, 0)).action(), nothing);
    let mut draw = renderer.draw(0, (0, 0), (1, 1), (9, 9));
    let empty = OpenReply::Texture { width: 0, height: 5, format: 1 };
    assert_eq!(step(&mut renderer, &mut draw, DrawReply::Opened(empty)), nothing);
    assert_eq!(renderer.texture, TextureState::Shared(5));
    let mut draw = renderer.draw(0, (0, 0), (1, 1), (9, 9));
    assert_eq!(
        step(&mut renderer, &mut draw, DrawReply::Opened(OpenReply::Nothing)),
        DrawAction::Finish(Err(DrawError::NoTexture))
    );
    assert_eq!(DrawError::NoTexture.message(), Some("cannot open shared texture"));
    let mut draw = renderer.draw(0, (0, 0), (1, 1), (9, 9));
    assert_eq!(
        step(&mut renderer, &mut draw, DrawReply::Opened(OpenReply::Failed)),
        DrawAction::Finish(Err(DrawError::Device))
    );
    assert_eq!(DrawError::Device.message(), None);
    renderer.texture = TextureState::Opened;
    assert_eq!(renderer.draw(8, (0, 0), (1, 1), (9, 9)).action(), nothing);
}

#[test]
fn dx12_commands_restore_the_back_buffer() {
    let commands = record((1, 2), (3, 4), (60, 40));
    assert_eq!(commands.len(), 11);
    assert_eq!(commands[6], Command::Barrier(transition(0, 4)));
    assert_eq!(commands[9], Command::Draw { vertices: 4, instances: 1, first_vertex: 0, first_instance: 0 });
    assert_eq!(commands[10], Command::Barrier(transition(4, 0)));
    assert_eq!(transition(4, 0).subresource, u32::MAX);
    assert_eq!(commands[8], Command::SetTopology(5));
    let place = Command::SetPlace {
        parameter: 0,
        count: 4,
        offset: 0,
        position: (1, 2),
        size: (3, 4),
        screen: (60, 40),
    };
    let viewport =
        Command::SetViewport { screen: (60, 40), min_depth: 0, max_depth: 1.0f32.to_bits() };
    assert_eq!(commands[4], viewport);
    assert_eq!((transition(0, 4).kind, transition(0, 4).flags), (0, 0));
    assert_eq!(commands[1], place);
}

#[test]
fn dx12_renderer_is_set_up() {
    let mut setup = Setup::new();
    let mut asked = Vec::new();
    loop {
        let action = setup.action();
        asked.push(action);
        match action {
            SetupAction::DescribeSwapchain => setup.advance(SetupReply::Format(Some(28))),
            SetupAction::SerializeSignature { .. } => {
                setup.advance(SetupReply::Serialized(Some(true)))
            }
            SetupAction::Finish(result) => {
                assert_eq!(result, Ok(()));
                break;
            }
            _ => setup.advance(SetupReply::Done(true)),
        }
    }
    assert_eq!(asked.len(), 4 + 3 * 8 + 3);
    let signature = root_sig();
    assert_eq!(signature.flags, 1 | 4 | 8 | 16);
    assert_eq!(signature.constants.num_32bit_values, 4);
    assert_eq!(signature.sampler.max_lod, f32::MAX.to_bits());
    assert_eq!(asked[1], SetupAction::SerializeSignature { signature, version: 1 });
    assert_eq!(asked[3], SetupAction::CreatePipeline(pipeline(28)));
    assert_eq!(pipeline(28).target_format, 28);
    let rasterizer = pipeline(28).rasterizer;
    assert_eq!((rasterizer.fill_mode, rasterizer.cull_mode), (3, 1));
    assert!(!rasterizer.depth_clip_enable && !rasterizer.multisample_enable);
    assert_eq!(pipeline(28).blend.dest_blend_alpha, 6);
    assert_eq!(asked[4], SetupAction::CreateAllocator { index: 0, list_type: 0 });
    assert_eq!(asked[27], SetupAction::CloseList { index: 7 });
    assert_eq!(
        asked[28],
        SetupAction::CreateTextureHeap { num_descriptors: 1, heap_type: 0, flags: 1 }
    );
    assert_eq!(asked[29], SetupAction::CreateFence { initial: 0 });

    let mut setup = Setup::new();
    setup.advance(SetupReply::Format(None));
    assert_eq!(setup.action(), SetupAction::Finish(Err(SetupError::Device)));
    let mut setup = Setup::new();
    setup.advance(SetupReply::Format(Some(28)));
    setup.advance(SetupReply::Serialized(Some(false)));
    assert_eq!(setup.action(), SetupAction::Finish(Err(SetupError::NoSignature)));
    assert_eq!(SetupError::NoSignature.message(), Some("cannot create dx12 root signature"));
    let mut setup = Setup::new();
    setup.advance(SetupReply::Format(Some(28)));
    setup.advance(SetupReply::Serialized(None));
    assert_eq!(setup.action(), SetupAction::Finish(Err(SetupError::Device)));
}

#[test]
fn dx11_takes_over_from_opengl_only() {
    let mut data = render();
    assert_eq!(dx11::draw_overlay(&mut data), None);
    assert_eq!(data.renderer, Some(Renderer::Dx11));
    assert_eq!(dx11::draw_overlay(&mut data), None);
    data.update_surface::<()>(Some(Ok(SURFACE))).unwrap();
    data.position = (5, 6);
    let plan = dx11::draw_overlay(&mut data).unwrap();
    assert_eq!(plan.update, Some(UpdateSharedHandle { handle: Some(3) }));
    assert_eq!((plan.position, plan.size, plan.screen), ((5, 6), (9, 8), (60, 40)));
    assert_eq!(dx11::draw_overlay(&mut data).unwrap().update, None);
    data.renderer = Some(Renderer::Opengl);
    assert_eq!(dx11::draw_overlay(&mut data), None);
    assert_eq!(data.renderer, Some(Renderer::Dx11));
    for other in [Renderer::Dx12, Renderer::Dx9, Renderer::Vulkan] {
        data.renderer = Some(other);
        assert_eq!(dx11::draw_overlay(&mut data), None);
        assert_eq!(data.renderer, Some(other));
    }
}

#[test]
fn dx11_context_is_put_back_however_a_draw_ends() {
    let done = dx11::DrawReply::Done(true);
    let failed = dx11::DrawReply::Done(false);
    let made = dx11::DrawReply::Target(Some(true));
    let run = |update, replies: &[dx11::DrawReply]| {
        let mut stage = dx11::DrawStage::begin(update);
        let mut stages = vec![stage];
        for reply in replies {
            stage.advance(*reply);
            stages.push(stage);
        }
        stages
    };
    let update = UpdateSharedHandle { handle: Some(3) };
    assert_eq!(
        run(Some(update), &[done, done, done, done, made, done, done, done, done]),
        vec![
            dx11::DrawStage::UpdateTexture(update),
            dx11::DrawStage::GetContext,
            dx11::DrawStage::SwapState,
            dx11::DrawStage::GetBackBuffer,
            dx11::DrawStage::CreateTarget,
            dx11::DrawStage::SetTarget,
            dx11::DrawStage::Draw,
            dx11::DrawStage::ClearTarget { error: None },
            dx11::DrawStage::RestoreState { error: None },
            dx11::DrawStage::Finished { error: None },
        ]
    );
    let last = |replies: &[dx11::DrawReply]| *run(None, replies).last().unwrap();
    let error = Some(dx11::DrawError::Context);
    assert_eq!(last(&[failed]), dx11::DrawStage::Finished { error });
    assert_eq!(last(&[done, failed]), dx11::DrawStage::Finished { error: None });
    let error = Some(dx11::DrawError::BackBuffer);
    assert_eq!(last(&[done, done, failed]), dx11::DrawStage::RestoreState { error });
    let error = Some(dx11::DrawError::CreateTarget);
    assert_eq!(last(&[done, done, done, dx11::DrawReply::Target(None)]), dx11::DrawStage::RestoreState { error });
    let error = Some(dx11::DrawError::NoTarget);
    assert_eq!(
        last(&[done, done, done, dx11::DrawReply::Target(Some(false)), done]),
        dx11::DrawStage::Finished { error }
    );
    let error = Some(dx11::DrawError::Renderer);
    assert_eq!(last(&[done, done, done, made, done, failed]), dx11::DrawStage::ClearTarget { error });
    assert_eq!(dx11::DrawError::Context.message(), Some("failed to get dx11 immediate context"));
    assert_eq!(dx11::DrawError::BackBuffer.message(), Some("failed to get dx11 backbuffer"));
    assert_eq!(dx11::DrawError::CreateTarget.message(), Some("failed to create rtv"));
    assert_eq!(dx11::DrawError::NoTarget.message(), Some("dx11 rtv was not created"));
    assert_eq!(dx11::DrawError::Renderer.message(), None);
}

#[test]
fn dx11_renderer_is_made_for_the_devices_threads() {
    assert_eq!(dx11::context_state_flag(0b101), 1);
    assert_eq!(dx11::context_state_flag(0b100), 0);
    let mut init = RendererInit::GetDevice;
    init.advance(InitReply::Device(Some(1)));
    let state = RendererInit::CreateState { flag: 1, feature_level: 0xb000, sdk_version: 7 };
    assert_eq!(init, state);
    init.advance(InitReply::Done(true));
    let mut failed = init;
    failed.advance(InitReply::Done(false));
    assert_eq!(failed, RendererInit::Failed);
    init.advance(InitReply::Done(true));
    assert_eq!(init, RendererInit::RegisterCleanup);
    init.advance(InitReply::Done(false));
    assert_eq!(init, RendererInit::Ready);
    let mut init = RendererInit::GetDevice;
    init.advance(InitReply::Device(None));
    assert_eq!(init, RendererInit::Failed);
}

#[test]
fn renderers_are_kept_until_they_are_cleaned_up() {
    let mut renderers = Renderers::new();
    assert_eq!(renderers.get(1), None);
    assert_eq!(dx9::with_or_init_renderer(&mut renderers, 1, Err("no")), Err("no"));
    assert_eq!(dx9::with_or_init_renderer::<()>(&mut renderers, 1, Ok(10)), Ok(10));
    assert_eq!(dx9::with_or_init_renderer::<()>(&mut renderers, 1, Ok(11)), Ok(10));
    assert_eq!(dx11::with_or_init_renderer_data::<()>(&mut renderers, 2, Ok(20)), Ok(20));
    assert_eq!(renderers.get(2), Some(20));
    assert_eq!(dx9::cleanup_renderer(&mut renderers, 1), Some(10));
    assert_eq!(dx9::cleanup_renderer(&mut renderers, 1), None);
    assert_eq!(dx9::with_or_init_renderer::<()>(&mut renderers, 1, Ok(11)), Ok(11));
    assert_eq!(dx11::cleanup_swapchain(&mut renderers, 2), Some(20));
    assert_eq!(renderers.get(1), Some(11));
}

#[test]
fn dx9_finds_the_window_of_a_present() {
    assert_eq!(dx9::hooked_present(true, true, 5, None), Some(5));
    assert_eq!(dx9::hooked_present(true, true, 0, Some(6)), Some(6));
    assert_eq!(dx9::hooked_present(true, true, 0, Some(0)), None);
    assert_eq!(dx9::hooked_present(true, true, 0, None), None);
    assert_eq!(dx9::hooked_present(false, true, 5, None), None);
    assert_eq!(dx9::hooked_present(true, false, 5, None), None);
    assert_eq!(dx9::hooked_present_ex(true, true, 5, Some(6)), Some(5));
    assert_eq!(dx9::hooked_present_ex(false, true, 5, Some(6)), None);
    assert_eq!(dx9::hooked_swapchain_present(true, true, 0, Some(6)), Some(6));
    assert_eq!(dx9::hooked_swapchain_present(true, false, 5, Some(6)), None);
    assert_eq!(dx9::hooked_swapchain_present(false, true, 5, Some(6)), None);
    let gone: Vec<u32> = (0..6).filter(|count| dx9::hooked_release(*count)).collect();
    assert_eq!(gone, vec![2, 3]);
}

#[test]
fn dx9_draws_a_scene_and_ends_it() {
    let mut data = render();
    assert_eq!(dx9::draw_overlay(&mut data), None);
    assert_eq!(data.renderer, Some(Renderer::Dx9));
    assert_eq!(dx9::draw_overlay(&mut data), None);
    data.update_surface::<()>(Some(Ok(SURFACE))).unwrap();
    let plan = dx9::draw_overlay(&mut data).unwrap();
    assert_eq!((plan.surface, plan.position, plan.screen), (SURFACE, (0, 0), (60, 40)));
    data.renderer = Some(Renderer::Opengl);
    assert_eq!(dx9::draw_overlay(&mut data), None);
    assert_eq!(data.renderer, Some(Renderer::Opengl));

    let run = |answers: &[bool]| {
        let mut scene = Scene::UpdateTexture;
        for done in answers {
            scene.advance(*done);
        }
        scene
    };
    assert_eq!(run(&[false]), Scene::Failed(dx9::DrawError::UpdateTexture));
    assert_eq!(run(&[true, false]), Scene::Failed(dx9::DrawError::BeginScene));
    assert_eq!(run(&[true, true, false]), Scene::EndScene);
    assert_eq!(run(&[true, true, true, true]), Scene::Drawn);
    assert_eq!(run(&[true, true, true, false]), Scene::Failed(dx9::DrawError::EndScene));
    assert_eq!(dx9::DrawError::UpdateTexture.message(), "failed to update dx9 texture");
    assert_eq!(dx9::DrawError::BeginScene.message(), "BeginScene failed");
    assert_eq!(dx9::DrawError::EndScene.message(), "EndScene failed");
}

#[test]
fn dx9_addresses_are_looked_up() {
    let functions = Dx9Functions {
        present: 1,
        release: 2,
        swapchain_present: 3,
        present_ex: 4,
        reset: 5,
        reset_ex: 6,
    };
    let run = |replies: &[dx9::AddrReply]| {
        let mut lookup = dx9::get_addr(9);
        for reply in replies {
            lookup.advance(*reply);
        }
        lookup
    };
    let done = dx9::AddrReply::Done(true);
    let given = dx9::AddrReply::Device(Some(true));
    let dx9::AddrLookup::CreateDevice(plan) = run(&[done]) else {
        panic!("no device");
    };
    assert_eq!((plan.adapter, plan.device_type, plan.behavior), (0, 1, 64));
    assert_eq!((plan.windowed, plan.swap_effect, plan.window), (true, 1, 9));
    let found = run(&[done, given, done, dx9::AddrReply::Addresses(functions)]);
    assert_eq!(found, dx9::AddrLookup::Found(functions));
    let failed = dx9::AddrReply::Done(false);
    assert_eq!(run(&[failed]), dx9::AddrLookup::Failed(dx9::AddrError::Direct3D));
    assert_eq!(run(&[done, dx9::AddrReply::Device(None)]), dx9::AddrLookup::Failed(dx9::AddrError::System));
    assert_eq!(run(&[done, dx9::AddrReply::Device(Some(false))]), dx9::AddrLookup::Failed(dx9::AddrError::NoDevice));
    assert_eq!(run(&[done, given, failed]), dx9::AddrLookup::Failed(dx9::AddrError::Swapchain));
    assert_eq!(dx9::AddrError::Direct3D.message(), Some("cannot create IDirect3D9"));
    assert_eq!(dx9::AddrError::System.message(), None);
    assert_eq!(dx9::AddrError::NoDevice.message(), Some("cannot create IDirect3DDevice9"));
    assert_eq!(dx9::AddrError::Swapchain.message(), Some("cannot get IDirect3DSwapChain9"));
    assert_eq!(dx9::AddrError::System.context(), "failed to load dx9 addrs");
}

#[test]
fn dxgi_addresses_are_looked_up() {
    let run = |replies: &[AddrReply]| {
        let mut lookup = dxgi::get_addr(9);
        for reply in replies {
            lookup.advance(*reply);
        }
        lookup
    };
    let done = AddrReply::Done(true);
    let given = AddrReply::Swapchain(Some(true));
    let at = |address| AddrReply::Address(Some(address));
    assert_eq!(run(&[done, done]), AddrLookup::CreateSwapchain(dxgi::dummy_swapchain(9)));
    let plan = dxgi::dummy_swapchain(9);
    assert_eq!((plan.buffer_count, plan.format, plan.sample_count), (2, 28, 1));
    assert_eq!((plan.usage, plan.window, plan.windowed, plan.swap_effect), (32, 9, true, 0));
    let found = run(&[done, done, given, at(1), at(2), AddrReply::Address(None), at(4)]);
    let functions = DxgiFunctions {
        present: 1,
        resize_buffers: 2,
        present1: None,
        resize_buffers1: Some(4),
    };
    assert_eq!(found, AddrLookup::Found(functions));
    let failed = AddrReply::Done(false);
    assert_eq!(run(&[failed]), AddrLookup::Failed(dxgi::AddrError::System));
    assert_eq!(run(&[done, failed]), AddrLookup::Failed(dxgi::AddrError::System));
    let none = AddrReply::Swapchain(None);
    assert_eq!(run(&[done, done, none]), AddrLookup::Failed(dxgi::AddrError::System));
    let none = AddrReply::Swapchain(Some(false));
    assert_eq!(run(&[done, done, none]), AddrLookup::Failed(dxgi::AddrError::NoSwapchain));
    assert_eq!(dxgi::AddrError::NoSwapchain.message(), Some("SwapChain creation failed"));
    assert_eq!(dxgi::AddrError::System.message(), None);
    assert_eq!(dxgi::AddrError::System.context(), "failed to load dxgi addrs");
}

#[test]
fn dxgi_presents_are_drawn_with_the_swapchains_device() {
    assert!(dxgi::hooked_present(0, true));
    assert!(dxgi::hooked_present(0b1000, true));
    assert!(!dxgi::hooked_present(0b1001, true));
    assert!(!dxgi::hooked_present(0, false));
    assert_eq!(dxgi::draw_overlay(true, true, true), Some(Device::Dx12));
    assert_eq!(dxgi::draw_overlay(true, false, true), Some(Device::Dx11));
    assert_eq!(dxgi::draw_overlay(true, false, false), None);
    assert_eq!(dxgi::draw_overlay(false, true, true), None);
    let mut callback = dxgi::register_swapchain_destruction_callback();
    callback.advance(true);
    let mut failed = callback;
    callback.advance(true);
    failed.advance(false);
    assert_eq!(callback, DestructionCallback::Registered);
    assert_eq!(failed, DestructionCallback::Reclaim);
    let mut callback = dxgi::register_swapchain_destruction_callback();
    callback.advance(false);
    assert_eq!(callback, DestructionCallback::Unsupported);
}

#[test]
fn functions_are_hooked_once_and_in_order() {
    let functions = |present1, resize_buffers1| DxgiFunctions {
        present: 1,
        present1,
        resize_buffers: 2,
        resize_buffers1,
    };
    let order = dxgi::hook(&functions(Some(3), None));
    assert_eq!(
        order,
        vec![HookPoint::DxgiResizeBuffers, HookPoint::DxgiPresent, HookPoint::DxgiPresent1]
    );
    assert_eq!(dxgi::hook(&functions(None, Some(4)))[1], HookPoint::DxgiResizeBuffers1);
    assert_eq!((input::hook().len(), dx9::hook().len()), (10, 6));
    assert_eq!(dx9::hook()[..3], [HookPoint::Dx9Reset, HookPoint::Dx9Release, HookPoint::Dx9ResetEx]);
    let mut hooks = HookSet::new();
    assert_eq!(hooks.next(&order), Some(HookPoint::DxgiResizeBuffers));
    assert_eq!(hooks.attached(HookPoint::DxgiResizeBuffers, true), Ok(()));
    assert_eq!(hooks.attached(HookPoint::DxgiPresent, false), Err(HookPoint::DxgiPresent));
    // tried again, what is hooked stays hooked
    assert_eq!(hooks.next(&order), Some(HookPoint::DxgiPresent));
    assert_eq!(hooks.attached(HookPoint::DxgiPresent, true), Ok(()));
    assert_eq!(hooks.attached(HookPoint::DxgiPresent1, true), Ok(()));
    assert_eq!(hooks.next(&order), None);

    // those for input are hooked together: after a failure the first one is next
    let inputs = input::hook();
    assert_eq!(input::hooked(&mut hooks, HookPoint::ClipCursor, true), Ok(()));
    assert_eq!(hooks.next(&inputs), Some(HookPoint::SetCursorPos));
    let failed = HookPoint::SetCursorPos;
    assert_eq!(input::hooked(&mut hooks, failed, false), Err(failed));
    assert_eq!(hooks.next(&inputs), Some(HookPoint::ClipCursor));
    assert_eq!(hooks.next(&order), None);
    for point in &inputs {
        assert_eq!(hooks.next(&inputs), Some(*point));
        assert_eq!(input::hooked(&mut hooks, *point, true), Ok(()));
    }
    assert_eq!(hooks.next(&inputs), None);
}

#[test]
fn adapters_and_sizes_are_found() {
    let luid = GpuLuid { low: 1, high: 0 };
    let other = GpuLuid { low: 2, high: 0 };
    let adapters = vec![None, Some(other), Some(luid), Some(luid)];
    assert_eq!(find_adapter_by_luid(&adapters, luid), Some(2));
    assert_eq!(find_adapter_by_luid(&adapters, GpuLuid { low: 1, high: 1 }), None);
    assert_eq!(
        luid_from_bytes([0xef, 0xcd, 0xab, 0x89, 0xfe, 0xff, 0xff, 0xff]),
        GpuLuid { low: 0x89ab_cdef, high: -2 }
    );
    assert_eq!(luid_from_bytes([1, 0, 0, 0, 2, 0, 0, 0]), GpuLuid { low: 1, high: 2 });
    assert_eq!(get_client_size::<()>(Ok((800, 600))), Ok((800, 600)));
    assert_eq!(get_client_size::<()>(Ok((-1, 0))), Ok((u32::MAX, 0)));
    assert_eq!(get_client_size(Err(5)), Err(5));
}

#[test]
fn dummy_window_and_mutex_are_given_up() {
    assert_eq!(dummy_class_name(140_000), "asdf-overlay-140000 dummy window class");
    let run = |answers: &[bool]| {
        let mut window = with_dummy_hwnd();
        for done in answers {
            window.advance(*done);
        }
        window
    };
    assert_eq!(run(&[true]), DummyWindow::CreateWindow(dummy_window()));
    let plan = dummy_window();
    assert_eq!((plan.ex_style, plan.style, plan.parent), (0, 0x8000_0000, -3));
    assert_eq!((plan.x, plan.y, plan.width, plan.height), (0, 0, 2, 2));
    let class = dummy_class(7);
    assert_eq!((class.style, class.name.as_str()), (32, "asdf-overlay-7 dummy window class"));
    assert_eq!(dummy_window_title(), "asdf-overlay dummy window");
    assert_eq!(run(&[true, true]), DummyWindow::Run);
    assert_eq!(run(&[true, true, true]), DummyWindow::DestroyWindow);
    assert_eq!(run(&[true, true, true, true]), DummyWindow::UnregisterClass { error: None });
    assert_eq!(run(&[true, true, true, true, true]), DummyWindow::Finished { error: None });
    let error = Some(WindowError::RegisterClass);
    assert_eq!(run(&[false]), DummyWindow::Finished { error });
    let error = Some(WindowError::CreateWindow);
    assert_eq!(run(&[true, false]), DummyWindow::UnregisterClass { error });
    assert_eq!(WindowError::RegisterClass.message(), Some("RegisterClassA call failed"));
    assert_eq!(WindowError::CreateWindow.message(), None);

    // inside a use another one finds its class registered, and the outer one goes on
    let mut outer = run(&[true, true]);
    assert_eq!(run(&[false, true, true]), run(&[false]));
    for _ in 0..3 {
        outer.advance(true);
    }
    assert_eq!(outer, DummyWindow::Finished { error: None });

    assert!(acquired(0) && acquired(0x80));
    assert!(!acquired(0x102) && !acquired(-1) && !acquired(i32::MIN));
    let mut mutex = with_keyed_mutex(true);
    assert_eq!(mutex, KeyedMutex::Acquire { key: 0, timeout_ms: 5000 });
    let mut stuck = mutex;
    stuck.advance(false);
    assert_eq!(stuck, KeyedMutex::Failed);
    mutex.advance(true);
    assert_eq!(mutex, KeyedMutex::Run { held: true });
    mutex.advance(true);
    assert_eq!(mutex, KeyedMutex::Release { key: 0 });
    mutex.advance(false);
    assert_eq!(mutex, KeyedMutex::Used);
    let mut bare = with_keyed_mutex(false);
    assert_eq!(bare, KeyedMutex::Run { held: false });
    bare.advance(true);
    assert_eq!(bare, KeyedMutex::Used);
}
