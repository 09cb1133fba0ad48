use asdf_overlay::augment::{
    copy_string, on_choices, on_error, on_owned, AugmentReader, NativeAugmentCard, ReaderError,
};
use asdf_overlay::backend::{
    Backends, InputBlockData, ListenInputFlags, ScreenRect, WindowBackend, WindowOutcome,
};
use asdf_overlay::event::{GpuLuid, OverlayEvent, WindowEvent};
use asdf_overlay::input::{
    active_hwnd_can_block, active_hwnd_input_blocked, active_hwnd_with,
    foreground_hwnd_input_blocked, hooked_clip_cursor, hooked_get_async_key_state,
    hooked_get_clip_cursor, hooked_get_cursor_pos, hooked_get_key_state,
    hooked_get_keyboard_state, hooked_get_physical_cursor_pos, hooked_get_raw_input_buffer,
    hooked_get_raw_input_data, hooked_set_cursor_pos, RawInputData, RawInputReply, RID_HEADER,
    RID_INPUT,
};
use asdf_overlay::pipe::{
    create_ipc_server, user_access, PipeError, PipeReply, PipeSetup, PipeStage,
};
use asdf_overlay::render::{DxInterop, OverlaySurface, UpdateSharedHandle};
use asdf_overlay::request::{
    BlockInput, Cursor, ListenInput, PercentLength, Request, SetAnchor, SetBlockingCursor,
    SetMargin, SetPosition, WindowRequest,
};
use asdf_overlay::server::{
    run_server, start_overlay, HookMessage, HookProc, HookReply, HookStage, Listener, Session, SessionAction, SessionEvent, Startup,
};

const INTEROP: DxInterop = DxInterop { gpu_id: GpuLuid { low: 3, high: 4 } };
const SURFACE: OverlaySurface = OverlaySurface { texture: 1, size: (9, 8), shared_handle: Some(3) };
const BLOCK: WindowRequest = WindowRequest::BlockInput(BlockInput { block: true });

fn windows(ids: &[u32]) -> Backends {
    let mut backends = Backends::new();
    for id in ids {
        let size = (*id, id + 1);
        let event = backends.init_backend(*id, INTEROP, size);
        assert_eq!(event, Some(added(*id)));
        assert_eq!(backends.init_backend(*id, INTEROP, (0, 0)), None);
    }
    backends
}

fn added(id: u32) -> OverlayEvent {
    let event = WindowEvent::Added { width: id, height: id + 1, gpu_id: INTEROP.gpu_id };
    OverlayEvent::Window { id, event }
}

#[test]
fn windows_come_and_go() {
    let mut backends = windows(&[5, 6]);
    assert_eq!(backends.get(5), Some(WindowBackend::new(INTEROP, (5, 6))));
    let gone = OverlayEvent::Window { id: 5, event: WindowEvent::Destroyed };
    assert_eq!(backends.remove_backend(5), Some(gone));
    assert_eq!(backends.remove_backend(5), None);
    assert_eq!(backends.get(5), None);
    assert!(backends.get(6).is_some());
}

#[test]
fn initial_events_tell_of_every_window() {
    let mut events = windows(&[9, 1, 5]).initial_events();
    events.sort_by_key(|event| match event {
        OverlayEvent::Window { id, .. } => *id,
        _ => 0,
    });
    assert_eq!(events, vec![added(1), added(5), added(9)]);
    assert!(Backends::new().initial_events().is_empty());
}

#[test]
fn requests_change_their_window_only() {
    let mut backends = windows(&[5, 6]);
    let (a, b) = (PercentLength::Percent(1), PercentLength::Length(2));
    let requests = [
        WindowRequest::SetPosition(SetPosition { x: a, y: b }),
        WindowRequest::SetAnchor(SetAnchor { x: b, y: a }),
        WindowRequest::SetMargin(SetMargin { top: a, right: b, bottom: b, left: a }),
        WindowRequest::ListenInput(ListenInput { cursor: false, keyboard: true }),
        BLOCK,
        WindowRequest::SetBlockingCursor(SetBlockingCursor { cursor: Some(Cursor(4)) }),
        WindowRequest::UpdateSharedHandle(UpdateSharedHandle { handle: None }),
    ];
    for request in requests {
        assert_eq!(backends.handle_window_event(5, request), WindowOutcome::Reply(true));
        assert_eq!(backends.handle_window_event(7, request), WindowOutcome::Reply(false));
    }
    let backend = backends.get(5).unwrap();
    assert_eq!((backend.layout.position, backend.layout.anchor), ((a, b), (b, a)));
    assert_eq!(backend.layout.margin, (a, b, b, a));
    assert_eq!(backend.proc.listen, ListenInputFlags { cursor: false, keyboard: true });
    assert_eq!(backend.proc.blocking_state, Some(InputBlockData { clip_cursor: None }));
    assert_eq!(backend.proc.blocking_cursor, Some(Cursor(4)));
    assert!(backend.proc.input_blocking());
    assert_eq!(backends.get(6), Some(WindowBackend::new(INTEROP, (6, 7))));
    assert_eq!(backends.get(7), None);

    let share = WindowRequest::UpdateSharedHandle(UpdateSharedHandle { handle: Some(8) });
    assert_eq!(
        backends.handle_window_event(5, share),
        WindowOutcome::OpenSurface { handle: 8 }
    );
    assert!(backends.surface_opened::<()>(5, Ok(SURFACE)));
    assert_eq!(backends.get(5).unwrap().render.surface.get(), Some(&SURFACE));
    assert!(!backends.surface_opened(5, Err("no")));
    assert_eq!(backends.get(5).unwrap().render.surface.get(), None);
    assert!(!backends.surface_opened::<()>(7, Ok(SURFACE)));

    backends.cleanup_backends();
    assert_eq!(backends.get(5), Some(WindowBackend::new(INTEROP, (5, 6))));
    assert_eq!(backends.get(6), Some(WindowBackend::new(INTEROP, (6, 7))));
}

#[test]
fn blocking_twice_keeps_what_was_noted() {
    let mut backends = windows(&[5]);
    backends.handle_window_event(5, BLOCK);
    let rect = ScreenRect { left: 1, top: 2, right: 3, bottom: 4 };
    assert!(hooked_clip_cursor(&mut backends, 5, false, Some(rect)));
    backends.handle_window_event(5, BLOCK);
    assert_eq!(hooked_get_clip_cursor(&backends, 5, false), Some(rect));
    let free = WindowRequest::BlockInput(BlockInput { block: false });
    backends.handle_window_event(5, free);
    backends.handle_window_event(5, BLOCK);
    assert_eq!(hooked_get_clip_cursor(&backends, 5, false), None);
}

#[test]
fn blocked_windows_are_told_nothing_of_input() {
    let mut backends = windows(&[5, 6]);
    backends.handle_window_event(5, BLOCK);
    let hwnd = 0x7_0000_0005;
    assert_eq!(active_hwnd_can_block(5, false), Some(5));
    assert_eq!(active_hwnd_can_block(0, false), None);
    assert_eq!(active_hwnd_can_block(5, true), None);
    let data = InputBlockData { clip_cursor: None };
    assert_eq!(active_hwnd_with(&backends, hwnd, false), Some((5, data)));
    assert!(active_hwnd_input_blocked(&backends, 5, false));
    assert!(!active_hwnd_input_blocked(&backends, 5, true));
    assert!(foreground_hwnd_input_blocked(&backends, hwnd));
    assert!(hooked_set_cursor_pos(&backends, 5));
    assert_eq!(hooked_get_cursor_pos(&backends, 5), Some((0, 0)));
    assert_eq!(hooked_get_physical_cursor_pos(&backends, 5), Some((0, 0)));
    assert_eq!(hooked_get_async_key_state(&backends, 5), Some(0));
    assert_eq!(hooked_get_key_state(&backends, 5, false), Some(0));
    assert_eq!(hooked_get_keyboard_state(&backends, 5, false), Some(vec![0; 256]));
    assert_eq!(hooked_get_raw_input_buffer(&backends, 5), Some(0));

    for other in [0, 6, 7] {
        assert!(!foreground_hwnd_input_blocked(&backends, other));
        assert!(!hooked_clip_cursor(&mut backends, other, false, None));
        assert!(!hooked_set_cursor_pos(&backends, other));
        assert_eq!(hooked_get_clip_cursor(&backends, other, false), None);
        assert_eq!(hooked_get_cursor_pos(&backends, other), None);
        assert_eq!(hooked_get_physical_cursor_pos(&backends, other), None);
        assert_eq!(hooked_get_async_key_state(&backends, other), None);
        assert_eq!(hooked_get_key_state(&backends, other, false), None);
        assert_eq!(hooked_get_keyboard_state(&backends, other, false), None);
        assert_eq!(hooked_get_raw_input_data(&backends, other, RID_INPUT, true, 24, 48), None);
        assert_eq!(hooked_get_raw_input_buffer(&backends, other), None);
    }
}

#[test]
fn raw_input_sizes_agree() {
    let mut backends = windows(&[5]);
    backends.handle_window_event(5, BLOCK);
    let ask = |command, buffer| hooked_get_raw_input_data(&backends, 5, command, buffer, 24, 48);
    let nothing = RawInputData::Nothing;
    for (command, size, data) in [
        (RID_HEADER, 24, RawInputData::Header { kind: 2, size: 24 }),
        (RID_INPUT, 48, RawInputData::Input { kind: 2, size: 48 }),
        (1, 0, nothing),
    ] {
        let query = RawInputReply { size, data: nothing, result: 0 };
        assert_eq!(ask(command, false), Some(query));
        assert_eq!(ask(command, true), Some(RawInputReply { size, data, result: size }));
    }
    assert_eq!((RID_HEADER, RID_INPUT), (268435461, 268435459));
}

#[test]
fn session_answers_requests_and_cleans_up() {
    let mut backends = windows(&[5]);
    let mut session = Session::new();
    let done = SessionEvent::Done(true);
    for action in [
        SessionAction::Handshake,
        SessionAction::StartReader,
        SessionAction::EmitInitial,
        SessionAction::SetSink,
    ] {
        assert_eq!(session.action(), action);
        session.advance(&mut backends, done);
    }
    let ask = |number, id, request| SessionEvent::Received(Some((number, Request::Window { id, request })));
    session.advance(&mut backends, ask(41, 5, BLOCK));
    assert_eq!(session.action(), SessionAction::Reply { id: 41, success: true });
    assert!(backends.get(5).unwrap().proc.input_blocking());
    session.advance(&mut backends, done);
    assert_eq!(session.action(), SessionAction::Receive);
    session.advance(&mut backends, ask(42, 6, BLOCK));
    assert_eq!(session.action(), SessionAction::Reply { id: 42, success: false });
    session.advance(&mut backends, done);
    let share = WindowRequest::UpdateSharedHandle(UpdateSharedHandle { handle: Some(8) });
    for (number, opened) in [(43, Some(SURFACE)), (44, None)] {
        session.advance(&mut backends, ask(number, 5, share));
        assert_eq!(session.action(), SessionAction::OpenSurface { window: 5, handle: 8 });
        session.advance(&mut backends, SessionEvent::Opened(opened));
        let success = opened.is_some();
        assert_eq!(session.action(), SessionAction::Reply { id: number, success });
        assert_eq!(backends.get(5).unwrap().render.surface.get().copied(), opened);
        session.advance(&mut backends, done);
    }
    session.advance(&mut backends, SessionEvent::Received(None));
    assert_eq!(session.action(), SessionAction::ClearSink);
    session.advance(&mut backends, done);
    assert_eq!(backends.get(5), Some(WindowBackend::new(INTEROP, (5, 6))));
    assert_eq!(session.action(), SessionAction::StopReader);
    session.advance(&mut backends, done);
    assert_eq!(session.action(), SessionAction::Finish { ok: true });
}

#[test]
fn session_ends_badly_where_the_client_cannot_be_told() {
    let mut backends = windows(&[5]);
    let mut session = Session::new();
    session.advance(&mut backends, SessionEvent::Done(false));
    assert_eq!(session.action(), SessionAction::Finish { ok: false });

    let mut session = Session::new();
    session.advance(&mut backends, SessionEvent::Done(true));
    session.advance(&mut backends, SessionEvent::Done(false));
    session.advance(&mut backends, SessionEvent::Done(true));
    session.advance(&mut backends, SessionEvent::Done(true));
    let request = Request::Window { id: 5, request: BLOCK };
    session.advance(&mut backends, SessionEvent::Received(Some((1, request))));
    session.advance(&mut backends, SessionEvent::Done(false));
    assert_eq!(session.action(), SessionAction::ClearSink);
    session.advance(&mut backends, SessionEvent::Done(true));
    // the reader never ran
    assert_eq!(session.action(), SessionAction::Finish { ok: false });
    assert!(!backends.get(5).unwrap().proc.input_blocking());
}

#[test]
fn server_is_made_anew_for_every_client() {
    let mut listener = run_server();
    assert_eq!(listener, Listener::Accept);
    listener.advance(true);
    assert_eq!(listener, Listener::Serve);
    listener.advance(false);
    assert_eq!(listener, Listener::CreateServer);
    listener.advance(false);
    assert_eq!(listener, Listener::Sleep(5000));
    listener.advance(true);
    listener.advance(true);
    assert_eq!(listener, Listener::Accept);
    listener.advance(false);
    assert_eq!(listener, Listener::CreateServer);
}

#[test]
fn overlay_starts_once_or_not_at_all() {
    let mut hook = HookProc::new();
    let message = |code| HookMessage { code, wparam: 2, lparam: -3 };
    let mut first = hook.msg_hook_proc(message(1));
    assert_eq!(first.stage, HookStage::PinModule);
    first.advance(HookReply::Module(77));
    assert_eq!(first.stage, HookStage::StartOverlay { module: 77 });
    first.advance(HookReply::Started);
    assert_eq!(first.stage, HookStage::CallNext(message(1)));
    first.advance(HookReply::Result(-9));
    assert_eq!(first.stage, HookStage::Return(-9));
    for code in [0, -1] {
        let mut later = hook.msg_hook_proc(message(code));
        assert_eq!(later.stage, HookStage::CallNext(message(code)));
        later.advance(HookReply::Result(5));
        assert_eq!(later.stage, HookStage::Return(5));
    }
    let run = |answers: &[bool]| {
        let mut startup = start_overlay();
        for done in answers {
            startup.advance(*done);
        }
        startup
    };
    assert_eq!(run(&[]), Startup::CreateRuntime);
    assert_eq!(run(&[true]), Startup::CreateServer { first: true });
    assert_eq!(run(&[true, true]), Startup::Initialize);
    assert_eq!(run(&[true, true, true]), Startup::Listen);
    assert_eq!(run(&[false]), Startup::Inert);
    assert_eq!(run(&[true, false]), Startup::Inert);
    assert_eq!(run(&[true, true, false]), Startup::Inert);
}

#[test]
fn pipe_is_for_the_user_alone() {
    let access = user_access();
    assert_eq!((access.permissions, access.mode), (0xc000_0000, 2));
    assert_eq!((access.inheritance, access.trustee_form, access.trustee_type), (0, 0, 1));
    let done = PipeReply::Done(true);
    let failed = PipeReply::Done(false);
    let run = |replies: &[PipeReply]| {
        let mut setup: PipeSetup = create_ipc_server(true);
        let mut stages = vec![setup.stage];
        for reply in replies {
            setup.advance(*reply);
            stages.push(setup.stage);
        }
        stages
    };
    let length = PipeReply::Length(44);
    assert_eq!(
        run(&[done, length, done, done, done, done, done, done, done]),
        vec![
            PipeStage::OpenToken { access: 8 },
            PipeStage::QueryLength,
            PipeStage::ReadUser { length: 44 },
            PipeStage::BuildAcl(access),
            PipeStage::InitDescriptor { revision: 1 },
            PipeStage::SetDacl { present: true, defaulted: false },
            PipeStage::CloseToken { error: None },
            PipeStage::CreatePipe { first: true, attributes_length: 1, inherit_handle: false },
            PipeStage::FreeAcl { error: None },
            PipeStage::Finished { error: None },
        ]
    );
    let last = |replies: &[PipeReply]| *run(replies).last().unwrap();
    let error = Some(PipeError::Security);
    assert_eq!(last(&[failed]), PipeStage::Finished { error });
    assert_eq!(last(&[done, length, failed]), PipeStage::CloseToken { error });
    assert_eq!(last(&[done, length, failed, done]), PipeStage::Finished { error });
    let error = Some(PipeError::TokenLength);
    assert_eq!(last(&[done, PipeReply::Length(0), done]), PipeStage::Finished { error });
    let error = Some(PipeError::Create);
    let all = [done, length, done, done, done, done, done, failed];
    assert_eq!(last(&all), PipeStage::FreeAcl { error });
    let context = Some("failed to create user security desc");
    assert_eq!(
        (PipeError::TokenLength.message(), PipeError::TokenLength.context()),
        (Some("failed to query token user information length"), context)
    );
    assert_eq!((PipeError::Security.message(), PipeError::Security.context()), (None, context));
    assert_eq!((PipeError::Create.message(), PipeError::Create.context()), (None, None));
}

fn bytes(text: &str) -> Option<Vec<u8>> {
    Some(text.as_bytes().to_vec())
}

#[test]
fn reader_events_are_told() {
    assert_eq!(copy_string(&None), "");
    assert_eq!(copy_string(&bytes("한")), "한");
    assert_eq!(copy_string(&Some(vec![b'a', 0xff, b'b'])), "a\u{fffd}b");
    let cards = Some(vec![NativeAugmentCard {
        instance: 4,
        name: bytes("n"),
        description: None,
        x: 1,
        y: 2,
        width: 3,
        height: 4,
    }]);
    let mode = bytes("mayhem");
    let Some(OverlayEvent::LolAugmentChoices(choices)) = on_choices(true, &mode, &cards, 1) else {
        panic!("no choices");
    };
    assert_eq!((choices.mode.as_str(), choices.cards.len()), ("mayhem", 1));
    let card = &choices.cards[0];
    assert_eq!((card.instance, card.name.as_str(), card.description.as_str()), (4, "n", ""));
    assert_eq!((card.x, card.y, card.width, card.height), (1, 2, 3, 4));
    let Some(OverlayEvent::LolAugmentChoices(choices)) = on_choices(true, &mode, &None, 0) else {
        panic!("no choices");
    };
    assert!(choices.cards.is_empty());
    assert!(on_choices(false, &mode, &cards, 1).is_none());
    assert!(on_choices(true, &None, &cards, 1).is_none());
    assert!(on_choices(true, &mode, &None, 1).is_none());

    let names = Some(vec![bytes("A"), None]);
    let Some(OverlayEvent::LolAugmentOwned(owned)) = on_owned(true, &names, 2) else {
        panic!("no names");
    };
    assert_eq!(owned.internal_names, vec!["A", ""]);
    assert!(on_owned(true, &None, 0).is_some());
    assert!(on_owned(true, &None, 2).is_none());
    assert!(on_owned(false, &names, 2).is_none());

    let error = OverlayEvent::LolAugmentReadError("hud_map_not_found".into());
    assert_eq!(on_error(true, &bytes("hud_map_not_found")), Some(error));
    assert!(on_error(false, &None).is_none());
}

#[test]
fn reader_is_given_up() {
    let run = |answers: &[bool]| {
        let mut reader = AugmentReader::start();
        for done in answers {
            reader.advance(*done);
        }
        reader
    };
    let error = Some(ReaderError::Create);
    assert_eq!(run(&[false]), AugmentReader::Gone { error });
    let error = Some(ReaderError::Start);
    assert_eq!(run(&[true, false]), AugmentReader::Destroy { error });
    assert_eq!(run(&[true, false, true]), AugmentReader::FreeContext { error });
    assert_eq!(run(&[true, false, true, true]), AugmentReader::Gone { error });
    assert_eq!(run(&[true, true]), AugmentReader::Running);
    assert_eq!(run(&[true, true, true]), AugmentReader::Stop);
    assert_eq!(run(&[true, true, true, true]), AugmentReader::Destroy { error: None });
    assert_eq!(ReaderError::Create.message(), "cannot create augment memory reader");
    assert_eq!(ReaderError::Start.message(), "cannot start augment memory reader");
}
