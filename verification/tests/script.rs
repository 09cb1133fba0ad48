use asdf_overlay::addon::{
    attach, attach_context, dll_names, overlay_block_input, overlay_call_next_event, overlay_listen_input,
    overlay_set_anchor, overlay_set_blocking_cursor, overlay_set_margin, overlay_set_position,
    overlay_update_handle, Failed, InvalidCursor, LengthArg, Overlay, OverlayError,
};
use asdf_overlay::conv::{
    deserialize_copy_rect, deserialize_gpu_luid, deserialize_handle_update, deserialize_rect,
    emit_event, serialize_gpu_luid, serialize_handle_update, to_i32, to_u32, CopyRect,
    InvalidPercentLength, Rect,
};
use asdf_overlay::event::{
    AugmentCard, AugmentChoices, CursorAction, CursorEvent, CursorInput, CursorInputState, GpuLuid,
    Ime, ImeCandidateList, InputEvent, InputPosition, Key, KeyInputState, KeyboardInput,
    OverlayEvent, OwnedAugments, ScrollAxis, WindowEvent,
};
use asdf_overlay::js::JsValue;
use asdf_overlay::process::{list_processes, list_processes_js, SnapshotEntry};
use asdf_overlay::render::UpdateSharedHandle;
use asdf_overlay::request::{
    BlockInput, Cursor, ListenInput, PercentLength, Request, SetAnchor, SetBlockingCursor,
    SetMargin, SetPosition, WindowRequest,
};
use asdf_overlay::surface::{
    fit_handle, handle_from_bytes, surface_adapter, update_js, HandleError,
};
use asdf_overlay::text::{append_decimal, append_hex, append_hex_word};

/// A value in the notation of a script.
fn show(value: &JsValue) -> String {
    match value {
        JsValue::Bool(b) => format!("{b}"),
        JsValue::Int(n) => format!("{n}"),
        JsValue::Size(n) => format!("{n}"),
        JsValue::Single(bits) => format!("{:?}", f32::from_bits(*bits)),
        JsValue::Text(text) => format!("{text:?}"),
        JsValue::Array(items) => {
            let items: Vec<String> = items.iter().map(show).collect();
            format!("[{}]", items.join(","))
        }
        JsValue::Object(fields) => {
            let fields: Vec<String> =
                fields.iter().map(|f| format!("{}:{}", f.name, show(&f.value))).collect();
            format!("{{{}}}", fields.join(","))
        }
    }
}

fn emitted(event: OverlayEvent) -> String {
    let args: Vec<String> = emit_event(event).iter().map(show).collect();
    args.join(" ")
}

fn window(event: WindowEvent) -> String {
    emitted(OverlayEvent::Window { id: 7, event })
}

fn cursor(event: CursorEvent) -> String {
    window(WindowEvent::Input(InputEvent::Cursor(CursorInput {
        event,
        client: InputPosition { x: 1, y: -2 },
        window: InputPosition { x: 3, y: 4 },
    })))
}

fn keyboard(input: KeyboardInput) -> String {
    window(WindowEvent::Input(InputEvent::Keyboard(input)))
}

#[test]
fn window_events_are_emitted() {
    assert_eq!(
        window(WindowEvent::Added {
            width: 800,
            height: 600,
            gpu_id: GpuLuid { low: u32::MAX, high: -1 },
        }),
        r#""added" 7 800 600 {low:4294967295,high:-1}"#
    );
    assert_eq!(window(WindowEvent::Resized { width: 1, height: 2 }), r#""resized" 7 1 2"#);
    assert_eq!(window(WindowEvent::InputBlockingEnded), r#""input_blocking_ended" 7"#);
    assert_eq!(window(WindowEvent::Destroyed), r#""destroyed" 7"#);
}

#[test]
fn cursor_input_is_emitted() {
    let head = r#""cursor_input" 7 {clientX:1,clientY:-2,windowX:3,windowY:4,"#;
    let check = |event, tail: &str| assert_eq!(cursor(event), format!("{head}{tail}}}"));
    check(CursorEvent::Enter, r#"kind:"Enter""#);
    check(CursorEvent::Leave, r#"kind:"Leave""#);
    check(CursorEvent::Move, r#"kind:"Move""#);
    check(
        CursorEvent::Scroll { axis: ScrollAxis::X, delta: -3 },
        r#"kind:"Scroll",axis:"X",delta:-3"#,
    );
    check(
        CursorEvent::Scroll { axis: ScrollAxis::Y, delta: 3 },
        r#"kind:"Scroll",axis:"Y",delta:3"#,
    );
    for (action, name) in [
        (CursorAction::Left, "Left"),
        (CursorAction::Right, "Right"),
        (CursorAction::Middle, "Middle"),
        (CursorAction::Back, "Back"),
        (CursorAction::Forward, "Forward"),
    ] {
        check(
            CursorEvent::Action { state: CursorInputState::Released, action },
            &format!(r#"kind:"Action",state:"Released",doubleClick:false,action:"{name}""#),
        );
    }
    for double_click in [false, true] {
        let state = CursorInputState::Pressed { double_click };
        check(
            CursorEvent::Action { state, action: CursorAction::Left },
            &format!(r#"kind:"Action",state:"Pressed",doubleClick:{double_click},action:"Left""#),
        );
    }
}

#[test]
fn keyboard_input_is_emitted() {
    let check = |input, tail: &str| {
        assert_eq!(keyboard(input), format!(r#""keyboard_input" 7 {{{tail}}}"#));
    };
    let key = Key { code: 65, extended: true };
    check(
        KeyboardInput::Key { key, state: KeyInputState::Pressed },
        r#"kind:"Key",key:{code:65,extended:true},state:"Pressed""#,
    );
    check(
        KeyboardInput::Key { key, state: KeyInputState::Released },
        r#"kind:"Key",key:{code:65,extended:true},state:"Released""#,
    );
    check(KeyboardInput::Char('한'), r#"kind:"Char",ch:"한""#);
    let ime = |ime, tail: &str| check(KeyboardInput::Ime(ime), &format!(r#"kind:"Ime",ime:{{{tail}}}"#));
    ime(
        Ime::Enabled { lang: "ko".into(), conversion: 3 },
        r#"lang:"ko",conversion:3,kind:"Enabled""#,
    );
    ime(Ime::Changed("en".into()), r#"lang:"en",kind:"Changed""#);
    ime(Ime::ConversionChanged(9), r#"conversion:9,kind:"ConversionChanged""#);
    ime(
        Ime::CandidateChanged(ImeCandidateList {
            page_start_index: 1,
            page_size: 2,
            selected_index: 3,
            candidates: vec!["a".into(), "b".into()],
        }),
        r#"list:{pageStartIndex:1,pageSize:2,selectedIndex:3,candidates:["a","b"]},kind:"CandidateChanged""#,
    );
    ime(Ime::CandidateClosed, r#"kind:"CandidateClosed""#);
    ime(Ime::Compose { text: "t".into(), caret: 1 << 40 }, r#"text:"t",caret:1099511627776,kind:"Compose""#);
    ime(Ime::Commit("t".into()), r#"text:"t",kind:"Commit""#);
    ime(Ime::Disabled, r#"kind:"Disabled""#);
}

#[test]
fn augments_are_emitted() {
    let card = AugmentCard {
        instance: 4,
        name: "n".into(),
        description: "d".into(),
        x: 1.5f32.to_bits(),
        y: 2.0f32.to_bits(),
        width: 3.0f32.to_bits(),
        height: 0.25f32.to_bits(),
    };
    let shown = r#"{instance:4,name:"n",description:"d",x:1.5,y:2.0,width:3.0,height:0.25}"#;
    assert_eq!(
        emitted(OverlayEvent::LolAugmentChoices(AugmentChoices {
            mode: "mayhem".into(),
            cards: vec![card.clone(), card],
        })),
        format!(r#""game.lol.augment.choices" {{mode:"mayhem",cards:[{shown},{shown}]}}"#)
    );
    assert_eq!(
        emitted(OverlayEvent::LolAugmentOwned(OwnedAugments {
            internal_names: vec!["A".into(), "B".into()],
        })),
        r#""game.lol.augment.owned" {internalNames:["A","B"]}"#
    );
    assert_eq!(
        emitted(OverlayEvent::LolAugmentReadError("hud_map_not_found".into())),
        r#""game.lol.augment.error" "hud_map_not_found""#
    );
    assert!(overlay_call_next_event(None).is_none());
    let error = OverlayEvent::LolAugmentReadError("e".into());
    assert_eq!(overlay_call_next_event(Some(error)).unwrap().len(), 2);
}

#[test]
fn what_a_script_was_told_is_read_back() {
    let id = GpuLuid { low: u32::MAX, high: i32::MIN };
    assert_eq!(show(&serialize_gpu_luid(id)), "{low:4294967295,high:-2147483648}");
    assert_eq!(deserialize_gpu_luid(u32::MAX as i64, i32::MIN as i64), id);
    let update = UpdateSharedHandle { handle: Some(9) };
    assert_eq!(show(&serialize_handle_update(update)), "{handle:9}");
    assert_eq!(deserialize_handle_update(Some(9)), update);
    let none = UpdateSharedHandle { handle: None };
    assert_eq!(show(&serialize_handle_update(none)), "{}");
    assert_eq!(deserialize_handle_update(None), none);
    assert_eq!(deserialize_handle_update(Some(0)), none);
    assert_eq!(deserialize_handle_update(Some(-4)), none);
    assert_eq!(show(&update_js(Some(update)).unwrap()), "{handle:9}");
    assert!(update_js(None).is_none());
}

#[test]
fn numbers_are_clamped() {
    assert_eq!((to_u32(-1), to_u32(5), to_u32(1 << 40)), (0, 5, u32::MAX));
    assert_eq!((to_i32(-(1 << 40)), to_i32(-5), to_i32(1 << 40)), (i32::MIN, -5, i32::MAX));
    let src = deserialize_rect(1, -2, 3, 1 << 33);
    assert_eq!(src, Rect { x: 1, y: 0, width: 3, height: u32::MAX });
    assert_eq!(deserialize_copy_rect(-7, 8, src), CopyRect { dst_x: 0, dst_y: 8, src });
}

fn arg(ty: &str, value: f32) -> LengthArg {
    LengthArg { ty: ty.into(), value: value.to_bits() }
}

fn request(id: u32, request: WindowRequest) -> Request {
    Request::Window { id, request }
}

#[test]
fn requests_are_made() {
    let half = PercentLength::Percent(0.5f32.to_bits());
    let ten = PercentLength::Length(10.0f32.to_bits());
    let (percent, length) = (arg("percent", 0.5), arg("length", 10.0));
    let bad = arg("Length", 1.0);
    assert_eq!(
        overlay_set_position(7, &percent, &length),
        Ok(request(7, WindowRequest::SetPosition(SetPosition { x: half, y: ten })))
    );
    assert_eq!(overlay_set_position(7, &bad, &length), Err(InvalidPercentLength));
    assert_eq!(
        overlay_set_anchor(-1, &length, &percent),
        Ok(request(0, WindowRequest::SetAnchor(SetAnchor { x: ten, y: half })))
    );
    assert_eq!(overlay_set_anchor(7, &length, &bad), Err(InvalidPercentLength));
    assert_eq!(
        overlay_set_margin(7, &percent, &length, &length, &percent),
        Ok(request(
            7,
            WindowRequest::SetMargin(SetMargin { top: half, right: ten, bottom: ten, left: half })
        ))
    );
    assert_eq!(
        overlay_set_margin(7, &percent, &length, &length, &bad),
        Err(InvalidPercentLength)
    );
    assert_eq!(InvalidPercentLength.message(), "invalid PercentLength type");
    let update = UpdateSharedHandle { handle: Some(3) };
    assert_eq!(
        overlay_update_handle(7, update),
        request(7, WindowRequest::UpdateSharedHandle(update))
    );
    assert_eq!(
        overlay_listen_input(7, true, false),
        request(7, WindowRequest::ListenInput(ListenInput { cursor: true, keyboard: false }))
    );
    assert_eq!(
        overlay_block_input(7, true),
        request(7, WindowRequest::BlockInput(BlockInput { block: true }))
    );
    let cursor = |cursor| request(7, WindowRequest::SetBlockingCursor(SetBlockingCursor { cursor }));
    assert_eq!(overlay_set_blocking_cursor(7, None, &[]), Ok(cursor(None)));
    assert_eq!(overlay_set_blocking_cursor(7, Some(2), &[1, 2]), Ok(cursor(Some(Cursor(2)))));
    assert_eq!(overlay_set_blocking_cursor(7, Some(3), &[1, 2]), Err(InvalidCursor));
    assert_eq!(InvalidCursor.message(), "invalid cursor value");
}

#[test]
fn overlay_is_destroyed_once() {
    let mut overlay = Overlay::new("ipc", "events");
    assert_eq!(overlay.ipc(), Ok(&"ipc"));
    assert_eq!(overlay.events(), Ok(&"events"));
    assert_eq!(overlay.destroy(), Ok(()));
    assert_eq!(overlay.ipc(), Err(OverlayError::Destroyed));
    assert_eq!(overlay.events(), Err(OverlayError::Destroyed));
    assert_eq!(overlay.destroy(), Err(OverlayError::AlreadyDestroyed));
    assert_eq!(OverlayError::Destroyed.message(), "Overlay is destroyed");
    assert_eq!(OverlayError::AlreadyDestroyed.message(), "Overlay is already destroyed");
    let plan = attach(-5, Some(1500));
    assert_eq!((plan.pid, plan.timeout_ms, plan.names.x64), (0, Some(1500), dll_names().x64));
    let plan = attach(1234, None);
    assert_eq!((plan.pid, plan.timeout_ms), (1234, None));
    assert_eq!(attach_context(), "cannot inject to the process");
    let names = dll_names();
    assert_eq!(
        [names.x64, names.x86, names.arm64],
        ["yourgg_overlay-x64.dll", "yourgg_overlay-x86.dll", "yourgg_overlay-aarch64.dll"]
    );
    assert_eq!(Failed::CreateSurface.message("x"), "Failed to create surface. x");
    assert_eq!(Failed::UpdateSurface.message("x"), "Failed to update from shared handle. x");
    assert_eq!(Failed::ListProcesses.message("x"), "Failed to list processes. x");
}

#[test]
fn shared_handles_are_not_truncated() {
    assert_eq!(handle_from_bytes(&0x1234usize.to_ne_bytes()), Ok(0x1234));
    let size = core::mem::size_of::<usize>();
    let err = HandleError::Length { length: 3, expected: size };
    assert_eq!(handle_from_bytes(&[1, 2, 3]), Err(err));
    assert_eq!(err.message(), format!("handle buffer length 3 != size_of::<usize>() {size}"));
    assert_eq!(fit_handle(u32::MAX as usize), Ok(u32::MAX));
    let large = u32::MAX as usize + 0x11;
    let err = HandleError::TooLarge { handle: large };
    assert_eq!(handle_from_bytes(&large.to_ne_bytes()), Err(err));
    assert_eq!(
        err.message(),
        "shared handle 0x100000010 does not fit in 32 bits; cannot pass without truncation"
    );
    assert_eq!(surface_adapter::<u8, u8>(None), Ok(None));
    assert_eq!(surface_adapter::<u8, u8>(Some(Ok(Some(1)))), Ok(Some(1)));
    assert_eq!(surface_adapter::<u8, u8>(Some(Ok(None))), Ok(None));
    assert_eq!(surface_adapter::<u8, u8>(Some(Err(2))), Err(2));
}

#[test]
fn processes_are_listed() {
    let units = |text: &str| {
        let mut buffer: Vec<u16> = text.encode_utf16().collect();
        buffer.resize(260, 0);
        buffer
    };
    let mut junk = units("a.exe");
    junk[6] = 'z' as u16;
    let entries = vec![
        SnapshotEntry { pid: 4, exe_file: units("League of Legends.exe") },
        SnapshotEntry { pid: 5, exe_file: units("게임😀.exe") },
        SnapshotEntry { pid: 6, exe_file: junk },
        SnapshotEntry { pid: 7, exe_file: vec!['x' as u16, 0xd800, 'y' as u16] },
        SnapshotEntry { pid: 8, exe_file: vec![0] },
    ];
    let processes = list_processes(&entries);
    let names: Vec<(u32, &str)> = processes.iter().map(|p| (p.pid, p.name.as_str())).collect();
    assert_eq!(
        names,
        vec![
            (4, "League of Legends.exe"),
            (5, "게임😀.exe"),
            (6, "a.exe"),
            (7, "x\u{fffd}y"),
            (8, ""),
        ]
    );
    assert_eq!(
        show(&list_processes_js(&list_processes(&entries[..1].iter().map(|e| SnapshotEntry {
            pid: e.pid,
            exe_file: e.exe_file.clone(),
        }).collect()))),
        r#"[{pid:4,name:"League of Legends.exe"}]"#
    );
    assert!(list_processes(&vec![]).is_empty());
}

#[test]
fn numbers_are_printed() {
    for n in [0, 9, 10, 99, 12345, u64::MAX] {
        let mut text = String::from("n=");
        append_decimal(&mut text, n);
        assert_eq!(text, format!("n={n}"));
        let mut text = String::new();
        append_hex(&mut text, n);
        assert_eq!(text, format!("{n:#x}"));
    }
    for n in [0, 0xabc, u32::MAX] {
        let mut text = String::new();
        append_hex_word(&mut text, n);
        assert_eq!(text, format!("{n:#010x}"));
    }
}
