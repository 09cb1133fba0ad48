use asdf_overlay::codec::{decode_packet, encode_packet, MalformedPacket};
use asdf_overlay::event::{
    AugmentCard, AugmentChoices, CursorAction, CursorEvent, CursorInput, CursorInputState, GpuLuid,
    Ime, ImeCandidateList, InputEvent, InputPosition, Key, KeyInputState, KeyboardInput,
    OverlayEvent, OwnedAugments, ScrollAxis, WindowEvent,
};
use asdf_overlay::wire::ServerToClientPacket;

#[test]
fn augment_choices_round_trip_through_ipc_packet() {
    let expected = AugmentChoices {
        mode: "mayhem".into(),
        cards: vec![AugmentCard {
            instance: 7,
            name: "Test Augment".into(),
            description: "Test Description".into(),
            x: 120.0f32.to_bits(),
            y: 240.0f32.to_bits(),
            width: 300.0f32.to_bits(),
            height: 420.0f32.to_bits(),
        }],
    };
    let packet = ServerToClientPacket::Event(OverlayEvent::LolAugmentChoices(expected.clone()));

    let encoded = encode_packet(&packet);
    let (decoded, consumed) = decode_packet(&encoded).unwrap();

    assert_eq!(consumed, encoded.len());
    let ServerToClientPacket::Event(OverlayEvent::LolAugmentChoices(actual)) = decoded else {
        panic!("decoded packet was not an augment choices event");
    };
    assert_eq!(actual, expected);
}

fn round_trip(packet: ServerToClientPacket) {
    let encoded = encode_packet(&packet);
    let mut longer = encoded.clone();
    longer.extend_from_slice(&[0xff, 0x00]);
    let (decoded, consumed) = decode_packet(&longer).unwrap();
    assert_eq!(consumed, encoded.len());
    assert_eq!(format!("{decoded:?}"), format!("{packet:?}"));
    for cut in 0..encoded.len() {
        assert!(decode_packet(&encoded[..cut]).is_err());
    }
}

fn window(event: WindowEvent) -> ServerToClientPacket {
    ServerToClientPacket::Event(OverlayEvent::Window { id: 70_000, event })
}

#[test]
fn every_kind_of_packet_round_trips() {
    round_trip(ServerToClientPacket::Response { id: 300, success: true });
    round_trip(ServerToClientPacket::Response { id: u32::MAX, success: false });
    round_trip(window(WindowEvent::Added {
        width: 1920,
        height: 1080,
        gpu_id: GpuLuid { low: 251, high: -1 },
    }));
    round_trip(window(WindowEvent::Resized { width: 0, height: u32::MAX }));
    round_trip(window(WindowEvent::InputBlockingEnded));
    round_trip(window(WindowEvent::Destroyed));
    for event in [
        CursorEvent::Enter,
        CursorEvent::Leave,
        CursorEvent::Move,
        CursorEvent::Scroll { axis: ScrollAxis::Y, delta: -120 },
        CursorEvent::Action {
            state: CursorInputState::Pressed { double_click: true },
            action: CursorAction::Forward,
        },
        CursorEvent::Action { state: CursorInputState::Released, action: CursorAction::Left },
    ] {
        round_trip(window(WindowEvent::Input(InputEvent::Cursor(CursorInput {
            event,
            client: InputPosition { x: -5, y: 40_000 },
            window: InputPosition { x: i32::MIN, y: i32::MAX },
        }))));
    }
    for input in [
        KeyboardInput::Key {
            key: Key { code: 255, extended: true },
            state: KeyInputState::Released,
        },
        KeyboardInput::Char('한'),
        KeyboardInput::Ime(Ime::Enabled { lang: "ko-KR".into(), conversion: 9 }),
        KeyboardInput::Ime(Ime::Changed("en".into())),
        KeyboardInput::Ime(Ime::ConversionChanged(1 << 31)),
        KeyboardInput::Ime(Ime::CandidateChanged(ImeCandidateList {
            page_start_index: 1,
            page_size: 2,
            selected_index: 3,
            candidates: vec!["가".into(), String::new(), "나다".into()],
        })),
        KeyboardInput::Ime(Ime::CandidateClosed),
        KeyboardInput::Ime(Ime::Compose { text: "ㅎ".into(), caret: u64::MAX }),
        KeyboardInput::Ime(Ime::Commit("하".into())),
        KeyboardInput::Ime(Ime::Disabled),
    ] {
        round_trip(window(WindowEvent::Input(InputEvent::Keyboard(input))));
    }
    round_trip(ServerToClientPacket::Event(OverlayEvent::LolAugmentOwned(OwnedAugments {
        internal_names: vec!["A".into(), "B".into()],
    })));
    round_trip(ServerToClientPacket::Event(OverlayEvent::LolAugmentReadError(
        "hud_map_not_found".into(),
    )));
}

#[test]
fn packets_have_the_layout_of_the_crate_that_writes_them() {
    let config = bincode::config::standard();
    let packet = ServerToClientPacket::Response { id: 251, success: true };
    let expected = bincode::encode_to_vec((0u32, 251u32, true), config).unwrap();
    assert_eq!(encode_packet(&packet), expected);
    assert_eq!(expected, vec![0, 251, 251, 0, 1]);

    let packet = window(WindowEvent::Added {
        width: 65_536,
        height: 3,
        gpu_id: GpuLuid { low: 9, high: -300 },
    });
    let fields = (1u32, 0u32, 70_000u32, 0u32, 65_536u32, 3u32, 9u32, -300i32);
    let expected = bincode::encode_to_vec(fields, config).unwrap();
    assert_eq!(encode_packet(&packet), expected);

    let packet = ServerToClientPacket::Event(OverlayEvent::LolAugmentChoices(AugmentChoices {
        mode: "arena".into(),
        cards: vec![AugmentCard {
            instance: 1,
            name: "이름".into(),
            description: String::new(),
            x: 1.5f32.to_bits(),
            y: (-0.0f32).to_bits(),
            width: f32::MAX.to_bits(),
            height: f32::INFINITY.to_bits(),
        }],
    }));
    let card = (1u32, "이름", "", 1.5f32, -0.0f32, f32::MAX, f32::INFINITY);
    let expected = bincode::encode_to_vec((1u32, 1u32, "arena", vec![card]), config).unwrap();
    assert_eq!(encode_packet(&packet), expected);

    let packet = window(WindowEvent::Input(InputEvent::Keyboard(KeyboardInput::Char('é'))));
    let expected = bincode::encode_to_vec((1u32, 0u32, 70_000u32, 2u32, 1u32, 1u32, 'é'), config);
    assert_eq!(encode_packet(&packet), expected.unwrap());
}

#[test]
fn malformed_packets_are_refused() {
    assert_eq!(decode_packet(&[]).err(), Some(MalformedPacket));
    assert_eq!(decode_packet(&[2]).err(), Some(MalformedPacket));
    // a flag that is neither false nor true
    assert_eq!(decode_packet(&[0, 1, 2]).err(), Some(MalformedPacket));
    // text that is not UTF-8
    assert_eq!(decode_packet(&[1, 2, 1, 0xff]).err(), Some(MalformedPacket));
    // text longer than what there is
    assert_eq!(decode_packet(&[1, 2, 253, 255, 255, 255, 255, 255, 255, 255, 127]).err(), Some(MalformedPacket));
    // a key without a code
    assert_eq!(decode_packet(&[1, 0, 1, 2, 1, 0, 0, 0, 0]).err(), Some(MalformedPacket));
    assert!(decode_packet(&[1, 0, 1, 2, 1, 0, 1, 0, 0]).is_ok());
}
