use appjs_bridge::codec::{
    decode_command, decode_event, encode_command, encode_event, encode_frame, parse_frame,
};
use appjs_bridge::protocol::{JsToRustMessage, RustToJsMessage, UiEvent, WidgetActionKind};

fn command_round_trip(m: JsToRustMessage) -> JsToRustMessage {
    let bytes = encode_command(&m).expect("command should fit the wire");
    decode_command(&bytes).expect("encoded command should decode")
}

fn event_round_trip(m: RustToJsMessage) -> RustToJsMessage {
    let bytes = encode_event(&m).expect("event should fit the wire");
    decode_event(&bytes).expect("encoded event should decode")
}

#[test]
fn round_trip_set_title() {
    match command_round_trip(JsToRustMessage::SetTitle { title: "My App".to_string() }) {
        JsToRustMessage::SetTitle { title } => assert_eq!(title, "My App"),
        other => panic!("wrong variant: {:?}", other),
    }
}

#[test]
fn round_trip_empty_strings_and_blobs() {
    // payload edge cases: empty title, empty binary blob
    match command_round_trip(JsToRustMessage::SetTitle { title: String::new() }) {
        JsToRustMessage::SetTitle { title } => assert_eq!(title, ""),
        other => panic!("wrong variant: {:?}", other),
    }
    match command_round_trip(JsToRustMessage::SetImageData {
        id: "img".to_string(),
        data: Vec::new(),
    }) {
        JsToRustMessage::SetImageData { id, data } => {
            assert_eq!(id, "img");
            assert_eq!(data.len(), 0);
        },
        other => panic!("wrong variant: {:?}", other),
    }
}

#[test]
fn round_trip_create_widget_full() {
    // a fully loaded creation, nested style payload included
    let style = "{\"color\": \"#A0B0C0\", \"padding\": \"4, 8\", \"fontWeight\": \"bold\", \
                 \"direction\": \"row\", \"background\": \"rgba(1,2,3,0.5)\"}";
    let m = JsToRustMessage::CreateWidget {
        id: "w1".to_string(),
        kind: "label".to_string(),
        parent_id: Some("box".to_string()),
        text: Some("hello \u{263a} world".to_string()),
        style_json: Some(style.to_string()),
        widget_params_json: None,
        data: Some(vec![0, 1, 2, 254, 255]),
    };
    match command_round_trip(m) {
        JsToRustMessage::CreateWidget {
            id,
            kind,
            parent_id,
            text,
            style_json,
            widget_params_json,
            data,
        } => {
            assert_eq!(id, "w1");
            assert_eq!(kind, "label");
            assert_eq!(parent_id.as_deref(), Some("box"));
            assert_eq!(text.as_deref(), Some("hello \u{263a} world"));
            assert_eq!(style_json.as_deref(), Some(style));
            assert!(widget_params_json.is_none());
            assert_eq!(data, Some(vec![0, 1, 2, 254, 255]));
        },
        other => panic!("wrong variant: {:?}", other),
    }
}

#[test]
fn round_trip_every_command_variant() {
    command_round_trip(JsToRustMessage::RemoveWidget { id: "a".to_string() });
    command_round_trip(JsToRustMessage::SetWidgetText {
        id: "a".to_string(),
        text: "t".to_string(),
    });
    command_round_trip(JsToRustMessage::SetWidgetVisible { id: "a".to_string(), visible: true });
    command_round_trip(JsToRustMessage::SetWidgetStyle {
        id: "a".to_string(),
        style_json: "{}".to_string(),
    });
    command_round_trip(JsToRustMessage::SetStyleProperty {
        id: "a".to_string(),
        property: "color".to_string(),
        value: "red".to_string(),
    });
    match command_round_trip(JsToRustMessage::SetWidgetValue {
        id: "a".to_string(),
        bits: 0x3FE0000000000000,
    }) {
        JsToRustMessage::SetWidgetValue { bits, .. } => assert_eq!(bits, 0x3FE0000000000000),
        other => panic!("wrong variant: {:?}", other),
    }
    command_round_trip(JsToRustMessage::SetWidgetChecked { id: "a".to_string(), checked: false });
    match command_round_trip(JsToRustMessage::ResizeWindow { width: 1920, height: 1080 }) {
        JsToRustMessage::ResizeWindow { width, height } => {
            assert_eq!((width, height), (1920, 1080));
        },
        other => panic!("wrong variant: {:?}", other),
    }
    assert!(matches!(
        command_round_trip(JsToRustMessage::CloseWindow),
        JsToRustMessage::CloseWindow
    ));
    assert!(matches!(command_round_trip(JsToRustMessage::ExitApp), JsToRustMessage::ExitApp));
}

#[test]
fn round_trip_every_event_variant() {
    assert!(matches!(event_round_trip(RustToJsMessage::Shutdown), RustToJsMessage::Shutdown));
    match event_round_trip(RustToJsMessage::RuntimeError {
        source: "ui-handler".to_string(),
        message: "widget not found".to_string(),
        fatal: false,
    }) {
        RustToJsMessage::RuntimeError { source, message, fatal } => {
            assert_eq!(source, "ui-handler");
            assert_eq!(message, "widget not found");
            assert!(!fatal);
        },
        other => panic!("wrong variant: {:?}", other),
    }
    let actions = vec![
        WidgetActionKind::Click,
        WidgetActionKind::DoubleClick,
        WidgetActionKind::TextChanged("abc".to_string()),
        WidgetActionKind::ValueChanged { bits: 0x4000000000000000 },
        WidgetActionKind::Custom("hover".to_string()),
    ];
    for action in actions {
        let m = RustToJsMessage::UiEvent {
            event: UiEvent::WidgetAction { widget_id: "w".to_string(), action: action.clone() },
        };
        let back = event_round_trip(m);
        match back {
            RustToJsMessage::UiEvent { event: UiEvent::WidgetAction { widget_id, action: a } } => {
                assert_eq!(widget_id, "w");
                assert_eq!(format!("{:?}", a), format!("{:?}", action));
            },
            other => panic!("wrong variant: {:?}", other),
        }
    }
    event_round_trip(RustToJsMessage::UiEvent {
        event: UiEvent::WindowResized { width: 800, height: 600 },
    });
    event_round_trip(RustToJsMessage::UiEvent { event: UiEvent::WindowCloseRequested });
    event_round_trip(RustToJsMessage::UiEvent { event: UiEvent::AppExit });
}

#[test]
fn frame_round_trip_and_partial_reads() {
    let payload = vec![9u8, 8, 7, 6, 5];
    let frame = encode_frame(&payload).unwrap();
    assert_eq!(frame.len(), 4 + payload.len());
    assert_eq!(&frame[0..4], &[5, 0, 0, 0]);

    let (got, consumed) = parse_frame(&frame).unwrap();
    assert_eq!(got, payload);
    assert_eq!(consumed, frame.len());

    // a short read mid-frame is not yet a frame
    assert!(parse_frame(&frame[0..3].to_vec()).is_none());
    assert!(parse_frame(&frame[0..6].to_vec()).is_none());

    // two frames buffered back to back: the first parses, the rest stays
    let mut two = frame.clone();
    two.extend_from_slice(&encode_frame(&vec![1u8]).unwrap());
    let (got, consumed) = parse_frame(&two).unwrap();
    assert_eq!(got, payload);
    assert_eq!(consumed, 9);
}

#[test]
fn malformed_payload_is_rejected() {
    // not a map at all
    assert!(decode_command(&vec![0xc0]).is_none());
    // an unknown type tag
    let m = RustToJsMessage::Shutdown;
    let bytes = encode_event(&m).unwrap();
    assert!(decode_command(&bytes).is_none());
    // trailing garbage after the map
    let mut bytes = encode_command(&JsToRustMessage::CloseWindow).unwrap();
    bytes.push(0);
    assert!(decode_command(&bytes).is_none());
    // truncated payload
    let bytes = encode_command(&JsToRustMessage::SetTitle { title: "abc".to_string() }).unwrap();
    assert!(decode_command(&bytes[0..bytes.len() - 1].to_vec()).is_none());
}
