use appjs_bridge::kind::WidgetKind;
use appjs_bridge::num::Num;
use appjs_bridge::protocol::{
    handle_client_message, runtime_error_from_ui_event, JsCommand, JsCommandAction,
    JsToRustMessage, RustToJsMessage, UiEvent, WidgetActionKind, WidgetData,
};

#[test]
fn test_js_command_action_debug() {
    let cmd = JsCommand::SetTitle("Test".to_string());
    let action = JsCommandAction(cmd);
    let debug_str = format!("{:?}", action);
    assert!(debug_str.contains("JsCommandAction"));
    assert!(debug_str.contains("SetTitle"));
}

#[test]
fn test_ui_event_channel() {
    // UI events can be sent and received through an mpsc channel
    let (tx, rx) = std::sync::mpsc::channel::<UiEvent>();

    tx.send(UiEvent::WidgetAction {
        widget_id: "test".to_string(),
        action: WidgetActionKind::Click,
    })
    .expect("Failed to send UI event");

    let event = rx.recv().expect("Failed to receive UI event");

    match event {
        UiEvent::WidgetAction { widget_id, action } => {
            assert_eq!(widget_id, "test");
            match action {
                WidgetActionKind::Click => {},
                _ => panic!("Unexpected action type"),
            }
        },
        _ => panic!("Unexpected event type"),
    }
}

#[test]
fn wire_command_becomes_typed_command() {
    let msg = JsToRustMessage::CreateWidget {
        id: "s1".to_string(),
        kind: "slider".to_string(),
        parent_id: Some("__root__".to_string()),
        text: None,
        style_json: Some("{\"fontSize\": 12}".to_string()),
        widget_params_json: Some("{\"min\": 0, \"max\": 10, \"value\": 2.5}".to_string()),
        data: None,
    };
    match handle_client_message(msg).unwrap() {
        JsCommand::CreateWidget { id, kind, parent_id, style, data, .. } => {
            assert_eq!(id, "s1");
            assert_eq!(kind, WidgetKind::Slider);
            assert_eq!(parent_id.as_deref(), Some("__root__"));
            let style = style.expect("style payload should parse");
            assert_eq!(style.font_size, Some(Num { neg: false, mant: 12, scale: 0 }));
            match data.expect("slider data should build") {
                WidgetData::Slider { min, max, value, step } => {
                    assert_eq!(min, Num { neg: false, mant: 0, scale: 0 });
                    assert_eq!(max, Num { neg: false, mant: 10, scale: 0 });
                    assert_eq!(value, Num { neg: false, mant: 25, scale: 1 });
                    assert!(step.is_none());
                },
                other => panic!("wrong data: {:?}", other),
            }
        },
        other => panic!("wrong command: {:?}", other),
    }
}

#[test]
fn slider_defaults_follow_the_parameter_table() {
    let msg = JsToRustMessage::CreateWidget {
        id: "s2".to_string(),
        kind: "slider".to_string(),
        parent_id: None,
        text: None,
        style_json: None,
        widget_params_json: None,
        data: None,
    };
    match handle_client_message(msg).unwrap() {
        JsCommand::CreateWidget { data, .. } => match data.unwrap() {
            WidgetData::Slider { min, max, value, step } => {
                assert_eq!(min, Num { neg: false, mant: 0, scale: 0 });
                assert_eq!(max, Num { neg: false, mant: 1, scale: 0 });
                assert_eq!(value, Num { neg: false, mant: 5, scale: 1 });
                assert!(step.is_none());
            },
            other => panic!("wrong data: {:?}", other),
        },
        other => panic!("wrong command: {:?}", other),
    }
}

#[test]
fn image_without_bytes_builds_no_data() {
    let msg = JsToRustMessage::CreateWidget {
        id: "i1".to_string(),
        kind: "image".to_string(),
        parent_id: None,
        text: None,
        style_json: None,
        widget_params_json: None,
        data: None,
    };
    match handle_client_message(msg).unwrap() {
        JsCommand::CreateWidget { data, .. } => assert!(data.is_none()),
        other => panic!("wrong command: {:?}", other),
    }

    let msg = JsToRustMessage::CreateWidget {
        id: "i2".to_string(),
        kind: "image".to_string(),
        parent_id: None,
        text: None,
        style_json: None,
        widget_params_json: Some("{\"objectFit\": \"cover\"}".to_string()),
        data: Some(vec![1, 2, 3]),
    };
    match handle_client_message(msg).unwrap() {
        JsCommand::CreateWidget { data, .. } => match data.unwrap() {
            WidgetData::Image { data, object_fit } => {
                assert_eq!(data, vec![1, 2, 3]);
                assert_eq!(object_fit.as_deref(), Some("cover"));
            },
            other => panic!("wrong data: {:?}", other),
        },
        other => panic!("wrong command: {:?}", other),
    }
}

#[test]
fn checkbox_reads_its_initial_state_from_params() {
    let msg = JsToRustMessage::CreateWidget {
        id: "c1".to_string(),
        kind: "checkbox".to_string(),
        parent_id: None,
        text: Some("agree".to_string()),
        style_json: Some("{\"checked\": true}".to_string()),
        widget_params_json: None,
        data: None,
    };
    match handle_client_message(msg).unwrap() {
        JsCommand::CreateWidget { data, .. } => {
            assert!(matches!(data.unwrap(), WidgetData::Checkbox { checked: true }));
        },
        other => panic!("wrong command: {:?}", other),
    }
}

#[test]
fn simple_wire_commands_map_one_to_one() {
    match handle_client_message(JsToRustMessage::SetWidgetValue {
        id: "p".to_string(),
        bits: 77,
    })
    .unwrap()
    {
        JsCommand::SetWidgetValue { id, bits } => {
            assert_eq!(id, "p");
            assert_eq!(bits, 77);
        },
        other => panic!("wrong command: {:?}", other),
    }
    assert!(matches!(
        handle_client_message(JsToRustMessage::CloseWindow).unwrap(),
        JsCommand::CloseWindow
    ));
    assert!(matches!(
        handle_client_message(JsToRustMessage::ExitApp).unwrap(),
        JsCommand::ExitApp
    ));
}

#[test]
fn error_events_take_the_error_frame_shape() {
    let lifted = runtime_error_from_ui_event(UiEvent::RuntimeError {
        source: "socket-read".to_string(),
        message: "bad frame".to_string(),
        fatal: false,
    });
    match lifted {
        RustToJsMessage::RuntimeError { source, message, fatal } => {
            assert_eq!(source, "socket-read");
            assert_eq!(message, "bad frame");
            assert!(!fatal);
        },
        other => panic!("wrong message: {:?}", other),
    }

    let passed = runtime_error_from_ui_event(UiEvent::AppExit);
    assert!(matches!(passed, RustToJsMessage::UiEvent { event: UiEvent::AppExit }));
}
