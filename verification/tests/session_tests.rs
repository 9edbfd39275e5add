use appjs_bridge::codec::{decode_event, parse_frame};
use appjs_bridge::kind::WidgetKind;
use appjs_bridge::registry::WidgetInfo;
use appjs_bridge::protocol::RustToJsMessage;
use appjs_bridge::registry::WidgetManager;
use appjs_bridge::session::{event_frame, runtime_error_frame, Session};

#[test]
fn scenario_clean_disconnect_shuts_down_once() {
    // client disconnects with nothing pending: the host emits exactly one
    // shutdown frame and exactly one native exit signal, and a repeated
    // disconnect report emits neither again
    let mut session = Session::new();

    let (send_shutdown, send_exit) = session.wind_down();
    assert!(send_shutdown, "the first wind-down sends the terminal frame");
    assert!(send_exit, "the first wind-down signals the native side once");

    let frame = event_frame(&RustToJsMessage::Shutdown).unwrap();
    let (payload, consumed) = parse_frame(&frame).unwrap();
    assert_eq!(consumed, frame.len());
    assert!(matches!(decode_event(&payload).unwrap(), RustToJsMessage::Shutdown));

    let (again_shutdown, again_exit) = session.wind_down();
    assert!(!again_shutdown, "no second terminal frame");
    assert!(!again_exit, "no second exit signal");
}

#[test]
fn diagnostics_travel_as_non_fatal_error_frames() {
    let frame = runtime_error_frame("ui-handler", "widget 'x' not found", false).unwrap();
    let (payload, _) = parse_frame(&frame).unwrap();
    match decode_event(&payload).unwrap() {
        RustToJsMessage::RuntimeError { source, message, fatal } => {
            assert_eq!(source, "ui-handler");
            assert_eq!(message, "widget 'x' not found");
            assert!(!fatal);
        },
        other => panic!("wrong message: {:?}", other),
    }
}

#[test]
fn registry_counts_stay_contiguous_under_churn() {
    // direct registry use: the child indices under one parent are always
    // exactly 0..n, whatever order things are created and removed in
    let mut mgr = WidgetManager::new();
    for name in ["a", "b", "c", "d"] {
        let handle = mgr.fresh_handle();
        let idx = mgr.next_child_index("__root__");
        let ok = mgr.register(
            name.to_string(),
            WidgetInfo {
                widget_id: handle,
                kind: WidgetKind::Label,
                parent_id: None,
                child_index: idx,
            },
        );
        assert!(ok);
    }
    assert_eq!(mgr.current_child_count("__root__"), 4);

    assert!(mgr.remove_widget_subtree("b").is_some());
    assert_eq!(mgr.current_child_count("__root__"), 3);
    let mut seen = [false; 3];
    for name in ["a", "c", "d"] {
        let idx = mgr.get(name).unwrap().child_index;
        assert!(idx < 3);
        assert!(!seen[idx], "duplicate child index {}", idx);
        seen[idx] = true;
    }
    assert!(seen.iter().all(|s| *s));

    // removing an absent id is a no-op that reports nothing was found
    assert!(mgr.remove_widget_subtree("b").is_none());
    assert_eq!(mgr.current_child_count("__root__"), 3);

    // a duplicate id, the reserved id, and a stale index are all refused
    let handle = mgr.fresh_handle();
    let dup = WidgetInfo {
        widget_id: handle,
        kind: WidgetKind::Label,
        parent_id: None,
        child_index: mgr.next_child_index("__root__"),
    };
    assert!(!mgr.register("a".to_string(), dup));
    let handle = mgr.fresh_handle();
    let rooted = WidgetInfo {
        widget_id: handle,
        kind: WidgetKind::Label,
        parent_id: None,
        child_index: 0,
    };
    assert!(!mgr.register("__root__".to_string(), rooted));
    let handle = mgr.fresh_handle();
    let stale = WidgetInfo {
        widget_id: handle,
        kind: WidgetKind::Label,
        parent_id: None,
        child_index: 7,
    };
    assert!(!mgr.register("e".to_string(), stale));
}

#[test]
fn subtree_removal_takes_descendants_along() {
    let mut mgr = WidgetManager::new();
    let mut add = |mgr: &mut WidgetManager, id: &str, parent: Option<&str>, kind: WidgetKind| {
        let handle = mgr.fresh_handle();
        let key = parent.unwrap_or("__root__");
        let idx = mgr.next_child_index(key);
        let ok = mgr.register(
            id.to_string(),
            WidgetInfo {
                widget_id: handle,
                kind,
                parent_id: parent.map(|p| p.to_string()),
                child_index: idx,
            },
        );
        assert!(ok, "registering '{}' should succeed", id);
    };
    add(&mut mgr, "root_box", None, WidgetKind::Flex);
    add(&mut mgr, "inner", Some("root_box"), WidgetKind::Flex);
    add(&mut mgr, "leaf1", Some("inner"), WidgetKind::Label);
    add(&mut mgr, "leaf2", Some("inner"), WidgetKind::Label);
    add(&mut mgr, "aside", None, WidgetKind::Label);

    let removed = mgr.remove_widget_subtree("root_box").unwrap();
    assert_eq!(removed.kind, WidgetKind::Flex);
    assert!(mgr.get("root_box").is_none());
    assert!(mgr.get("inner").is_none());
    assert!(mgr.get("leaf1").is_none());
    assert!(mgr.get("leaf2").is_none());
    assert_eq!(mgr.get("aside").unwrap().child_index, 0);
    assert_eq!(mgr.current_child_count("__root__"), 1);
}
