use appjs_bridge::dispatcher::{handle_js_command, NativeOp};
use appjs_bridge::kind::WidgetKind;
use appjs_bridge::protocol::JsCommand;
use appjs_bridge::registry::WidgetManager;

fn create(mgr: &mut WidgetManager, id: &str, kind: WidgetKind, parent: Option<&str>) {
    // creation data is not needed by these scenarios; an attaching vector
    // widget would want a markup payload
    let (ops, diags) = handle_js_command(
        mgr,
        JsCommand::CreateWidget {
            id: id.to_string(),
            kind,
            parent_id: parent.map(|p| p.to_string()),
            text: None,
            style: None,
            data: None,
        },
    );
    assert_eq!(ops.len(), 1, "creation of '{}' should attach one widget", id);
    assert_eq!(diags.len(), 0, "creation of '{}' should not complain", id);
}

#[test]
fn scenario_remove_reindexes_sibling() {
    // create root-child labels "a" and "b", remove "a": "b" moves to index 0
    let mut mgr = WidgetManager::new();
    create(&mut mgr, "a", WidgetKind::Label, None);
    create(&mut mgr, "b", WidgetKind::Label, None);
    assert_eq!(mgr.get("a").unwrap().child_index, 0);
    assert_eq!(mgr.get("b").unwrap().child_index, 1);

    let (ops, diags) = handle_js_command(&mut mgr, JsCommand::RemoveWidget { id: "a".to_string() });
    assert_eq!(diags.len(), 0);
    assert_eq!(ops.len(), 1);
    assert!(matches!(ops[0], NativeOp::RemoveChildAt { parent: None, index: 0, .. }));

    assert!(mgr.get("a").is_none());
    assert_eq!(mgr.get("b").unwrap().child_index, 0);
    assert_eq!(mgr.current_child_count("__root__"), 1);
}

#[test]
fn scenario_remove_container_subtree() {
    // a flex container with three children: removing the middle child and
    // then the container leaves nothing behind, and no removal ever aims
    // beyond the live sibling count
    let mut mgr = WidgetManager::new();
    create(&mut mgr, "box", WidgetKind::Flex, None);
    create(&mut mgr, "c1", WidgetKind::Label, Some("box"));
    create(&mut mgr, "c2", WidgetKind::Label, Some("box"));
    create(&mut mgr, "c3", WidgetKind::Label, Some("box"));
    assert_eq!(mgr.current_child_count("box"), 3);

    let live = mgr.current_child_count("box");
    let (ops, diags) = handle_js_command(&mut mgr, JsCommand::RemoveWidget { id: "c2".to_string() });
    assert_eq!(diags.len(), 0);
    assert_eq!(ops.len(), 1);
    match &ops[0] {
        NativeOp::RemoveChildAt { index, .. } => assert!(*index < live),
        other => panic!("unexpected op: {:?}", other),
    }
    assert_eq!(mgr.current_child_count("box"), 2);
    assert_eq!(mgr.get("c1").unwrap().child_index, 0);
    assert_eq!(mgr.get("c3").unwrap().child_index, 1);

    let live_root = mgr.current_child_count("__root__");
    let (ops, diags) = handle_js_command(&mut mgr, JsCommand::RemoveWidget { id: "box".to_string() });
    assert_eq!(diags.len(), 0);
    assert_eq!(ops.len(), 1);
    match &ops[0] {
        NativeOp::RemoveChildAt { index, .. } => assert!(*index < live_root),
        other => panic!("unexpected op: {:?}", other),
    }
    assert!(mgr.get("box").is_none());
    assert!(mgr.get("c1").is_none());
    assert!(mgr.get("c3").is_none());
    assert_eq!(mgr.current_child_count("__root__"), 0);
}

#[test]
fn removal_is_idempotent() {
    // the second removal of one id makes no mutation and reports once
    let mut mgr = WidgetManager::new();
    create(&mut mgr, "x", WidgetKind::Label, None);

    let (ops1, diags1) = handle_js_command(&mut mgr, JsCommand::RemoveWidget { id: "x".to_string() });
    assert_eq!(ops1.len(), 1);
    assert_eq!(diags1.len(), 0);
    let count_after_first = mgr.current_child_count("__root__");

    let (ops2, diags2) = handle_js_command(&mut mgr, JsCommand::RemoveWidget { id: "x".to_string() });
    assert_eq!(ops2.len(), 0, "second removal must not mutate the native tree");
    assert_eq!(diags2.len(), 1, "second removal must report exactly once");
    assert!(!diags2[0].fatal);
    assert_eq!(mgr.current_child_count("__root__"), count_after_first);
}

#[test]
fn unknown_id_yields_one_diagnostic() {
    // setting text on an id never created reports once and breaks nothing
    let mut mgr = WidgetManager::new();
    let (ops, diags) = handle_js_command(
        &mut mgr,
        JsCommand::SetWidgetText { id: "ghost".to_string(), text: "hello".to_string() },
    );
    assert_eq!(ops.len(), 0);
    assert_eq!(diags.len(), 1);
    assert!(!diags[0].fatal);

    // the session keeps working afterwards
    create(&mut mgr, "real", WidgetKind::Label, None);
    let (ops, diags) = handle_js_command(
        &mut mgr,
        JsCommand::SetWidgetText { id: "real".to_string(), text: "hello".to_string() },
    );
    assert_eq!(ops.len(), 1);
    assert_eq!(diags.len(), 0);
}

#[test]
fn capability_gating_rejects_illegal_pairs() {
    let mut mgr = WidgetManager::new();
    create(&mut mgr, "cb", WidgetKind::Checkbox, None);
    create(&mut mgr, "lbl", WidgetKind::Label, None);

    // text on a checkbox: not declared legal
    let (ops, diags) = handle_js_command(
        &mut mgr,
        JsCommand::SetWidgetText { id: "cb".to_string(), text: "no".to_string() },
    );
    assert_eq!(ops.len(), 0);
    assert_eq!(diags.len(), 1);
    assert!(!diags[0].fatal);

    // checked state on a label: not declared legal
    let (ops, diags) = handle_js_command(
        &mut mgr,
        JsCommand::SetWidgetChecked { id: "lbl".to_string(), checked: true },
    );
    assert_eq!(ops.len(), 0);
    assert_eq!(diags.len(), 1);

    // numeric value on a label: not declared legal
    let (ops, diags) = handle_js_command(
        &mut mgr,
        JsCommand::SetWidgetValue { id: "lbl".to_string(), bits: 0 },
    );
    assert_eq!(ops.len(), 0);
    assert_eq!(diags.len(), 1);

    // visibility is not supported on any kind
    let (ops, diags) = handle_js_command(
        &mut mgr,
        JsCommand::SetWidgetVisible { id: "lbl".to_string(), visible: false },
    );
    assert_eq!(ops.len(), 0);
    assert_eq!(diags.len(), 1);

    // but the legal pairs go through
    let (ops, diags) = handle_js_command(
        &mut mgr,
        JsCommand::SetWidgetChecked { id: "cb".to_string(), checked: true },
    );
    assert_eq!(ops.len(), 1);
    assert_eq!(diags.len(), 0);
    assert!(matches!(ops[0], NativeOp::SetChecked { checked: true, .. }));
}

#[test]
fn create_under_leaf_parent_is_refused() {
    let mut mgr = WidgetManager::new();
    create(&mut mgr, "lbl", WidgetKind::Label, None);
    let (ops, diags) = handle_js_command(
        &mut mgr,
        JsCommand::CreateWidget {
            id: "kid".to_string(),
            kind: WidgetKind::Label,
            parent_id: Some("lbl".to_string()),
            text: None,
            style: None,
            data: None,
        },
    );
    assert_eq!(ops.len(), 0);
    assert_eq!(diags.len(), 1);
    assert!(mgr.get("kid").is_none());
    assert_eq!(
        diags[0].message,
        "parent 'lbl' of kind Label cannot hold children for 'kid'"
    );
}

#[test]
fn single_slot_parent_rejects_second_child() {
    let mut mgr = WidgetManager::new();
    create(&mut mgr, "slot", WidgetKind::SizedBox, None);
    create(&mut mgr, "first", WidgetKind::Label, Some("slot"));
    let (ops, diags) = handle_js_command(
        &mut mgr,
        JsCommand::CreateWidget {
            id: "second".to_string(),
            kind: WidgetKind::Label,
            parent_id: Some("slot".to_string()),
            text: None,
            style: None,
            data: None,
        },
    );
    assert_eq!(ops.len(), 0);
    assert_eq!(diags.len(), 1);
    assert!(mgr.get("second").is_none());
    // the diagnostic identifies the offending parent and its kind
    assert_eq!(
        diags[0].message,
        "parent 'slot' of kind SizedBox holds one child and is already full for 'second'"
    );

    // a hover wrapper is single-slot too
    create(&mut mgr, "hover", WidgetKind::Hoverable, None);
    create(&mut mgr, "inside", WidgetKind::Label, Some("hover"));
    let (ops, diags) = handle_js_command(
        &mut mgr,
        JsCommand::CreateWidget {
            id: "overflow".to_string(),
            kind: WidgetKind::Label,
            parent_id: Some("hover".to_string()),
            text: None,
            style: None,
            data: None,
        },
    );
    assert_eq!(ops.len(), 0);
    assert_eq!(diags.len(), 1);
}

#[test]
fn button_holds_children_in_its_inner_row() {
    let mut mgr = WidgetManager::new();
    create(&mut mgr, "btn", WidgetKind::Button, None);
    create(&mut mgr, "icon", WidgetKind::Label, Some("btn"));
    create(&mut mgr, "caption", WidgetKind::Label, Some("btn"));
    assert_eq!(mgr.current_child_count("btn"), 2);

    let (ops, diags) = handle_js_command(&mut mgr, JsCommand::RemoveWidget { id: "icon".to_string() });
    assert_eq!(diags.len(), 0);
    assert!(matches!(
        ops[0],
        NativeOp::RemoveChildAt { parent_kind: WidgetKind::Button, index: 0, .. }
    ));
    assert_eq!(mgr.get("caption").unwrap().child_index, 0);
}

#[test]
fn window_commands_pass_through() {
    let mut mgr = WidgetManager::new();
    let (ops, diags) = handle_js_command(&mut mgr, JsCommand::SetTitle("hi".to_string()));
    assert_eq!(diags.len(), 0);
    assert!(matches!(&ops[0], NativeOp::SetTitle { title } if title == "hi"));

    let (ops, _) = handle_js_command(&mut mgr, JsCommand::ResizeWindow { width: 640, height: 480 });
    assert!(matches!(ops[0], NativeOp::Resize { width: 640, height: 480 }));

    let (ops, _) = handle_js_command(&mut mgr, JsCommand::CloseWindow);
    assert!(matches!(ops[0], NativeOp::Exit));

    let (ops, _) = handle_js_command(&mut mgr, JsCommand::ExitApp);
    assert!(matches!(ops[0], NativeOp::Exit));
}

#[test]
fn root_style_has_its_own_path() {
    let mut mgr = WidgetManager::new();
    let (ops, diags) = handle_js_command(
        &mut mgr,
        JsCommand::SetStyleProperty {
            id: "__root__".to_string(),
            property: "direction".to_string(),
            value: "\"row\"".to_string(),
        },
    );
    assert_eq!(diags.len(), 0);
    assert_eq!(ops.len(), 1);
    match &ops[0] {
        NativeOp::ApplyRootStyle { style } => {
            assert!(matches!(style.direction, Some(appjs_bridge::style::FlexDirection::Row)));
        },
        other => panic!("unexpected op: {:?}", other),
    }
}
