//! The message layer of the wire encoding: each protocol message is one
//! flat, field-tagged entry map with a `type` tag, so every message is
//! independently decodable and unknown scalar fields are ignored.

use vstd::prelude::*;

verus! {

use crate::protocol::JsToRustMessage;
use crate::protocol::RustToJsMessage;
use crate::protocol::UiEvent;
use crate::protocol::WidgetActionKind;
use crate::strutil::str_eq;
use crate::wire::WireScalar;
use crate::wire::WireScalarV;
use crate::wire::entries_wf;
use crate::wire::entry_pairs_view;
use crate::wire::lemma_entries_rt;
use crate::wire::parse_entries;
use crate::wire::scalar_wf;
use crate::wire::spec_encode_entry_map;
use crate::wire::spec_parse_entries;
use vstd::string::StringExecFns;

/// Spec-level form of a widget interaction.
pub ghost enum WidgetActionKindV {
    /// The widget was clicked.
    Click,
    /// The widget was double-clicked.
    DoubleClick,
    /// The widget's text changed.
    TextChanged(Seq<char>),
    /// The widget's numeric value changed.
    ValueChanged {
        /// The value's IEEE 754 double bits.
        bits: u64,
    },
    /// A toolkit-specific action.
    Custom(Seq<char>),
}

impl View for WidgetActionKind {
    type V = WidgetActionKindV;

    open spec fn view(&self) -> WidgetActionKindV {
        match self {
            WidgetActionKind::Click => WidgetActionKindV::Click,
            WidgetActionKind::DoubleClick => WidgetActionKindV::DoubleClick,
            WidgetActionKind::TextChanged(t) => WidgetActionKindV::TextChanged(t@),
            WidgetActionKind::ValueChanged { bits } => WidgetActionKindV::ValueChanged {
                bits: *bits,
            },
            WidgetActionKind::Custom(t) => WidgetActionKindV::Custom(t@),
        }
    }
}

/// Spec-level form of a host-side event.
pub ghost enum UiEventV {
    /// A user interaction on a logical widget.
    WidgetAction {
        /// The logical id the interaction targeted.
        widget_id: Seq<char>,
        /// What happened.
        action: WidgetActionKindV,
    },
    /// The window was resized.
    WindowResized {
        /// New width in pixels.
        width: u32,
        /// New height in pixels.
        height: u32,
    },
    /// The user asked to close the window.
    WindowCloseRequested,
    /// The application is exiting.
    AppExit,
    /// A runtime error carried as an event.
    RuntimeError {
        /// Which component reported it.
        source: Seq<char>,
        /// Human-readable description.
        message: Seq<char>,
        /// Whether continuing is unsafe.
        fatal: bool,
    },
}

impl View for UiEvent {
    type V = UiEventV;

    open spec fn view(&self) -> UiEventV {
        match self {
            UiEvent::WidgetAction { widget_id, action } => UiEventV::WidgetAction {
                widget_id: widget_id@,
                action: action@,
            },
            UiEvent::WindowResized { width, height } => UiEventV::WindowResized {
                width: *width,
                height: *height,
            },
            UiEvent::WindowCloseRequested => UiEventV::WindowCloseRequested,
            UiEvent::AppExit => UiEventV::AppExit,
            UiEvent::RuntimeError { source, message, fatal } => UiEventV::RuntimeError {
                source: source@,
                message: message@,
                fatal: *fatal,
            },
        }
    }
}

/// Spec-level form of a Client→Host wire message.
pub ghost enum JsToRustMessageV {
    /// Set the window title.
    SetTitle {
        /// The new title.
        title: Seq<char>,
    },
    /// Create a widget.
    CreateWidget {
        /// Logical id.
        id: Seq<char>,
        /// Kind tag text.
        kind: Seq<char>,
        /// Parent id.
        parent_id: Option<Seq<char>>,
        /// Initial text.
        text: Option<Seq<char>>,
        /// Style payload text.
        style_json: Option<Seq<char>>,
        /// Parameter payload text.
        widget_params_json: Option<Seq<char>>,
        /// Binary payload.
        data: Option<Seq<u8>>,
    },
    /// Remove a widget.
    RemoveWidget {
        /// Target id.
        id: Seq<char>,
    },
    /// Replace a widget's text.
    SetWidgetText {
        /// Target id.
        id: Seq<char>,
        /// New text.
        text: Seq<char>,
    },
    /// Show or hide a widget.
    SetWidgetVisible {
        /// Target id.
        id: Seq<char>,
        /// New visibility.
        visible: bool,
    },
    /// Replace a widget's style.
    SetWidgetStyle {
        /// Target id.
        id: Seq<char>,
        /// Style payload text.
        style_json: Seq<char>,
    },
    /// Set one style property.
    SetStyleProperty {
        /// Target id.
        id: Seq<char>,
        /// Property key.
        property: Seq<char>,
        /// Property value.
        value: Seq<char>,
    },
    /// Set a numeric value.
    SetWidgetValue {
        /// Target id.
        id: Seq<char>,
        /// IEEE 754 double bits.
        bits: u64,
    },
    /// Set a checked state.
    SetWidgetChecked {
        /// Target id.
        id: Seq<char>,
        /// New checked state.
        checked: bool,
    },
    /// Resize the window.
    ResizeWindow {
        /// New width.
        width: u32,
        /// New height.
        height: u32,
    },
    /// Close the window.
    CloseWindow,
    /// Exit the application.
    ExitApp,
    /// Replace a widget's image bytes.
    SetImageData {
        /// Target id.
        id: Seq<char>,
        /// Image bytes.
        data: Seq<u8>,
    },
}

impl View for JsToRustMessage {
    type V = JsToRustMessageV;

    open spec fn view(&self) -> JsToRustMessageV {
        match self {
            JsToRustMessage::SetTitle { title } => JsToRustMessageV::SetTitle { title: title@ },
            JsToRustMessage::CreateWidget {
                id,
                kind,
                parent_id,
                text,
                style_json,
                widget_params_json,
                data,
            } => JsToRustMessageV::CreateWidget {
                id: id@,
                kind: kind@,
                parent_id: opt_str_v(parent_id),
                text: opt_str_v(text),
                style_json: opt_str_v(style_json),
                widget_params_json: opt_str_v(widget_params_json),
                data: opt_bin_v(data),
            },
            JsToRustMessage::RemoveWidget { id } => JsToRustMessageV::RemoveWidget { id: id@ },
            JsToRustMessage::SetWidgetText { id, text } => JsToRustMessageV::SetWidgetText {
                id: id@,
                text: text@,
            },
            JsToRustMessage::SetWidgetVisible { id, visible } => JsToRustMessageV::SetWidgetVisible {
                id: id@,
                visible: *visible,
            },
            JsToRustMessage::SetWidgetStyle { id, style_json } => JsToRustMessageV::SetWidgetStyle {
                id: id@,
                style_json: style_json@,
            },
            JsToRustMessage::SetStyleProperty { id, property, value } => JsToRustMessageV::SetStyleProperty {
                id: id@,
                property: property@,
                value: value@,
            },
            JsToRustMessage::SetWidgetValue { id, bits } => JsToRustMessageV::SetWidgetValue {
                id: id@,
                bits: *bits,
            },
            JsToRustMessage::SetWidgetChecked { id, checked } => JsToRustMessageV::SetWidgetChecked {
                id: id@,
                checked: *checked,
            },
            JsToRustMessage::ResizeWindow { width, height } => JsToRustMessageV::ResizeWindow {
                width: *width,
                height: *height,
            },
            JsToRustMessage::CloseWindow => JsToRustMessageV::CloseWindow,
            JsToRustMessage::ExitApp => JsToRustMessageV::ExitApp,
            JsToRustMessage::SetImageData { id, data } => JsToRustMessageV::SetImageData {
                id: id@,
                data: data@,
            },
        }
    }
}

/// Spec-level form of a Host→Client wire message.
pub ghost enum RustToJsMessageV {
    /// A pass-through event.
    UiEvent {
        /// The event payload.
        event: UiEventV,
    },
    /// A runtime-error report.
    RuntimeError {
        /// Which component reported it.
        source: Seq<char>,
        /// Human-readable description.
        message: Seq<char>,
        /// Whether continuing is unsafe.
        fatal: bool,
    },
    /// The terminal shutdown frame.
    Shutdown,
}

impl View for RustToJsMessage {
    type V = RustToJsMessageV;

    open spec fn view(&self) -> RustToJsMessageV {
        match self {
            RustToJsMessage::UiEvent { event } => RustToJsMessageV::UiEvent { event: event@ },
            RustToJsMessage::RuntimeError { source, message, fatal } => RustToJsMessageV::RuntimeError {
                source: source@,
                message: message@,
                fatal: *fatal,
            },
            RustToJsMessage::Shutdown => RustToJsMessageV::Shutdown,
        }
    }
}

/// The view of an optional owned string field.
pub open spec fn opt_str_v(o: &Option<String>) -> Option<Seq<char>> {
    match o {
        Some(s) => Some(s@),
        None => None,
    }
}

/// The view of an optional byte-blob field.
pub open spec fn opt_bin_v(o: &Option<Vec<u8>>) -> Option<Seq<u8>> {
    match o {
        Some(d) => Some(d@),
        None => None,
    }
}

/// An optional string as a wire scalar: absent fields travel as nil.
pub open spec fn opt_str_scalar(o: Option<Seq<char>>) -> WireScalarV {
    match o {
        Some(s) => WireScalarV::Str(s),
        None => WireScalarV::Nil,
    }
}

/// An optional blob as a wire scalar: absent fields travel as nil.
pub open spec fn opt_bin_scalar(o: Option<Seq<u8>>) -> WireScalarV {
    match o {
        Some(d) => WireScalarV::Bin(d),
        None => WireScalarV::Nil,
    }
}

/// The entry map of a Client→Host message: the `type` tag first, then the
/// variant's fields under their own names.
pub open spec fn spec_command_entries(m: JsToRustMessageV) -> Seq<(Seq<char>, WireScalarV)> {
    match m {
        JsToRustMessageV::SetTitle { title } => seq![
            ("type"@, WireScalarV::Str("setTitle"@)),
            ("title"@, WireScalarV::Str(title)),
        ],
        JsToRustMessageV::CreateWidget {
            id,
            kind,
            parent_id,
            text,
            style_json,
            widget_params_json,
            data,
        } => seq![
            ("type"@, WireScalarV::Str("createWidget"@)),
            ("id"@, WireScalarV::Str(id)),
            ("kind"@, WireScalarV::Str(kind)),
            ("parent_id"@, opt_str_scalar(parent_id)),
            ("text"@, opt_str_scalar(text)),
            ("style_json"@, opt_str_scalar(style_json)),
            ("widget_params_json"@, opt_str_scalar(widget_params_json)),
            ("data"@, opt_bin_scalar(data)),
        ],
        JsToRustMessageV::RemoveWidget { id } => seq![
            ("type"@, WireScalarV::Str("removeWidget"@)),
            ("id"@, WireScalarV::Str(id)),
        ],
        JsToRustMessageV::SetWidgetText { id, text } => seq![
            ("type"@, WireScalarV::Str("setWidgetText"@)),
            ("id"@, WireScalarV::Str(id)),
            ("text"@, WireScalarV::Str(text)),
        ],
        JsToRustMessageV::SetWidgetVisible { id, visible } => seq![
            ("type"@, WireScalarV::Str("setWidgetVisible"@)),
            ("id"@, WireScalarV::Str(id)),
            ("visible"@, WireScalarV::Bool(visible)),
        ],
        JsToRustMessageV::SetWidgetStyle { id, style_json } => seq![
            ("type"@, WireScalarV::Str("setWidgetStyle"@)),
            ("id"@, WireScalarV::Str(id)),
            ("style_json"@, WireScalarV::Str(style_json)),
        ],
        JsToRustMessageV::SetStyleProperty { id, property, value } => seq![
            ("type"@, WireScalarV::Str("setStyleProperty"@)),
            ("id"@, WireScalarV::Str(id)),
            ("property"@, WireScalarV::Str(property)),
            ("value"@, WireScalarV::Str(value)),
        ],
        JsToRustMessageV::SetWidgetValue { id, bits } => seq![
            ("type"@, WireScalarV::Str("setWidgetValue"@)),
            ("id"@, WireScalarV::Str(id)),
            ("value"@, WireScalarV::Num { bits }),
        ],
        JsToRustMessageV::SetWidgetChecked { id, checked } => seq![
            ("type"@, WireScalarV::Str("setWidgetChecked"@)),
            ("id"@, WireScalarV::Str(id)),
            ("checked"@, WireScalarV::Bool(checked)),
        ],
        JsToRustMessageV::ResizeWindow { width, height } => seq![
            ("type"@, WireScalarV::Str("resizeWindow"@)),
            ("width"@, WireScalarV::UInt(width as u64)),
            ("height"@, WireScalarV::UInt(height as u64)),
        ],
        JsToRustMessageV::CloseWindow => seq![("type"@, WireScalarV::Str("closeWindow"@))],
        JsToRustMessageV::ExitApp => seq![("type"@, WireScalarV::Str("exitApp"@))],
        JsToRustMessageV::SetImageData { id, data } => seq![
            ("type"@, WireScalarV::Str("setImageData"@)),
            ("id"@, WireScalarV::Str(id)),
            ("data"@, WireScalarV::Bin(data)),
        ],
    }
}

/// The entry map of a Host→Client message, events flattened beside the
/// `type` tag.
pub open spec fn spec_event_entries(m: RustToJsMessageV) -> Seq<(Seq<char>, WireScalarV)> {
    match m {
        RustToJsMessageV::RuntimeError { source, message, fatal } => seq![
            ("type"@, WireScalarV::Str("runtimeError"@)),
            ("source"@, WireScalarV::Str(source)),
            ("message"@, WireScalarV::Str(message)),
            ("fatal"@, WireScalarV::Bool(fatal)),
        ],
        RustToJsMessageV::Shutdown => seq![("type"@, WireScalarV::Str("shutdown"@))],
        RustToJsMessageV::UiEvent { event } => match event {
            UiEventV::WidgetAction { widget_id, action } => match action {
                WidgetActionKindV::Click => seq![
                    ("type"@, WireScalarV::Str("uiEvent"@)),
                    ("event"@, WireScalarV::Str("widgetAction"@)),
                    ("widget_id"@, WireScalarV::Str(widget_id)),
                    ("action"@, WireScalarV::Str("click"@)),
                ],
                WidgetActionKindV::DoubleClick => seq![
                    ("type"@, WireScalarV::Str("uiEvent"@)),
                    ("event"@, WireScalarV::Str("widgetAction"@)),
                    ("widget_id"@, WireScalarV::Str(widget_id)),
                    ("action"@, WireScalarV::Str("doubleClick"@)),
                ],
                WidgetActionKindV::TextChanged(t) => seq![
                    ("type"@, WireScalarV::Str("uiEvent"@)),
                    ("event"@, WireScalarV::Str("widgetAction"@)),
                    ("widget_id"@, WireScalarV::Str(widget_id)),
                    ("action"@, WireScalarV::Str("textChanged"@)),
                    ("value"@, WireScalarV::Str(t)),
                ],
                WidgetActionKindV::ValueChanged { bits } => seq![
                    ("type"@, WireScalarV::Str("uiEvent"@)),
                    ("event"@, WireScalarV::Str("widgetAction"@)),
                    ("widget_id"@, WireScalarV::Str(widget_id)),
                    ("action"@, WireScalarV::Str("valueChanged"@)),
                    ("value"@, WireScalarV::Num { bits }),
                ],
                WidgetActionKindV::Custom(t) => seq![
                    ("type"@, WireScalarV::Str("uiEvent"@)),
                    ("event"@, WireScalarV::Str("widgetAction"@)),
                    ("widget_id"@, WireScalarV::Str(widget_id)),
                    ("action"@, WireScalarV::Str("custom"@)),
                    ("value"@, WireScalarV::Str(t)),
                ],
            },
            UiEventV::WindowResized { width, height } => seq![
                ("type"@, WireScalarV::Str("uiEvent"@)),
                ("event"@, WireScalarV::Str("windowResized"@)),
                ("width"@, WireScalarV::UInt(width as u64)),
                ("height"@, WireScalarV::UInt(height as u64)),
            ],
            UiEventV::WindowCloseRequested => seq![
                ("type"@, WireScalarV::Str("uiEvent"@)),
                ("event"@, WireScalarV::Str("windowCloseRequested"@)),
            ],
            UiEventV::AppExit => seq![
                ("type"@, WireScalarV::Str("uiEvent"@)),
                ("event"@, WireScalarV::Str("appExit"@)),
            ],
            UiEventV::RuntimeError { source, message, fatal } => seq![
                ("type"@, WireScalarV::Str("uiEvent"@)),
                ("event"@, WireScalarV::Str("runtimeError"@)),
                ("source"@, WireScalarV::Str(source)),
                ("message"@, WireScalarV::Str(message)),
                ("fatal"@, WireScalarV::Bool(fatal)),
            ],
        },
    }
}

/// A command fits the wire: its entry map is encodable.
pub open spec fn command_wf(m: JsToRustMessageV) -> bool {
    entries_wf(spec_command_entries(m))
}

/// An event message fits the wire: its entry map is encodable.
pub open spec fn event_wf(m: RustToJsMessageV) -> bool {
    entries_wf(spec_event_entries(m))
}

/// The bytes of a Client→Host message.
pub open spec fn spec_encode_command(m: JsToRustMessageV) -> Seq<u8> {
    spec_encode_entry_map(spec_command_entries(m))
}

/// The bytes of a Host→Client message.
pub open spec fn spec_encode_event(m: RustToJsMessageV) -> Seq<u8> {
    spec_encode_entry_map(spec_event_entries(m))
}

/// The first value under `key`, scanning from `idx`.
pub open spec fn find_from(
    es: Seq<(Seq<char>, WireScalarV)>,
    key: Seq<char>,
    idx: int,
) -> Option<WireScalarV>
    decreases es.len() - idx,
{
    if !(0 <= idx < es.len()) {
        None
    } else if es[idx].0 == key {
        Some(es[idx].1)
    } else {
        find_from(es, key, idx + 1)
    }
}

/// The first value under `key`.
pub open spec fn find_entry(es: Seq<(Seq<char>, WireScalarV)>, key: Seq<char>) -> Option<
    WireScalarV,
> {
    find_from(es, key, 0)
}

/// A required string field.
pub open spec fn get_str(es: Seq<(Seq<char>, WireScalarV)>, key: Seq<char>) -> Option<Seq<char>> {
    match find_entry(es, key) {
        Some(WireScalarV::Str(s)) => Some(s),
        _ => None,
    }
}

/// An optional string field: absent or nil is an accepted absence; any
/// other non-string value refuses the message.
pub open spec fn get_opt_str(es: Seq<(Seq<char>, WireScalarV)>, key: Seq<char>) -> Option<
    Option<Seq<char>>,
> {
    match find_entry(es, key) {
        None => Some(None),
        Some(WireScalarV::Nil) => Some(None),
        Some(WireScalarV::Str(s)) => Some(Some(s)),
        Some(_) => None,
    }
}

/// An optional blob field.
pub open spec fn get_opt_bin(es: Seq<(Seq<char>, WireScalarV)>, key: Seq<char>) -> Option<
    Option<Seq<u8>>,
> {
    match find_entry(es, key) {
        None => Some(None),
        Some(WireScalarV::Nil) => Some(None),
        Some(WireScalarV::Bin(d)) => Some(Some(d)),
        Some(_) => None,
    }
}

/// A required blob field.
pub open spec fn get_bin(es: Seq<(Seq<char>, WireScalarV)>, key: Seq<char>) -> Option<Seq<u8>> {
    match find_entry(es, key) {
        Some(WireScalarV::Bin(d)) => Some(d),
        _ => None,
    }
}

/// A required boolean field.
pub open spec fn get_bool(es: Seq<(Seq<char>, WireScalarV)>, key: Seq<char>) -> Option<bool> {
    match find_entry(es, key) {
        Some(WireScalarV::Bool(b)) => Some(b),
        _ => None,
    }
}

/// A required 32-bit unsigned field.
pub open spec fn get_u32(es: Seq<(Seq<char>, WireScalarV)>, key: Seq<char>) -> Option<u32> {
    match find_entry(es, key) {
        Some(WireScalarV::UInt(n)) => if n < 0x100000000 {
            Some(n as u32)
        } else {
            None
        },
        _ => None,
    }
}

/// A required double field, as its bits.
pub open spec fn get_bits(es: Seq<(Seq<char>, WireScalarV)>, key: Seq<char>) -> Option<u64> {
    match find_entry(es, key) {
        Some(WireScalarV::Num { bits }) => Some(bits),
        _ => None,
    }
}

/// The Client→Host message an entry map holds, keyed by its `type` tag.
/// Unknown scalar entries are ignored; a missing or ill-typed field, or an
/// unknown tag, refuses the message.
pub open spec fn spec_command_from_entries(es: Seq<(Seq<char>, WireScalarV)>) -> Option<
    JsToRustMessageV,
> {
    match get_str(es, "type"@) {
        None => None,
        Some(tag) => {
            if tag == "setTitle"@ {
                match get_str(es, "title"@) {
                    Some(title) => Some(JsToRustMessageV::SetTitle { title }),
                    None => None,
                }
            } else if tag == "createWidget"@ {
                let id = get_str(es, "id"@);
                let kind = get_str(es, "kind"@);
                let parent_id = get_opt_str(es, "parent_id"@);
                let text = get_opt_str(es, "text"@);
                let style_json = get_opt_str(es, "style_json"@);
                let widget_params_json = get_opt_str(es, "widget_params_json"@);
                let data = get_opt_bin(es, "data"@);
                if id is None || kind is None || parent_id is None || text is None || style_json
                    is None || widget_params_json is None || data is None {
                    None
                } else {
                    Some(
                        JsToRustMessageV::CreateWidget {
                            id: id->Some_0,
                            kind: kind->Some_0,
                            parent_id: parent_id->Some_0,
                            text: text->Some_0,
                            style_json: style_json->Some_0,
                            widget_params_json: widget_params_json->Some_0,
                            data: data->Some_0,
                        },
                    )
                }
            } else if tag == "removeWidget"@ {
                match get_str(es, "id"@) {
                    Some(id) => Some(JsToRustMessageV::RemoveWidget { id }),
                    None => None,
                }
            } else if tag == "setWidgetText"@ {
                match (get_str(es, "id"@), get_str(es, "text"@)) {
                    (Some(id), Some(text)) => Some(JsToRustMessageV::SetWidgetText { id, text }),
                    _ => None,
                }
            } else if tag == "setWidgetVisible"@ {
                match (get_str(es, "id"@), get_bool(es, "visible"@)) {
                    (Some(id), Some(visible)) => Some(
                        JsToRustMessageV::SetWidgetVisible { id, visible },
                    ),
                    _ => None,
                }
            } else if tag == "setWidgetStyle"@ {
                match (get_str(es, "id"@), get_str(es, "style_json"@)) {
                    (Some(id), Some(style_json)) => Some(
                        JsToRustMessageV::SetWidgetStyle { id, style_json },
                    ),
                    _ => None,
                }
            } else if tag == "setStyleProperty"@ {
                match (get_str(es, "id"@), get_str(es, "property"@), get_str(es, "value"@)) {
                    (Some(id), Some(property), Some(value)) => Some(
                        JsToRustMessageV::SetStyleProperty { id, property, value },
                    ),
                    _ => None,
                }
            } else if tag == "setWidgetValue"@ {
                match (get_str(es, "id"@), get_bits(es, "value"@)) {
                    (Some(id), Some(bits)) => Some(JsToRustMessageV::SetWidgetValue { id, bits }),
                    _ => None,
                }
            } else if tag == "setWidgetChecked"@ {
                match (get_str(es, "id"@), get_bool(es, "checked"@)) {
                    (Some(id), Some(checked)) => Some(
                        JsToRustMessageV::SetWidgetChecked { id, checked },
                    ),
                    _ => None,
                }
            } else if tag == "resizeWindow"@ {
                match (get_u32(es, "width"@), get_u32(es, "height"@)) {
                    (Some(width), Some(height)) => Some(
                        JsToRustMessageV::ResizeWindow { width, height },
                    ),
                    _ => None,
                }
            } else if tag == "closeWindow"@ {
                Some(JsToRustMessageV::CloseWindow)
            } else if tag == "exitApp"@ {
                Some(JsToRustMessageV::ExitApp)
            } else if tag == "setImageData"@ {
                match (get_str(es, "id"@), get_bin(es, "data"@)) {
                    (Some(id), Some(data)) => Some(JsToRustMessageV::SetImageData { id, data }),
                    _ => None,
                }
            } else {
                None
            }
        },
    }
}

/// The Host→Client message an entry map holds.
pub open spec fn spec_event_from_entries(es: Seq<(Seq<char>, WireScalarV)>) -> Option<
    RustToJsMessageV,
> {
    match get_str(es, "type"@) {
        None => None,
        Some(tag) => {
            if tag == "runtimeError"@ {
                match (get_str(es, "source"@), get_str(es, "message"@), get_bool(es, "fatal"@)) {
                    (Some(source), Some(message), Some(fatal)) => Some(
                        RustToJsMessageV::RuntimeError { source, message, fatal },
                    ),
                    _ => None,
                }
            } else if tag == "shutdown"@ {
                Some(RustToJsMessageV::Shutdown)
            } else if tag == "uiEvent"@ {
                match spec_ui_event_from_entries(es) {
                    Some(event) => Some(RustToJsMessageV::UiEvent { event }),
                    None => None,
                }
            } else {
                None
            }
        },
    }
}

/// The flattened event payload of a `uiEvent` message.
pub open spec fn spec_ui_event_from_entries(es: Seq<(Seq<char>, WireScalarV)>) -> Option<UiEventV> {
    match get_str(es, "event"@) {
        None => None,
        Some(ev) => {
            if ev == "widgetAction"@ {
                match (get_str(es, "widget_id"@), get_str(es, "action"@)) {
                    (Some(widget_id), Some(action)) => {
                        if action == "click"@ {
                            Some(
                                UiEventV::WidgetAction {
                                    widget_id,
                                    action: WidgetActionKindV::Click,
                                },
                            )
                        } else if action == "doubleClick"@ {
                            Some(
                                UiEventV::WidgetAction {
                                    widget_id,
                                    action: WidgetActionKindV::DoubleClick,
                                },
                            )
                        } else if action == "textChanged"@ {
                            match get_str(es, "value"@) {
                                Some(t) => Some(
                                    UiEventV::WidgetAction {
                                        widget_id,
                                        action: WidgetActionKindV::TextChanged(t),
                                    },
                                ),
                                None => None,
                            }
                        } else if action == "valueChanged"@ {
                            match get_bits(es, "value"@) {
                                Some(bits) => Some(
                                    UiEventV::WidgetAction {
                                        widget_id,
                                        action: WidgetActionKindV::ValueChanged { bits },
                                    },
                                ),
                                None => None,
                            }
                        } else if action == "custom"@ {
                            match get_str(es, "value"@) {
                                Some(t) => Some(
                                    UiEventV::WidgetAction {
                                        widget_id,
                                        action: WidgetActionKindV::Custom(t),
                                    },
                                ),
                                None => None,
                            }
                        } else {
                            None
                        }
                    },
                    _ => None,
                }
            } else if ev == "windowResized"@ {
                match (get_u32(es, "width"@), get_u32(es, "height"@)) {
                    (Some(width), Some(height)) => Some(UiEventV::WindowResized { width, height }),
                    _ => None,
                }
            } else if ev == "windowCloseRequested"@ {
                Some(UiEventV::WindowCloseRequested)
            } else if ev == "appExit"@ {
                Some(UiEventV::AppExit)
            } else if ev == "runtimeError"@ {
                match (get_str(es, "source"@), get_str(es, "message"@), get_bool(es, "fatal"@)) {
                    (Some(source), Some(message), Some(fatal)) => Some(
                        UiEventV::RuntimeError { source, message, fatal },
                    ),
                    _ => None,
                }
            } else {
                None
            }
        },
    }
}

/// What decoding a Client→Host frame payload yields: its entry map must
/// cover the whole payload and name a known command.
pub open spec fn spec_decode_command(b: Seq<u8>) -> Option<JsToRustMessageV> {
    match spec_parse_entries(b, 0) {
        Some(p) => if p.1 == b.len() {
            spec_command_from_entries(p.0)
        } else {
            None
        },
        None => None,
    }
}

/// What decoding a Host→Client frame payload yields.
pub open spec fn spec_decode_event(b: Seq<u8>) -> Option<RustToJsMessageV> {
    match spec_parse_entries(b, 0) {
        Some(p) => if p.1 == b.len() {
            spec_event_from_entries(p.0)
        } else {
            None
        },
        None => None,
    }
}

proof fn lemma_find_from_at(es: Seq<(Seq<char>, WireScalarV)>, key: Seq<char>, k: int, j: int)
    requires
        0 <= j <= k < es.len(),
        es[k].0 == key,
        forall|t: int| j <= t < k ==> (#[trigger] es[t]).0 != key,
    ensures
        find_from(es, key, j) == Some(es[k].1),
    decreases k - j,
{
    if j < k {
        lemma_find_from_at(es, key, k, j + 1);
    }
}

/// The first entry carrying `key` is the one at `k` when no earlier entry
/// carries it.
pub proof fn lemma_find_at(es: Seq<(Seq<char>, WireScalarV)>, key: Seq<char>, k: int)
    requires
        0 <= k < es.len(),
        es[k].0 == key,
        forall|t: int| 0 <= t < k ==> (#[trigger] es[t]).0 != key,
    ensures
        find_entry(es, key) == Some(es[k].1),
{
    lemma_find_from_at(es, key, k, 0);
}

/// The key names and type tags of the wire format are pairwise distinct.
#[verifier::rlimit(100)]
proof fn lemma_wire_literals_distinct()
    ensures
        "action"@ != "event"@,
        "action"@ != "type"@,
        "action"@ != "value"@,
        "action"@ != "widget_id"@,
        "appExit"@ != "runtimeError"@,
        "appExit"@ != "widgetAction"@,
        "appExit"@ != "windowCloseRequested"@,
        "appExit"@ != "windowResized"@,
        "checked"@ != "id"@,
        "checked"@ != "type"@,
        "click"@ != "custom"@,
        "click"@ != "doubleClick"@,
        "click"@ != "textChanged"@,
        "click"@ != "valueChanged"@,
        "closeWindow"@ != "createWidget"@,
        "closeWindow"@ != "exitApp"@,
        "closeWindow"@ != "removeWidget"@,
        "closeWindow"@ != "resizeWindow"@,
        "closeWindow"@ != "setImageData"@,
        "closeWindow"@ != "setStyleProperty"@,
        "closeWindow"@ != "setTitle"@,
        "closeWindow"@ != "setWidgetChecked"@,
        "closeWindow"@ != "setWidgetStyle"@,
        "closeWindow"@ != "setWidgetText"@,
        "closeWindow"@ != "setWidgetValue"@,
        "closeWindow"@ != "setWidgetVisible"@,
        "createWidget"@ != "exitApp"@,
        "createWidget"@ != "removeWidget"@,
        "createWidget"@ != "resizeWindow"@,
        "createWidget"@ != "setImageData"@,
        "createWidget"@ != "setStyleProperty"@,
        "createWidget"@ != "setTitle"@,
        "createWidget"@ != "setWidgetChecked"@,
        "createWidget"@ != "setWidgetStyle"@,
        "createWidget"@ != "setWidgetText"@,
        "createWidget"@ != "setWidgetValue"@,
        "createWidget"@ != "setWidgetVisible"@,
        "custom"@ != "doubleClick"@,
        "custom"@ != "textChanged"@,
        "custom"@ != "valueChanged"@,
        "data"@ != "id"@,
        "data"@ != "kind"@,
        "data"@ != "parent_id"@,
        "data"@ != "style_json"@,
        "data"@ != "text"@,
        "data"@ != "type"@,
        "data"@ != "widget_params_json"@,
        "doubleClick"@ != "textChanged"@,
        "doubleClick"@ != "valueChanged"@,
        "event"@ != "fatal"@,
        "event"@ != "height"@,
        "event"@ != "message"@,
        "event"@ != "source"@,
        "event"@ != "type"@,
        "event"@ != "value"@,
        "event"@ != "widget_id"@,
        "event"@ != "width"@,
        "exitApp"@ != "removeWidget"@,
        "exitApp"@ != "resizeWindow"@,
        "exitApp"@ != "setImageData"@,
        "exitApp"@ != "setStyleProperty"@,
        "exitApp"@ != "setTitle"@,
        "exitApp"@ != "setWidgetChecked"@,
        "exitApp"@ != "setWidgetStyle"@,
        "exitApp"@ != "setWidgetText"@,
        "exitApp"@ != "setWidgetValue"@,
        "exitApp"@ != "setWidgetVisible"@,
        "fatal"@ != "message"@,
        "fatal"@ != "source"@,
        "fatal"@ != "type"@,
        "height"@ != "type"@,
        "height"@ != "width"@,
        "id"@ != "kind"@,
        "id"@ != "parent_id"@,
        "id"@ != "property"@,
        "id"@ != "style_json"@,
        "id"@ != "text"@,
        "id"@ != "type"@,
        "id"@ != "value"@,
        "id"@ != "visible"@,
        "id"@ != "widget_params_json"@,
        "kind"@ != "parent_id"@,
        "kind"@ != "style_json"@,
        "kind"@ != "text"@,
        "kind"@ != "type"@,
        "kind"@ != "widget_params_json"@,
        "message"@ != "source"@,
        "message"@ != "type"@,
        "parent_id"@ != "style_json"@,
        "parent_id"@ != "text"@,
        "parent_id"@ != "type"@,
        "parent_id"@ != "widget_params_json"@,
        "property"@ != "type"@,
        "property"@ != "value"@,
        "removeWidget"@ != "resizeWindow"@,
        "removeWidget"@ != "setImageData"@,
        "removeWidget"@ != "setStyleProperty"@,
        "removeWidget"@ != "setTitle"@,
        "removeWidget"@ != "setWidgetChecked"@,
        "removeWidget"@ != "setWidgetStyle"@,
        "removeWidget"@ != "setWidgetText"@,
        "removeWidget"@ != "setWidgetValue"@,
        "removeWidget"@ != "setWidgetVisible"@,
        "resizeWindow"@ != "setImageData"@,
        "resizeWindow"@ != "setStyleProperty"@,
        "resizeWindow"@ != "setTitle"@,
        "resizeWindow"@ != "setWidgetChecked"@,
        "resizeWindow"@ != "setWidgetStyle"@,
        "resizeWindow"@ != "setWidgetText"@,
        "resizeWindow"@ != "setWidgetValue"@,
        "resizeWindow"@ != "setWidgetVisible"@,
        "runtimeError"@ != "shutdown"@,
        "runtimeError"@ != "uiEvent"@,
        "runtimeError"@ != "widgetAction"@,
        "runtimeError"@ != "windowCloseRequested"@,
        "runtimeError"@ != "windowResized"@,
        "setImageData"@ != "setStyleProperty"@,
        "setImageData"@ != "setTitle"@,
        "setImageData"@ != "setWidgetChecked"@,
        "setImageData"@ != "setWidgetStyle"@,
        "setImageData"@ != "setWidgetText"@,
        "setImageData"@ != "setWidgetValue"@,
        "setImageData"@ != "setWidgetVisible"@,
        "setStyleProperty"@ != "setTitle"@,
        "setStyleProperty"@ != "setWidgetChecked"@,
        "setStyleProperty"@ != "setWidgetStyle"@,
        "setStyleProperty"@ != "setWidgetText"@,
        "setStyleProperty"@ != "setWidgetValue"@,
        "setStyleProperty"@ != "setWidgetVisible"@,
        "setTitle"@ != "setWidgetChecked"@,
        "setTitle"@ != "setWidgetStyle"@,
        "setTitle"@ != "setWidgetText"@,
        "setTitle"@ != "setWidgetValue"@,
        "setTitle"@ != "setWidgetVisible"@,
        "setWidgetChecked"@ != "setWidgetStyle"@,
        "setWidgetChecked"@ != "setWidgetText"@,
        "setWidgetChecked"@ != "setWidgetValue"@,
        "setWidgetChecked"@ != "setWidgetVisible"@,
        "setWidgetStyle"@ != "setWidgetText"@,
        "setWidgetStyle"@ != "setWidgetValue"@,
        "setWidgetStyle"@ != "setWidgetVisible"@,
        "setWidgetText"@ != "setWidgetValue"@,
        "setWidgetText"@ != "setWidgetVisible"@,
        "setWidgetValue"@ != "setWidgetVisible"@,
        "shutdown"@ != "uiEvent"@,
        "source"@ != "type"@,
        "style_json"@ != "text"@,
        "style_json"@ != "type"@,
        "style_json"@ != "widget_params_json"@,
        "text"@ != "type"@,
        "text"@ != "widget_params_json"@,
        "textChanged"@ != "valueChanged"@,
        "title"@ != "type"@,
        "type"@ != "value"@,
        "type"@ != "visible"@,
        "type"@ != "widget_id"@,
        "type"@ != "widget_params_json"@,
        "type"@ != "width"@,
        "value"@ != "widget_id"@,
        "widgetAction"@ != "windowCloseRequested"@,
        "widgetAction"@ != "windowResized"@,
        "windowCloseRequested"@ != "windowResized"@,
{
    reveal_strlit("action");
    reveal_strlit("appExit");
    reveal_strlit("checked");
    reveal_strlit("click");
    reveal_strlit("closeWindow");
    reveal_strlit("createWidget");
    reveal_strlit("custom");
    reveal_strlit("data");
    reveal_strlit("doubleClick");
    reveal_strlit("event");
    reveal_strlit("exitApp");
    reveal_strlit("fatal");
    reveal_strlit("height");
    reveal_strlit("id");
    reveal_strlit("kind");
    reveal_strlit("message");
    reveal_strlit("parent_id");
    reveal_strlit("property");
    reveal_strlit("removeWidget");
    reveal_strlit("resizeWindow");
    reveal_strlit("runtimeError");
    reveal_strlit("setImageData");
    reveal_strlit("setStyleProperty");
    reveal_strlit("setTitle");
    reveal_strlit("setWidgetChecked");
    reveal_strlit("setWidgetStyle");
    reveal_strlit("setWidgetText");
    reveal_strlit("setWidgetValue");
    reveal_strlit("setWidgetVisible");
    reveal_strlit("shutdown");
    reveal_strlit("source");
    reveal_strlit("style_json");
    reveal_strlit("text");
    reveal_strlit("textChanged");
    reveal_strlit("title");
    reveal_strlit("type");
    reveal_strlit("uiEvent");
    reveal_strlit("value");
    reveal_strlit("valueChanged");
    reveal_strlit("visible");
    reveal_strlit("widgetAction");
    reveal_strlit("widget_id");
    reveal_strlit("widget_params_json");
    reveal_strlit("width");
    reveal_strlit("windowCloseRequested");
    reveal_strlit("windowResized");
    assert("action"@ != "event"@) by {
        assert("action"@.len() == 6);
        assert("event"@.len() == 5);
    };
    assert("action"@ != "type"@) by {
        assert("action"@.len() == 6);
        assert("type"@.len() == 4);
    };
    assert("action"@ != "value"@) by {
        assert("action"@.len() == 6);
        assert("value"@.len() == 5);
    };
    assert("action"@ != "widget_id"@) by {
        assert("action"@.len() == 6);
        assert("widget_id"@.len() == 9);
    };
    assert("appExit"@ != "runtimeError"@) by {
        assert("appExit"@.len() == 7);
        assert("runtimeError"@.len() == 12);
    };
    assert("appExit"@ != "widgetAction"@) by {
        assert("appExit"@.len() == 7);
        assert("widgetAction"@.len() == 12);
    };
    assert("appExit"@ != "windowCloseRequested"@) by {
        assert("appExit"@.len() == 7);
        assert("windowCloseRequested"@.len() == 20);
    };
    assert("appExit"@ != "windowResized"@) by {
        assert("appExit"@.len() == 7);
        assert("windowResized"@.len() == 13);
    };
    assert("checked"@ != "id"@) by {
        assert("checked"@.len() == 7);
        assert("id"@.len() == 2);
    };
    assert("checked"@ != "type"@) by {
        assert("checked"@.len() == 7);
        assert("type"@.len() == 4);
    };
    assert("click"@ != "custom"@) by {
        assert("click"@.len() == 5);
        assert("custom"@.len() == 6);
    };
    assert("click"@ != "doubleClick"@) by {
        assert("click"@.len() == 5);
        assert("doubleClick"@.len() == 11);
    };
    assert("click"@ != "textChanged"@) by {
        assert("click"@.len() == 5);
        assert("textChanged"@.len() == 11);
    };
    assert("click"@ != "valueChanged"@) by {
        assert("click"@.len() == 5);
        assert("valueChanged"@.len() == 12);
    };
    assert("closeWindow"@ != "createWidget"@) by {
        assert("closeWindow"@.len() == 11);
        assert("createWidget"@.len() == 12);
    };
    assert("closeWindow"@ != "exitApp"@) by {
        assert("closeWindow"@.len() == 11);
        assert("exitApp"@.len() == 7);
    };
    assert("closeWindow"@ != "removeWidget"@) by {
        assert("closeWindow"@.len() == 11);
        assert("removeWidget"@.len() == 12);
    };
    assert("closeWindow"@ != "resizeWindow"@) by {
        assert("closeWindow"@.len() == 11);
        assert("resizeWindow"@.len() == 12);
    };
    assert("closeWindow"@ != "setImageData"@) by {
        assert("closeWindow"@.len() == 11);
        assert("setImageData"@.len() == 12);
    };
    assert("closeWindow"@ != "setStyleProperty"@) by {
        assert("closeWindow"@.len() == 11);
        assert("setStyleProperty"@.len() == 16);
    };
    assert("closeWindow"@ != "setTitle"@) by {
        assert("closeWindow"@.len() == 11);
        assert("setTitle"@.len() == 8);
    };
    assert("closeWindow"@ != "setWidgetChecked"@) by {
        assert("closeWindow"@.len() == 11);
        assert("setWidgetChecked"@.len() == 16);
    };
    assert("closeWindow"@ != "setWidgetStyle"@) by {
        assert("closeWindow"@.len() == 11);
        assert("setWidgetStyle"@.len() == 14);
    };
    assert("closeWindow"@ != "setWidgetText"@) by {
        assert("closeWindow"@.len() == 11);
        assert("setWidgetText"@.len() == 13);
    };
    assert("closeWindow"@ != "setWidgetValue"@) by {
        assert("closeWindow"@.len() == 11);
        assert("setWidgetValue"@.len() == 14);
    };
    assert("closeWindow"@ != "setWidgetVisible"@) by {
        assert("closeWindow"@.len() == 11);
        assert("setWidgetVisible"@.len() == 16);
    };
    assert("createWidget"@ != "exitApp"@) by {
        assert("createWidget"@.len() == 12);
        assert("exitApp"@.len() == 7);
    };
    assert("createWidget"@ != "removeWidget"@) by {
        assert("createWidget"@[0] == 'c');
        assert("removeWidget"@[0] == 'r');
    };
    assert("createWidget"@ != "resizeWindow"@) by {
        assert("createWidget"@[0] == 'c');
        assert("resizeWindow"@[0] == 'r');
    };
    assert("createWidget"@ != "setImageData"@) by {
        assert("createWidget"@[0] == 'c');
        assert("setImageData"@[0] == 's');
    };
    assert("createWidget"@ != "setStyleProperty"@) by {
        assert("createWidget"@.len() == 12);
        assert("setStyleProperty"@.len() == 16);
    };
    assert("createWidget"@ != "setTitle"@) by {
        assert("createWidget"@.len() == 12);
        assert("setTitle"@.len() == 8);
    };
    assert("createWidget"@ != "setWidgetChecked"@) by {
        assert("createWidget"@.len() == 12);
        assert("setWidgetChecked"@.len() == 16);
    };
    assert("createWidget"@ != "setWidgetStyle"@) by {
        assert("createWidget"@.len() == 12);
        assert("setWidgetStyle"@.len() == 14);
    };
    assert("createWidget"@ != "setWidgetText"@) by {
        assert("createWidget"@.len() == 12);
        assert("setWidgetText"@.len() == 13);
    };
    assert("createWidget"@ != "setWidgetValue"@) by {
        assert("createWidget"@.len() == 12);
        assert("setWidgetValue"@.len() == 14);
    };
    assert("createWidget"@ != "setWidgetVisible"@) by {
        assert("createWidget"@.len() == 12);
        assert("setWidgetVisible"@.len() == 16);
    };
    assert("custom"@ != "doubleClick"@) by {
        assert("custom"@.len() == 6);
        assert("doubleClick"@.len() == 11);
    };
    assert("custom"@ != "textChanged"@) by {
        assert("custom"@.len() == 6);
        assert("textChanged"@.len() == 11);
    };
    assert("custom"@ != "valueChanged"@) by {
        assert("custom"@.len() == 6);
        assert("valueChanged"@.len() == 12);
    };
    assert("data"@ != "id"@) by {
        assert("data"@.len() == 4);
        assert("id"@.len() == 2);
    };
    assert("data"@ != "kind"@) by {
        assert("data"@[0] == 'd');
        assert("kind"@[0] == 'k');
    };
    assert("data"@ != "parent_id"@) by {
        assert("data"@.len() == 4);
        assert("parent_id"@.len() == 9);
    };
    assert("data"@ != "style_json"@) by {
        assert("data"@.len() == 4);
        assert("style_json"@.len() == 10);
    };
    assert("data"@ != "text"@) by {
        assert("data"@[0] == 'd');
        assert("text"@[0] == 't');
    };
    assert("data"@ != "type"@) by {
        assert("data"@[0] == 'd');
        assert("type"@[0] == 't');
    };
    assert("data"@ != "widget_params_json"@) by {
        assert("data"@.len() == 4);
        assert("widget_params_json"@.len() == 18);
    };
    assert("doubleClick"@ != "textChanged"@) by {
        assert("doubleClick"@[0] == 'd');
        assert("textChanged"@[0] == 't');
    };
    assert("doubleClick"@ != "valueChanged"@) by {
        assert("doubleClick"@.len() == 11);
        assert("valueChanged"@.len() == 12);
    };
    assert("event"@ != "fatal"@) by {
        assert("event"@[0] == 'e');
        assert("fatal"@[0] == 'f');
    };
    assert("event"@ != "height"@) by {
        assert("event"@.len() == 5);
        assert("height"@.len() == 6);
    };
    assert("event"@ != "message"@) by {
        assert("event"@.len() == 5);
        assert("message"@.len() == 7);
    };
    assert("event"@ != "source"@) by {
        assert("event"@.len() == 5);
        assert("source"@.len() == 6);
    };
    assert("event"@ != "type"@) by {
        assert("event"@.len() == 5);
        assert("type"@.len() == 4);
    };
    assert("event"@ != "value"@) by {
        assert("event"@[0] == 'e');
        assert("value"@[0] == 'v');
    };
    assert("event"@ != "widget_id"@) by {
        assert("event"@.len() == 5);
        assert("widget_id"@.len() == 9);
    };
    assert("event"@ != "width"@) by {
        assert("event"@[0] == 'e');
        assert("width"@[0] == 'w');
    };
    assert("exitApp"@ != "removeWidget"@) by {
        assert("exitApp"@.len() == 7);
        assert("removeWidget"@.len() == 12);
    };
    assert("exitApp"@ != "resizeWindow"@) by {
        assert("exitApp"@.len() == 7);
        assert("resizeWindow"@.len() == 12);
    };
    assert("exitApp"@ != "setImageData"@) by {
        assert("exitApp"@.len() == 7);
        assert("setImageData"@.len() == 12);
    };
    assert("exitApp"@ != "setStyleProperty"@) by {
        assert("exitApp"@.len() == 7);
        assert("setStyleProperty"@.len() == 16);
    };
    assert("exitApp"@ != "setTitle"@) by {
        assert("exitApp"@.len() == 7);
        assert("setTitle"@.len() == 8);
    };
    assert("exitApp"@ != "setWidgetChecked"@) by {
        assert("exitApp"@.len() == 7);
        assert("setWidgetChecked"@.len() == 16);
    };
    assert("exitApp"@ != "setWidgetStyle"@) by {
        assert("exitApp"@.len() == 7);
        assert("setWidgetStyle"@.len() == 14);
    };
    assert("exitApp"@ != "setWidgetText"@) by {
        assert("exitApp"@.len() == 7);
        assert("setWidgetText"@.len() == 13);
    };
    assert("exitApp"@ != "setWidgetValue"@) by {
        assert("exitApp"@.len() == 7);
        assert("setWidgetValue"@.len() == 14);
    };
    assert("exitApp"@ != "setWidgetVisible"@) by {
        assert("exitApp"@.len() == 7);
        assert("setWidgetVisible"@.len() == 16);
    };
    assert("fatal"@ != "message"@) by {
        assert("fatal"@.len() == 5);
        assert("message"@.len() == 7);
    };
    assert("fatal"@ != "source"@) by {
        assert("fatal"@.len() == 5);
        assert("source"@.len() == 6);
    };
    assert("fatal"@ != "type"@) by {
        assert("fatal"@.len() == 5);
        assert("type"@.len() == 4);
    };
    assert("height"@ != "type"@) by {
        assert("height"@.len() == 6);
        assert("type"@.len() == 4);
    };
    assert("height"@ != "width"@) by {
        assert("height"@.len() == 6);
        assert("width"@.len() == 5);
    };
    assert("id"@ != "kind"@) by {
        assert("id"@.len() == 2);
        assert("kind"@.len() == 4);
    };
    assert("id"@ != "parent_id"@) by {
        assert("id"@.len() == 2);
        assert("parent_id"@.len() == 9);
    };
    assert("id"@ != "property"@) by {
        assert("id"@.len() == 2);
        assert("property"@.len() == 8);
    };
    assert("id"@ != "style_json"@) by {
        assert("id"@.len() == 2);
        assert("style_json"@.len() == 10);
    };
    assert("id"@ != "text"@) by {
        assert("id"@.len() == 2);
        assert("text"@.len() == 4);
    };
    assert("id"@ != "type"@) by {
        assert("id"@.len() == 2);
        assert("type"@.len() == 4);
    };
    assert("id"@ != "value"@) by {
        assert("id"@.len() == 2);
        assert("value"@.len() == 5);
    };
    assert("id"@ != "visible"@) by {
        assert("id"@.len() == 2);
        assert("visible"@.len() == 7);
    };
    assert("id"@ != "widget_params_json"@) by {
        assert("id"@.len() == 2);
        assert("widget_params_json"@.len() == 18);
    };
    assert("kind"@ != "parent_id"@) by {
        assert("kind"@.len() == 4);
        assert("parent_id"@.len() == 9);
    };
    assert("kind"@ != "style_json"@) by {
        assert("kind"@.len() == 4);
        assert("style_json"@.len() == 10);
    };
    assert("kind"@ != "text"@) by {
        assert("kind"@[0] == 'k');
        assert("text"@[0] == 't');
    };
    assert("kind"@ != "type"@) by {
        assert("kind"@[0] == 'k');
        assert("type"@[0] == 't');
    };
    assert("kind"@ != "widget_params_json"@) by {
        assert("kind"@.len() == 4);
        assert("widget_params_json"@.len() == 18);
    };
    assert("message"@ != "source"@) by {
        assert("message"@.len() == 7);
        assert("source"@.len() == 6);
    };
    assert("message"@ != "type"@) by {
        assert("message"@.len() == 7);
        assert("type"@.len() == 4);
    };
    assert("parent_id"@ != "style_json"@) by {
        assert("parent_id"@.len() == 9);
        assert("style_json"@.len() == 10);
    };
    assert("parent_id"@ != "text"@) by {
        assert("parent_id"@.len() == 9);
        assert("text"@.len() == 4);
    };
    assert("parent_id"@ != "type"@) by {
        assert("parent_id"@.len() == 9);
        assert("type"@.len() == 4);
    };
    assert("parent_id"@ != "widget_params_json"@) by {
        assert("parent_id"@.len() == 9);
        assert("widget_params_json"@.len() == 18);
    };
    assert("property"@ != "type"@) by {
        assert("property"@.len() == 8);
        assert("type"@.len() == 4);
    };
    assert("property"@ != "value"@) by {
        assert("property"@.len() == 8);
        assert("value"@.len() == 5);
    };
    assert("removeWidget"@ != "resizeWindow"@) by {
        assert("removeWidget"@[2] == 'm');
        assert("resizeWindow"@[2] == 's');
    };
    assert("removeWidget"@ != "setImageData"@) by {
        assert("removeWidget"@[0] == 'r');
        assert("setImageData"@[0] == 's');
    };
    assert("removeWidget"@ != "setStyleProperty"@) by {
        assert("removeWidget"@.len() == 12);
        assert("setStyleProperty"@.len() == 16);
    };
    assert("removeWidget"@ != "setTitle"@) by {
        assert("removeWidget"@.len() == 12);
        assert("setTitle"@.len() == 8);
    };
    assert("removeWidget"@ != "setWidgetChecked"@) by {
        assert("removeWidget"@.len() == 12);
        assert("setWidgetChecked"@.len() == 16);
    };
    assert("removeWidget"@ != "setWidgetStyle"@) by {
        assert("removeWidget"@.len() == 12);
        assert("setWidgetStyle"@.len() == 14);
    };
    assert("removeWidget"@ != "setWidgetText"@) by {
        assert("removeWidget"@.len() == 12);
        assert("setWidgetText"@.len() == 13);
    };
    assert("removeWidget"@ != "setWidgetValue"@) by {
        assert("removeWidget"@.len() == 12);
        assert("setWidgetValue"@.len() == 14);
    };
    assert("removeWidget"@ != "setWidgetVisible"@) by {
        assert("removeWidget"@.len() == 12);
        assert("setWidgetVisible"@.len() == 16);
    };
    assert("resizeWindow"@ != "setImageData"@) by {
        assert("resizeWindow"@[0] == 'r');
        assert("setImageData"@[0] == 's');
    };
    assert("resizeWindow"@ != "setStyleProperty"@) by {
        assert("resizeWindow"@.len() == 12);
        assert("setStyleProperty"@.len() == 16);
    };
    assert("resizeWindow"@ != "setTitle"@) by {
        assert("resizeWindow"@.len() == 12);
        assert("setTitle"@.len() == 8);
    };
    assert("resizeWindow"@ != "setWidgetChecked"@) by {
        assert("resizeWindow"@.len() == 12);
        assert("setWidgetChecked"@.len() == 16);
    };
    assert("resizeWindow"@ != "setWidgetStyle"@) by {
        assert("resizeWindow"@.len() == 12);
        assert("setWidgetStyle"@.len() == 14);
    };
    assert("resizeWindow"@ != "setWidgetText"@) by {
        assert("resizeWindow"@.len() == 12);
        assert("setWidgetText"@.len() == 13);
    };
    assert("resizeWindow"@ != "setWidgetValue"@) by {
        assert("resizeWindow"@.len() == 12);
        assert("setWidgetValue"@.len() == 14);
    };
    assert("resizeWindow"@ != "setWidgetVisible"@) by {
        assert("resizeWindow"@.len() == 12);
        assert("setWidgetVisible"@.len() == 16);
    };
    assert("runtimeError"@ != "shutdown"@) by {
        assert("runtimeError"@.len() == 12);
        assert("shutdown"@.len() == 8);
    };
    assert("runtimeError"@ != "uiEvent"@) by {
        assert("runtimeError"@.len() == 12);
        assert("uiEvent"@.len() == 7);
    };
    assert("runtimeError"@ != "widgetAction"@) by {
        assert("runtimeError"@[0] == 'r');
        assert("widgetAction"@[0] == 'w');
    };
    assert("runtimeError"@ != "windowCloseRequested"@) by {
        assert("runtimeError"@.len() == 12);
        assert("windowCloseRequested"@.len() == 20);
    };
    assert("runtimeError"@ != "windowResized"@) by {
        assert("runtimeError"@.len() == 12);
        assert("windowResized"@.len() == 13);
    };
    assert("setImageData"@ != "setStyleProperty"@) by {
        assert("setImageData"@.len() == 12);
        assert("setStyleProperty"@.len() == 16);
    };
    assert("setImageData"@ != "setTitle"@) by {
        assert("setImageData"@.len() == 12);
        assert("setTitle"@.len() == 8);
    };
    assert("setImageData"@ != "setWidgetChecked"@) by {
        assert("setImageData"@.len() == 12);
        assert("setWidgetChecked"@.len() == 16);
    };
    assert("setImageData"@ != "setWidgetStyle"@) by {
        assert("setImageData"@.len() == 12);
        assert("setWidgetStyle"@.len() == 14);
    };
    assert("setImageData"@ != "setWidgetText"@) by {
        assert("setImageData"@.len() == 12);
        assert("setWidgetText"@.len() == 13);
    };
    assert("setImageData"@ != "setWidgetValue"@) by {
        assert("setImageData"@.len() == 12);
        assert("setWidgetValue"@.len() == 14);
    };
    assert("setImageData"@ != "setWidgetVisible"@) by {
        assert("setImageData"@.len() == 12);
        assert("setWidgetVisible"@.len() == 16);
    };
    assert("setStyleProperty"@ != "setTitle"@) by {
        assert("setStyleProperty"@.len() == 16);
        assert("setTitle"@.len() == 8);
    };
    assert("setStyleProperty"@ != "setWidgetChecked"@) by {
        assert("setStyleProperty"@[3] == 'S');
        assert("setWidgetChecked"@[3] == 'W');
    };
    assert("setStyleProperty"@ != "setWidgetStyle"@) by {
        assert("setStyleProperty"@.len() == 16);
        assert("setWidgetStyle"@.len() == 14);
    };
    assert("setStyleProperty"@ != "setWidgetText"@) by {
        assert("setStyleProperty"@.len() == 16);
        assert("setWidgetText"@.len() == 13);
    };
    assert("setStyleProperty"@ != "setWidgetValue"@) by {
        assert("setStyleProperty"@.len() == 16);
        assert("setWidgetValue"@.len() == 14);
    };
    assert("setStyleProperty"@ != "setWidgetVisible"@) by {
        assert("setStyleProperty"@[3] == 'S');
        assert("setWidgetVisible"@[3] == 'W');
    };
    assert("setTitle"@ != "setWidgetChecked"@) by {
        assert("setTitle"@.len() == 8);
        assert("setWidgetChecked"@.len() == 16);
    };
    assert("setTitle"@ != "setWidgetStyle"@) by {
        assert("setTitle"@.len() == 8);
        assert("setWidgetStyle"@.len() == 14);
    };
    assert("setTitle"@ != "setWidgetText"@) by {
        assert("setTitle"@.len() == 8);
        assert("setWidgetText"@.len() == 13);
    };
    assert("setTitle"@ != "setWidgetValue"@) by {
        assert("setTitle"@.len() == 8);
        assert("setWidgetValue"@.len() == 14);
    };
    assert("setTitle"@ != "setWidgetVisible"@) by {
        assert("setTitle"@.len() == 8);
        assert("setWidgetVisible"@.len() == 16);
    };
    assert("setWidgetChecked"@ != "setWidgetStyle"@) by {
        assert("setWidgetChecked"@.len() == 16);
        assert("setWidgetStyle"@.len() == 14);
    };
    assert("setWidgetChecked"@ != "setWidgetText"@) by {
        assert("setWidgetChecked"@.len() == 16);
        assert("setWidgetText"@.len() == 13);
    };
    assert("setWidgetChecked"@ != "setWidgetValue"@) by {
        assert("setWidgetChecked"@.len() == 16);
        assert("setWidgetValue"@.len() == 14);
    };
    assert("setWidgetChecked"@ != "setWidgetVisible"@) by {
        assert("setWidgetChecked"@[9] == 'C');
        assert("setWidgetVisible"@[9] == 'V');
    };
    assert("setWidgetStyle"@ != "setWidgetText"@) by {
        assert("setWidgetStyle"@.len() == 14);
        assert("setWidgetText"@.len() == 13);
    };
    assert("setWidgetStyle"@ != "setWidgetValue"@) by {
        assert("setWidgetStyle"@[9] == 'S');
        assert("setWidgetValue"@[9] == 'V');
    };
    assert("setWidgetStyle"@ != "setWidgetVisible"@) by {
        assert("setWidgetStyle"@.len() == 14);
        assert("setWidgetVisible"@.len() == 16);
    };
    assert("setWidgetText"@ != "setWidgetValue"@) by {
        assert("setWidgetText"@.len() == 13);
        assert("setWidgetValue"@.len() == 14);
    };
    assert("setWidgetText"@ != "setWidgetVisible"@) by {
        assert("setWidgetText"@.len() == 13);
        assert("setWidgetVisible"@.len() == 16);
    };
    assert("setWidgetValue"@ != "setWidgetVisible"@) by {
        assert("setWidgetValue"@.len() == 14);
        assert("setWidgetVisible"@.len() == 16);
    };
    assert("shutdown"@ != "uiEvent"@) by {
        assert("shutdown"@.len() == 8);
        assert("uiEvent"@.len() == 7);
    };
    assert("source"@ != "type"@) by {
        assert("source"@.len() == 6);
        assert("type"@.len() == 4);
    };
    assert("style_json"@ != "text"@) by {
        assert("style_json"@.len() == 10);
        assert("text"@.len() == 4);
    };
    assert("style_json"@ != "type"@) by {
        assert("style_json"@.len() == 10);
        assert("type"@.len() == 4);
    };
    assert("style_json"@ != "widget_params_json"@) by {
        assert("style_json"@.len() == 10);
        assert("widget_params_json"@.len() == 18);
    };
    assert("text"@ != "type"@) by {
        assert("text"@[1] == 'e');
        assert("type"@[1] == 'y');
    };
    assert("text"@ != "widget_params_json"@) by {
        assert("text"@.len() == 4);
        assert("widget_params_json"@.len() == 18);
    };
    assert("textChanged"@ != "valueChanged"@) by {
        assert("textChanged"@.len() == 11);
        assert("valueChanged"@.len() == 12);
    };
    assert("title"@ != "type"@) by {
        assert("title"@.len() == 5);
        assert("type"@.len() == 4);
    };
    assert("type"@ != "value"@) by {
        assert("type"@.len() == 4);
        assert("value"@.len() == 5);
    };
    assert("type"@ != "visible"@) by {
        assert("type"@.len() == 4);
        assert("visible"@.len() == 7);
    };
    assert("type"@ != "widget_id"@) by {
        assert("type"@.len() == 4);
        assert("widget_id"@.len() == 9);
    };
    assert("type"@ != "widget_params_json"@) by {
        assert("type"@.len() == 4);
        assert("widget_params_json"@.len() == 18);
    };
    assert("type"@ != "width"@) by {
        assert("type"@.len() == 4);
        assert("width"@.len() == 5);
    };
    assert("value"@ != "widget_id"@) by {
        assert("value"@.len() == 5);
        assert("widget_id"@.len() == 9);
    };
    assert("widgetAction"@ != "windowCloseRequested"@) by {
        assert("widgetAction"@.len() == 12);
        assert("windowCloseRequested"@.len() == 20);
    };
    assert("widgetAction"@ != "windowResized"@) by {
        assert("widgetAction"@.len() == 12);
        assert("windowResized"@.len() == 13);
    };
    assert("windowCloseRequested"@ != "windowResized"@) by {
        assert("windowCloseRequested"@.len() == 20);
        assert("windowResized"@.len() == 13);
    };
}

/// Reading a command's own entry map back yields the command.
#[verifier::rlimit(100)]
proof fn lemma_command_from_own_entries(m: JsToRustMessageV)
    ensures
        spec_command_from_entries(spec_command_entries(m)) == Some(m),
{
    lemma_wire_literals_distinct();
    let es = spec_command_entries(m);
    match m {
        JsToRustMessageV::SetTitle { title } => {
            assert(es[0].0 == "type"@);
            lemma_find_at(es, "type"@, 0);
            assert(es[1].0 == "title"@);
            lemma_find_at(es, "title"@, 1);
            assert(spec_command_from_entries(es) == Some(m));
        },
        JsToRustMessageV::CreateWidget { id, kind, parent_id, text, style_json, widget_params_json, data } => {
            assert(es[0].0 == "type"@);
            lemma_find_at(es, "type"@, 0);
            assert(es[1].0 == "id"@);
            lemma_find_at(es, "id"@, 1);
            assert(es[2].0 == "kind"@);
            lemma_find_at(es, "kind"@, 2);
            assert(es[3].0 == "parent_id"@);
            lemma_find_at(es, "parent_id"@, 3);
            assert(es[4].0 == "text"@);
            lemma_find_at(es, "text"@, 4);
            assert(es[5].0 == "style_json"@);
            lemma_find_at(es, "style_json"@, 5);
            assert(es[6].0 == "widget_params_json"@);
            lemma_find_at(es, "widget_params_json"@, 6);
            assert(es[7].0 == "data"@);
            lemma_find_at(es, "data"@, 7);
            assert(spec_command_from_entries(es) == Some(m));
        },
        JsToRustMessageV::RemoveWidget { id } => {
            assert(es[0].0 == "type"@);
            lemma_find_at(es, "type"@, 0);
            assert(es[1].0 == "id"@);
            lemma_find_at(es, "id"@, 1);
            assert(spec_command_from_entries(es) == Some(m));
        },
        JsToRustMessageV::SetWidgetText { id, text } => {
            assert(es[0].0 == "type"@);
            lemma_find_at(es, "type"@, 0);
            assert(es[1].0 == "id"@);
            lemma_find_at(es, "id"@, 1);
            assert(es[2].0 == "text"@);
            lemma_find_at(es, "text"@, 2);
            assert(spec_command_from_entries(es) == Some(m));
        },
        JsToRustMessageV::SetWidgetVisible { id, visible } => {
            assert(es[0].0 == "type"@);
            lemma_find_at(es, "type"@, 0);
            assert(es[1].0 == "id"@);
            lemma_find_at(es, "id"@, 1);
            assert(es[2].0 == "visible"@);
            lemma_find_at(es, "visible"@, 2);
            assert(spec_command_from_entries(es) == Some(m));
        },
        JsToRustMessageV::SetWidgetStyle { id, style_json } => {
            assert(es[0].0 == "type"@);
            lemma_find_at(es, "type"@, 0);
            assert(es[1].0 == "id"@);
            lemma_find_at(es, "id"@, 1);
            assert(es[2].0 == "style_json"@);
            lemma_find_at(es, "style_json"@, 2);
            assert(spec_command_from_entries(es) == Some(m));
        },
        JsToRustMessageV::SetStyleProperty { id, property, value } => {
            assert(es[0].0 == "type"@);
            lemma_find_at(es, "type"@, 0);
            assert(es[1].0 == "id"@);
            lemma_find_at(es, "id"@, 1);
            assert(es[2].0 == "property"@);
            lemma_find_at(es, "property"@, 2);
            assert(es[3].0 == "value"@);
            lemma_find_at(es, "value"@, 3);
            assert(spec_command_from_entries(es) == Some(m));
        },
        JsToRustMessageV::SetWidgetValue { id, bits } => {
            assert(es[0].0 == "type"@);
            lemma_find_at(es, "type"@, 0);
            assert(es[1].0 == "id"@);
            lemma_find_at(es, "id"@, 1);
            assert(es[2].0 == "value"@);
            lemma_find_at(es, "value"@, 2);
            assert(spec_command_from_entries(es) == Some(m));
        },
        JsToRustMessageV::SetWidgetChecked { id, checked } => {
            assert(es[0].0 == "type"@);
            lemma_find_at(es, "type"@, 0);
            assert(es[1].0 == "id"@);
            lemma_find_at(es, "id"@, 1);
            assert(es[2].0 == "checked"@);
            lemma_find_at(es, "checked"@, 2);
            assert(spec_command_from_entries(es) == Some(m));
        },
        JsToRustMessageV::ResizeWindow { width, height } => {
            assert(es[0].0 == "type"@);
            lemma_find_at(es, "type"@, 0);
            assert(es[1].0 == "width"@);
            lemma_find_at(es, "width"@, 1);
            assert(es[2].0 == "height"@);
            lemma_find_at(es, "height"@, 2);
            assert(spec_command_from_entries(es) == Some(m));
        },
        JsToRustMessageV::CloseWindow => {
            assert(es[0].0 == "type"@);
            lemma_find_at(es, "type"@, 0);
            assert(spec_command_from_entries(es) == Some(m));
        },
        JsToRustMessageV::ExitApp => {
            assert(es[0].0 == "type"@);
            lemma_find_at(es, "type"@, 0);
            assert(spec_command_from_entries(es) == Some(m));
        },
        JsToRustMessageV::SetImageData { id, data } => {
            assert(es[0].0 == "type"@);
            lemma_find_at(es, "type"@, 0);
            assert(es[1].0 == "id"@);
            lemma_find_at(es, "id"@, 1);
            assert(es[2].0 == "data"@);
            lemma_find_at(es, "data"@, 2);
            assert(spec_command_from_entries(es) == Some(m));
        },
    }
}

/// Reading an event message's own entry map back yields the message.
#[verifier::rlimit(100)]
proof fn lemma_event_from_own_entries(m: RustToJsMessageV)
    ensures
        spec_event_from_entries(spec_event_entries(m)) == Some(m),
{
    lemma_wire_literals_distinct();
    let es = spec_event_entries(m);
    match m {
        RustToJsMessageV::RuntimeError { source, message, fatal } => {
            assert(es[0].0 == "type"@);
            lemma_find_at(es, "type"@, 0);
            assert(es[1].0 == "source"@);
            lemma_find_at(es, "source"@, 1);
            assert(es[2].0 == "message"@);
            lemma_find_at(es, "message"@, 2);
            assert(es[3].0 == "fatal"@);
            lemma_find_at(es, "fatal"@, 3);
            assert(spec_event_from_entries(es) == Some(m));
        },
        RustToJsMessageV::Shutdown => {
            assert(es[0].0 == "type"@);
            lemma_find_at(es, "type"@, 0);
            assert(spec_event_from_entries(es) == Some(m));
        },
        RustToJsMessageV::UiEvent { event } => {
            match event {
                UiEventV::WidgetAction { widget_id, action } => {
                    match action {
                        WidgetActionKindV::Click => {
            assert(es[0].0 == "type"@);
            lemma_find_at(es, "type"@, 0);
            assert(es[1].0 == "event"@);
            lemma_find_at(es, "event"@, 1);
            assert(es[2].0 == "widget_id"@);
            lemma_find_at(es, "widget_id"@, 2);
            assert(es[3].0 == "action"@);
            lemma_find_at(es, "action"@, 3);
            assert(spec_event_from_entries(es) == Some(m));
        },
                        WidgetActionKindV::DoubleClick => {
            assert(es[0].0 == "type"@);
            lemma_find_at(es, "type"@, 0);
            assert(es[1].0 == "event"@);
            lemma_find_at(es, "event"@, 1);
            assert(es[2].0 == "widget_id"@);
            lemma_find_at(es, "widget_id"@, 2);
            assert(es[3].0 == "action"@);
            lemma_find_at(es, "action"@, 3);
            assert(spec_event_from_entries(es) == Some(m));
        },
                        WidgetActionKindV::TextChanged(t) => {
            assert(es[0].0 == "type"@);
            lemma_find_at(es, "type"@, 0);
            assert(es[1].0 == "event"@);
            lemma_find_at(es, "event"@, 1);
            assert(es[2].0 == "widget_id"@);
            lemma_find_at(es, "widget_id"@, 2);
            assert(es[3].0 == "action"@);
            lemma_find_at(es, "action"@, 3);
            assert(es[4].0 == "value"@);
            lemma_find_at(es, "value"@, 4);
            assert(spec_event_from_entries(es) == Some(m));
        },
                        WidgetActionKindV::ValueChanged { bits } => {
            assert(es[0].0 == "type"@);
            lemma_find_at(es, "type"@, 0);
            assert(es[1].0 == "event"@);
            lemma_find_at(es, "event"@, 1);
            assert(es[2].0 == "widget_id"@);
            lemma_find_at(es, "widget_id"@, 2);
            assert(es[3].0 == "action"@);
            lemma_find_at(es, "action"@, 3);
            assert(es[4].0 == "value"@);
            lemma_find_at(es, "value"@, 4);
            assert(spec_event_from_entries(es) == Some(m));
        },
                        WidgetActionKindV::Custom(t) => {
            assert(es[0].0 == "type"@);
            lemma_find_at(es, "type"@, 0);
            assert(es[1].0 == "event"@);
            lemma_find_at(es, "event"@, 1);
            assert(es[2].0 == "widget_id"@);
            lemma_find_at(es, "widget_id"@, 2);
            assert(es[3].0 == "action"@);
            lemma_find_at(es, "action"@, 3);
            assert(es[4].0 == "value"@);
            lemma_find_at(es, "value"@, 4);
            assert(spec_event_from_entries(es) == Some(m));
        },
                    }
                },
                UiEventV::WindowResized { width, height } => {
            assert(es[0].0 == "type"@);
            lemma_find_at(es, "type"@, 0);
            assert(es[1].0 == "event"@);
            lemma_find_at(es, "event"@, 1);
            assert(es[2].0 == "width"@);
            lemma_find_at(es, "width"@, 2);
            assert(es[3].0 == "height"@);
            lemma_find_at(es, "height"@, 3);
            assert(spec_event_from_entries(es) == Some(m));
        },
                UiEventV::WindowCloseRequested => {
            assert(es[0].0 == "type"@);
            lemma_find_at(es, "type"@, 0);
            assert(es[1].0 == "event"@);
            lemma_find_at(es, "event"@, 1);
            assert(spec_event_from_entries(es) == Some(m));
        },
                UiEventV::AppExit => {
            assert(es[0].0 == "type"@);
            lemma_find_at(es, "type"@, 0);
            assert(es[1].0 == "event"@);
            lemma_find_at(es, "event"@, 1);
            assert(spec_event_from_entries(es) == Some(m));
        },
                UiEventV::RuntimeError { source, message, fatal } => {
            assert(es[0].0 == "type"@);
            lemma_find_at(es, "type"@, 0);
            assert(es[1].0 == "event"@);
            lemma_find_at(es, "event"@, 1);
            assert(es[2].0 == "source"@);
            lemma_find_at(es, "source"@, 2);
            assert(es[3].0 == "message"@);
            lemma_find_at(es, "message"@, 3);
            assert(es[4].0 == "fatal"@);
            lemma_find_at(es, "fatal"@, 4);
            assert(spec_event_from_entries(es) == Some(m));
        },
            }
        },
    }
}

/// The entry list of a Client→Host message, keys and values in wire order.
#[verifier::rlimit(100)]
fn command_entries(m: &JsToRustMessage) -> (r: Vec<(String, WireScalar)>)
    ensures
        entry_pairs_view(r@) == spec_command_entries(m@),
{
    let mut es: Vec<(String, WireScalar)> = Vec::new();
    match m {
        JsToRustMessage::SetTitle { title } => {
            es.push((String::from_str("type"), WireScalar::Str(String::from_str("setTitle"))));
            es.push((String::from_str("title"), WireScalar::Str(title.clone())));
        },
        JsToRustMessage::CreateWidget {
            id,
            kind,
            parent_id,
            text,
            style_json,
            widget_params_json,
            data,
        } => {
            es.push((String::from_str("type"), WireScalar::Str(String::from_str("createWidget"))));
            es.push((String::from_str("id"), WireScalar::Str(id.clone())));
            es.push((String::from_str("kind"), WireScalar::Str(kind.clone())));
            es.push((String::from_str("parent_id"), opt_str_wire(parent_id)));
            es.push((String::from_str("text"), opt_str_wire(text)));
            es.push((String::from_str("style_json"), opt_str_wire(style_json)));
            es.push((String::from_str("widget_params_json"), opt_str_wire(widget_params_json)));
            es.push((String::from_str("data"), opt_bin_wire(data)));
        },
        JsToRustMessage::RemoveWidget { id } => {
            es.push((String::from_str("type"), WireScalar::Str(String::from_str("removeWidget"))));
            es.push((String::from_str("id"), WireScalar::Str(id.clone())));
        },
        JsToRustMessage::SetWidgetText { id, text } => {
            es.push((String::from_str("type"), WireScalar::Str(String::from_str("setWidgetText"))));
            es.push((String::from_str("id"), WireScalar::Str(id.clone())));
            es.push((String::from_str("text"), WireScalar::Str(text.clone())));
        },
        JsToRustMessage::SetWidgetVisible { id, visible } => {
            es.push(
                (String::from_str("type"), WireScalar::Str(String::from_str("setWidgetVisible"))),
            );
            es.push((String::from_str("id"), WireScalar::Str(id.clone())));
            es.push((String::from_str("visible"), WireScalar::Bool(*visible)));
        },
        JsToRustMessage::SetWidgetStyle { id, style_json } => {
            es.push(
                (String::from_str("type"), WireScalar::Str(String::from_str("setWidgetStyle"))),
            );
            es.push((String::from_str("id"), WireScalar::Str(id.clone())));
            es.push((String::from_str("style_json"), WireScalar::Str(style_json.clone())));
        },
        JsToRustMessage::SetStyleProperty { id, property, value } => {
            es.push(
                (String::from_str("type"), WireScalar::Str(String::from_str("setStyleProperty"))),
            );
            es.push((String::from_str("id"), WireScalar::Str(id.clone())));
            es.push((String::from_str("property"), WireScalar::Str(property.clone())));
            es.push((String::from_str("value"), WireScalar::Str(value.clone())));
        },
        JsToRustMessage::SetWidgetValue { id, bits } => {
            es.push(
                (String::from_str("type"), WireScalar::Str(String::from_str("setWidgetValue"))),
            );
            es.push((String::from_str("id"), WireScalar::Str(id.clone())));
            es.push((String::from_str("value"), WireScalar::Num { bits: *bits }));
        },
        JsToRustMessage::SetWidgetChecked { id, checked } => {
            es.push(
                (String::from_str("type"), WireScalar::Str(String::from_str("setWidgetChecked"))),
            );
            es.push((String::from_str("id"), WireScalar::Str(id.clone())));
            es.push((String::from_str("checked"), WireScalar::Bool(*checked)));
        },
        JsToRustMessage::ResizeWindow { width, height } => {
            es.push((String::from_str("type"), WireScalar::Str(String::from_str("resizeWindow"))));
            es.push((String::from_str("width"), WireScalar::UInt(*width as u64)));
            es.push((String::from_str("height"), WireScalar::UInt(*height as u64)));
        },
        JsToRustMessage::CloseWindow => {
            es.push((String::from_str("type"), WireScalar::Str(String::from_str("closeWindow"))));
        },
        JsToRustMessage::ExitApp => {
            es.push((String::from_str("type"), WireScalar::Str(String::from_str("exitApp"))));
        },
        JsToRustMessage::SetImageData { id, data } => {
            es.push((String::from_str("type"), WireScalar::Str(String::from_str("setImageData"))));
            es.push((String::from_str("id"), WireScalar::Str(id.clone())));
            es.push(
                (
                    String::from_str("data"),
                    WireScalar::Bin(crate::wire::dup_bytes(data)),
                ),
            );
        },
    }
    proof {
        assert(entry_pairs_view(es@) =~= spec_command_entries(m@));
    }
    es
}

/// The entry list of a Host→Client message, the event payload flattened.
#[verifier::rlimit(100)]
fn event_entries(m: &RustToJsMessage) -> (r: Vec<(String, WireScalar)>)
    ensures
        entry_pairs_view(r@) == spec_event_entries(m@),
{
    let mut es: Vec<(String, WireScalar)> = Vec::new();
    match m {
        RustToJsMessage::RuntimeError { source, message, fatal } => {
            es.push((String::from_str("type"), WireScalar::Str(String::from_str("runtimeError"))));
            es.push((String::from_str("source"), WireScalar::Str(source.clone())));
            es.push((String::from_str("message"), WireScalar::Str(message.clone())));
            es.push((String::from_str("fatal"), WireScalar::Bool(*fatal)));
        },
        RustToJsMessage::Shutdown => {
            es.push((String::from_str("type"), WireScalar::Str(String::from_str("shutdown"))));
        },
        RustToJsMessage::UiEvent { event } => {
            es.push((String::from_str("type"), WireScalar::Str(String::from_str("uiEvent"))));
            match event {
                UiEvent::WidgetAction { widget_id, action } => {
                    es.push(
                        (String::from_str("event"), WireScalar::Str(String::from_str("widgetAction"))),
                    );
                    es.push((String::from_str("widget_id"), WireScalar::Str(widget_id.clone())));
                    match action {
                        WidgetActionKind::Click => {
                            es.push(
                                (String::from_str("action"), WireScalar::Str(String::from_str("click"))),
                            );
                        },
                        WidgetActionKind::DoubleClick => {
                            es.push(
                                (
                                    String::from_str("action"),
                                    WireScalar::Str(String::from_str("doubleClick")),
                                ),
                            );
                        },
                        WidgetActionKind::TextChanged(t) => {
                            es.push(
                                (
                                    String::from_str("action"),
                                    WireScalar::Str(String::from_str("textChanged")),
                                ),
                            );
                            es.push((String::from_str("value"), WireScalar::Str(t.clone())));
                        },
                        WidgetActionKind::ValueChanged { bits } => {
                            es.push(
                                (
                                    String::from_str("action"),
                                    WireScalar::Str(String::from_str("valueChanged")),
                                ),
                            );
                            es.push((String::from_str("value"), WireScalar::Num { bits: *bits }));
                        },
                        WidgetActionKind::Custom(t) => {
                            es.push(
                                (String::from_str("action"), WireScalar::Str(String::from_str("custom"))),
                            );
                            es.push((String::from_str("value"), WireScalar::Str(t.clone())));
                        },
                    }
                },
                UiEvent::WindowResized { width, height } => {
                    es.push(
                        (String::from_str("event"), WireScalar::Str(String::from_str("windowResized"))),
                    );
                    es.push((String::from_str("width"), WireScalar::UInt(*width as u64)));
                    es.push((String::from_str("height"), WireScalar::UInt(*height as u64)));
                },
                UiEvent::WindowCloseRequested => {
                    es.push(
                        (
                            String::from_str("event"),
                            WireScalar::Str(String::from_str("windowCloseRequested")),
                        ),
                    );
                },
                UiEvent::AppExit => {
                    es.push((String::from_str("event"), WireScalar::Str(String::from_str("appExit"))));
                },
                UiEvent::RuntimeError { source, message, fatal } => {
                    es.push(
                        (String::from_str("event"), WireScalar::Str(String::from_str("runtimeError"))),
                    );
                    es.push((String::from_str("source"), WireScalar::Str(source.clone())));
                    es.push((String::from_str("message"), WireScalar::Str(message.clone())));
                    es.push((String::from_str("fatal"), WireScalar::Bool(*fatal)));
                },
            }
        },
    }
    proof {
        assert(entry_pairs_view(es@) =~= spec_event_entries(m@));
    }
    es
}

/// An optional string field as a wire scalar.
fn opt_str_wire(o: &Option<String>) -> (r: WireScalar)
    ensures
        r@ == opt_str_scalar(opt_str_v(o)),
{
    match o {
        Some(s) => WireScalar::Str(s.clone()),
        None => WireScalar::Nil,
    }
}

/// An optional blob field as a wire scalar.
fn opt_bin_wire(o: &Option<Vec<u8>>) -> (r: WireScalar)
    ensures
        r@ == opt_bin_scalar(opt_bin_v(o)),
{
    match o {
        Some(d) => WireScalar::Bin(crate::wire::dup_bytes(d)),
        None => WireScalar::Nil,
    }
}

/// Rebuild a Client→Host message out of its parsed entries.
#[verifier::rlimit(100)]
fn command_from_entries(es: &Vec<(String, WireScalar)>) -> (r: Option<JsToRustMessage>)
    ensures
        match r {
            Some(m) => spec_command_from_entries(entry_pairs_view(es@)) == Some(m@),
            None => spec_command_from_entries(entry_pairs_view(es@)) is None,
        },
{
    let tag = match take_str(es, "type") {
        Some(t) => t,
        None => {
            return None;
        },
    };
    let t = tag.as_str();
    if str_eq(t, "setTitle") {
        match take_str(es, "title") {
            Some(title) => Some(JsToRustMessage::SetTitle { title }),
            None => None,
        }
    } else if str_eq(t, "createWidget") {
        let id = match take_str(es, "id") {
            Some(v) => v,
            None => {
                return None;
            },
        };
        let kind = match take_str(es, "kind") {
            Some(v) => v,
            None => {
                return None;
            },
        };
        let parent_id = match take_opt_str(es, "parent_id") {
            Some(v) => v,
            None => {
                return None;
            },
        };
        let text = match take_opt_str(es, "text") {
            Some(v) => v,
            None => {
                return None;
            },
        };
        let style_json = match take_opt_str(es, "style_json") {
            Some(v) => v,
            None => {
                return None;
            },
        };
        let widget_params_json = match take_opt_str(es, "widget_params_json") {
            Some(v) => v,
            None => {
                return None;
            },
        };
        let data = match take_opt_bin(es, "data") {
            Some(v) => v,
            None => {
                return None;
            },
        };
        Some(
            JsToRustMessage::CreateWidget {
                id,
                kind,
                parent_id,
                text,
                style_json,
                widget_params_json,
                data,
            },
        )
    } else if str_eq(t, "removeWidget") {
        match take_str(es, "id") {
            Some(id) => Some(JsToRustMessage::RemoveWidget { id }),
            None => None,
        }
    } else if str_eq(t, "setWidgetText") {
        match (take_str(es, "id"), take_str(es, "text")) {
            (Some(id), Some(text)) => Some(JsToRustMessage::SetWidgetText { id, text }),
            _ => None,
        }
    } else if str_eq(t, "setWidgetVisible") {
        match (take_str(es, "id"), take_bool(es, "visible")) {
            (Some(id), Some(visible)) => Some(JsToRustMessage::SetWidgetVisible { id, visible }),
            _ => None,
        }
    } else if str_eq(t, "setWidgetStyle") {
        match (take_str(es, "id"), take_str(es, "style_json")) {
            (Some(id), Some(style_json)) => Some(
                JsToRustMessage::SetWidgetStyle { id, style_json },
            ),
            _ => None,
        }
    } else if str_eq(t, "setStyleProperty") {
        match (take_str(es, "id"), take_str(es, "property"), take_str(es, "value")) {
            (Some(id), Some(property), Some(value)) => Some(
                JsToRustMessage::SetStyleProperty { id, property, value },
            ),
            _ => None,
        }
    } else if str_eq(t, "setWidgetValue") {
        match (take_str(es, "id"), take_bits(es, "value")) {
            (Some(id), Some(bits)) => Some(JsToRustMessage::SetWidgetValue { id, bits }),
            _ => None,
        }
    } else if str_eq(t, "setWidgetChecked") {
        match (take_str(es, "id"), take_bool(es, "checked")) {
            (Some(id), Some(checked)) => Some(JsToRustMessage::SetWidgetChecked { id, checked }),
            _ => None,
        }
    } else if str_eq(t, "resizeWindow") {
        match (take_u32(es, "width"), take_u32(es, "height")) {
            (Some(width), Some(height)) => Some(JsToRustMessage::ResizeWindow { width, height }),
            _ => None,
        }
    } else if str_eq(t, "closeWindow") {
        Some(JsToRustMessage::CloseWindow)
    } else if str_eq(t, "exitApp") {
        Some(JsToRustMessage::ExitApp)
    } else if str_eq(t, "setImageData") {
        match (take_str(es, "id"), take_bin(es, "data")) {
            (Some(id), Some(data)) => Some(JsToRustMessage::SetImageData { id, data }),
            _ => None,
        }
    } else {
        None
    }
}

/// Rebuild a Host→Client message out of its parsed entries.
#[verifier::rlimit(100)]
fn event_from_entries(es: &Vec<(String, WireScalar)>) -> (r: Option<RustToJsMessage>)
    ensures
        match r {
            Some(m) => spec_event_from_entries(entry_pairs_view(es@)) == Some(m@),
            None => spec_event_from_entries(entry_pairs_view(es@)) is None,
        },
{
    let tag = match take_str(es, "type") {
        Some(t) => t,
        None => {
            return None;
        },
    };
    let t = tag.as_str();
    if str_eq(t, "runtimeError") {
        match (take_str(es, "source"), take_str(es, "message"), take_bool(es, "fatal")) {
            (Some(source), Some(message), Some(fatal)) => Some(
                RustToJsMessage::RuntimeError { source, message, fatal },
            ),
            _ => None,
        }
    } else if str_eq(t, "shutdown") {
        Some(RustToJsMessage::Shutdown)
    } else if str_eq(t, "uiEvent") {
        let ev = match take_str(es, "event") {
            Some(v) => v,
            None => {
                return None;
            },
        };
        let e = ev.as_str();
        if str_eq(e, "widgetAction") {
            let widget_id = match take_str(es, "widget_id") {
                Some(v) => v,
                None => {
                    return None;
                },
            };
            let act = match take_str(es, "action") {
                Some(v) => v,
                None => {
                    return None;
                },
            };
            let a = act.as_str();
            if str_eq(a, "click") {
                Some(
                    RustToJsMessage::UiEvent {
                        event: UiEvent::WidgetAction { widget_id, action: WidgetActionKind::Click },
                    },
                )
            } else if str_eq(a, "doubleClick") {
                Some(
                    RustToJsMessage::UiEvent {
                        event: UiEvent::WidgetAction {
                            widget_id,
                            action: WidgetActionKind::DoubleClick,
                        },
                    },
                )
            } else if str_eq(a, "textChanged") {
                match take_str(es, "value") {
                    Some(v) => Some(
                        RustToJsMessage::UiEvent {
                            event: UiEvent::WidgetAction {
                                widget_id,
                                action: WidgetActionKind::TextChanged(v),
                            },
                        },
                    ),
                    None => None,
                }
            } else if str_eq(a, "valueChanged") {
                match take_bits(es, "value") {
                    Some(bits) => Some(
                        RustToJsMessage::UiEvent {
                            event: UiEvent::WidgetAction {
                                widget_id,
                                action: WidgetActionKind::ValueChanged { bits },
                            },
                        },
                    ),
                    None => None,
                }
            } else if str_eq(a, "custom") {
                match take_str(es, "value") {
                    Some(v) => Some(
                        RustToJsMessage::UiEvent {
                            event: UiEvent::WidgetAction {
                                widget_id,
                                action: WidgetActionKind::Custom(v),
                            },
                        },
                    ),
                    None => None,
                }
            } else {
                None
            }
        } else if str_eq(e, "windowResized") {
            match (take_u32(es, "width"), take_u32(es, "height")) {
                (Some(width), Some(height)) => Some(
                    RustToJsMessage::UiEvent { event: UiEvent::WindowResized { width, height } },
                ),
                _ => None,
            }
        } else if str_eq(e, "windowCloseRequested") {
            Some(RustToJsMessage::UiEvent { event: UiEvent::WindowCloseRequested })
        } else if str_eq(e, "appExit") {
            Some(RustToJsMessage::UiEvent { event: UiEvent::AppExit })
        } else if str_eq(e, "runtimeError") {
            match (take_str(es, "source"), take_str(es, "message"), take_bool(es, "fatal")) {
                (Some(source), Some(message), Some(fatal)) => Some(
                    RustToJsMessage::UiEvent {
                        event: UiEvent::RuntimeError { source, message, fatal },
                    },
                ),
                _ => None,
            }
        } else {
            None
        }
    } else {
        None
    }
}

/// The four little-endian length bytes of a frame header.
pub open spec fn le32(n: u32) -> Seq<u8> {
    seq![
        (n % 256) as u8,
        ((n / 256) % 256) as u8,
        ((n / 0x10000) % 256) as u8,
        (n / 0x1000000) as u8,
    ]
}

/// One frame: four little-endian length bytes, then exactly that many
/// payload bytes.
pub open spec fn spec_frame(payload: Seq<u8>) -> Seq<u8> {
    le32(payload.len() as u32) + payload
}

/// What reading one frame off the front of `buf` yields: the payload and
/// the bytes consumed, or nothing when the buffer does not yet hold a full
/// frame.
pub open spec fn spec_parse_frame(buf: Seq<u8>) -> Option<(Seq<u8>, int)> {
    if buf.len() < 4 {
        None
    } else {
        let n = (buf[0] + buf[1] * 0x100 + buf[2] * 0x10000 + buf[3] * 0x1000000) as int;
        if buf.len() < 4 + n {
            None
        } else {
            Some((buf.subrange(4, 4 + n), 4 + n))
        }
    }
}

/// Wrap a payload in a length-prefixed frame. Refused only when the
/// payload is too long for the 32-bit header.
pub fn encode_frame(payload: &Vec<u8>) -> (r: Option<Vec<u8>>)
    ensures
        match r {
            Some(b) => payload@.len() < 0x100000000 && b@ == spec_frame(payload@),
            None => payload@.len() >= 0x100000000,
        },
{
    if payload.len() as u64 >= 0x100000000 {
        return None;
    }
    let n = payload.len() as u32;
    let mut out: Vec<u8> = Vec::new();
    out.push((n % 256) as u8);
    out.push(((n / 256) % 256) as u8);
    out.push(((n / 0x10000) % 256) as u8);
    out.push((n / 0x1000000) as u8);
    proof {
        assert(out@ =~= le32(n));
    }
    crate::wire::push_bytes_pub(&mut out, payload);
    proof {
        assert(out@ =~= spec_frame(payload@));
    }
    Some(out)
}

/// Read one frame off the front of `buf`, yielding its payload and the
/// bytes consumed, or nothing while the buffer holds no full frame yet.
pub fn parse_frame(buf: &Vec<u8>) -> (r: Option<(Vec<u8>, usize)>)
    ensures
        match r {
            Some(p) => spec_parse_frame(buf@) == Some((p.0@, p.1 as int)) && p.1 <= buf@.len(),
            None => spec_parse_frame(buf@) is None,
        },
{
    if buf.len() < 4 {
        return None;
    }
    let n: u64 = (buf[0] as u64) + (buf[1] as u64) * 0x100 + (buf[2] as u64) * 0x10000 + (
    buf[3] as u64) * 0x1000000;
    if (buf.len() as u64) < 4 + n {
        return None;
    }
    let len = n as usize;
    let payload = crate::wire::copy_range(buf, 4, 4 + len);
    Some((payload, 4 + len))
}

/// Round-trip framing: a frame followed by any further buffered bytes
/// parses back to exactly its payload and its own length.
pub proof fn lemma_frame_round_trip(payload: Seq<u8>, rest: Seq<u8>)
    requires
        payload.len() < 0x100000000,
    ensures
        spec_parse_frame(spec_frame(payload) + rest) == Some(
            (payload, 4 + payload.len() as int),
        ),
{
    let n = payload.len() as u32;
    let buf = spec_frame(payload) + rest;
    assert(buf[0] == le32(n)[0]);
    assert(buf[1] == le32(n)[1]);
    assert(buf[2] == le32(n)[2]);
    assert(buf[3] == le32(n)[3]);
    assert(buf[0] + buf[1] * 0x100 + buf[2] * 0x10000 + buf[3] * 0x1000000 == n);
    assert(buf.subrange(4, 4 + n as int) =~= payload);
}

/// Round-trip framing end to end: a framed, encoded command at the front
/// of the read buffer parses back to its own payload, and that payload
/// decodes back to the command.
pub proof fn lemma_framed_command_round_trip(m: JsToRustMessageV, rest: Seq<u8>)
    requires
        command_wf(m),
        spec_encode_command(m).len() < 0x100000000,
    ensures
        spec_parse_frame(spec_frame(spec_encode_command(m)) + rest) matches Some(p)
            && spec_decode_command(p.0) == Some(m),
{
    lemma_frame_round_trip(spec_encode_command(m), rest);
    lemma_command_round_trip(m);
}

/// A copy of a scalar whose view equals the original's view.
fn dup_scalar(v: &WireScalar) -> (r: WireScalar)
    ensures
        r@ == v@,
{
    match v {
        WireScalar::Nil => WireScalar::Nil,
        WireScalar::Bool(b) => WireScalar::Bool(*b),
        WireScalar::UInt(n) => WireScalar::UInt(*n),
        WireScalar::Num { bits } => WireScalar::Num { bits: *bits },
        WireScalar::Str(s) => WireScalar::Str(s.clone()),
        WireScalar::Bin(d) => WireScalar::Bin(crate::wire::dup_bytes(d)),
    }
}

/// The first value under `key` among the parsed entries.
#[verifier::loop_isolation(false)]
fn find_val(es: &Vec<(String, WireScalar)>, key: &str) -> (r: Option<WireScalar>)
    ensures
        match r {
            Some(v) => find_entry(entry_pairs_view(es@), key@) == Some(v@),
            None => find_entry(entry_pairs_view(es@), key@) is None,
        },
{
    let ghost ev = entry_pairs_view(es@);
    let n = es.len();
    let mut i: usize = 0;
    while i < n
        invariant
            0 <= i <= n,
            n == es@.len(),
            find_from(ev, key@, 0) == find_from(ev, key@, i as int),
        decreases n - i,
    {
        if str_eq(es[i].0.as_str(), key) {
            proof {
                assert(ev[i as int].0 == key@);
            }
            return Some(dup_scalar(&es[i].1));
        }
        proof {
            assert(ev[i as int].0 != key@);
        }
        i += 1;
    }
    None
}

/// A required string field of the parsed entries.
fn take_str(es: &Vec<(String, WireScalar)>, key: &str) -> (r: Option<String>)
    ensures
        match r {
            Some(v) => get_str(entry_pairs_view(es@), key@) == Some(v@),
            None => get_str(entry_pairs_view(es@), key@) is None,
        },
{
    match find_val(es, key) {
        Some(WireScalar::Str(v)) => Some(v),
        _ => None,
    }
}

/// An optional string field of the parsed entries.
fn take_opt_str(es: &Vec<(String, WireScalar)>, key: &str) -> (r: Option<Option<String>>)
    ensures
        match r {
            Some(v) => get_opt_str(entry_pairs_view(es@), key@) == Some(opt_str_v(&v)),
            None => get_opt_str(entry_pairs_view(es@), key@) is None,
        },
{
    match find_val(es, key) {
        None => Some(None),
        Some(WireScalar::Nil) => Some(None),
        Some(WireScalar::Str(v)) => Some(Some(v)),
        Some(_) => None,
    }
}

/// An optional blob field of the parsed entries.
fn take_opt_bin(es: &Vec<(String, WireScalar)>, key: &str) -> (r: Option<Option<Vec<u8>>>)
    ensures
        match r {
            Some(v) => get_opt_bin(entry_pairs_view(es@), key@) == Some(opt_bin_v(&v)),
            None => get_opt_bin(entry_pairs_view(es@), key@) is None,
        },
{
    match find_val(es, key) {
        None => Some(None),
        Some(WireScalar::Nil) => Some(None),
        Some(WireScalar::Bin(v)) => Some(Some(v)),
        Some(_) => None,
    }
}

/// A required blob field of the parsed entries.
fn take_bin(es: &Vec<(String, WireScalar)>, key: &str) -> (r: Option<Vec<u8>>)
    ensures
        match r {
            Some(v) => get_bin(entry_pairs_view(es@), key@) == Some(v@),
            None => get_bin(entry_pairs_view(es@), key@) is None,
        },
{
    match find_val(es, key) {
        Some(WireScalar::Bin(v)) => Some(v),
        _ => None,
    }
}

/// A required boolean field of the parsed entries.
fn take_bool(es: &Vec<(String, WireScalar)>, key: &str) -> (r: Option<bool>)
    ensures
        r == get_bool(entry_pairs_view(es@), key@),
{
    match find_val(es, key) {
        Some(WireScalar::Bool(b)) => Some(b),
        _ => None,
    }
}

/// A required 32-bit unsigned field of the parsed entries.
fn take_u32(es: &Vec<(String, WireScalar)>, key: &str) -> (r: Option<u32>)
    ensures
        r == get_u32(entry_pairs_view(es@), key@),
{
    match find_val(es, key) {
        Some(WireScalar::UInt(n)) => {
            if n < 0x100000000 {
                Some(n as u32)
            } else {
                None
            }
        },
        _ => None,
    }
}

/// A required double field of the parsed entries, as its bits.
fn take_bits(es: &Vec<(String, WireScalar)>, key: &str) -> (r: Option<u64>)
    ensures
        r == get_bits(entry_pairs_view(es@), key@),
{
    match find_val(es, key) {
        Some(WireScalar::Num { bits }) => Some(bits),
        _ => None,
    }
}

/// Encode an entry map: a compact header, then each key and value.
#[verifier::loop_isolation(false)]
fn encode_entry_map(es: &Vec<(String, WireScalar)>) -> (r: Option<Vec<u8>>)
    ensures
        match r {
            Some(b) => entries_wf(entry_pairs_view(es@)) && b@ == spec_encode_entry_map(
                entry_pairs_view(es@),
            ),
            None => !entries_wf(entry_pairs_view(es@)),
        },
{
    let ghost ev = entry_pairs_view(es@);
    let n = es.len();
    if n >= 16 {
        return None;
    }
    let mut out: Vec<u8> = Vec::new();
    out.push(0x80 + n as u8);
    proof {
        assert(out@ =~= seq![(0x80 + ev.len()) as u8]);
        assert(spec_encode_entry_map(ev) =~= out@ + crate::wire::spec_encode_entries_from(ev, 0));
    }
    let mut i: usize = 0;
    while i < n
        invariant
            0 <= i <= n,
            n == es@.len(),
            n < 16,
            forall|k: int|
                0 <= k < i ==> scalar_wf(WireScalarV::Str((#[trigger] ev[k]).0)) && scalar_wf(
                    ev[k].1,
                ),
            spec_encode_entry_map(ev) == out@ + crate::wire::spec_encode_entries_from(ev, i as int),
        decreases n - i,
    {
        let key_scalar = WireScalar::Str(es[i].0.clone());
        let ok1 = crate::wire::encode_scalar(&mut out, &key_scalar);
        if !ok1 {
            return None;
        }
        let ok2 = crate::wire::encode_scalar(&mut out, &es[i].1);
        if !ok2 {
            return None;
        }
        proof {
            assert(spec_encode_entry_map(ev) =~= out@ + crate::wire::spec_encode_entries_from(
                ev,
                i as int + 1,
            ));
        }
        i += 1;
    }
    Some(out)
}

/// Encode a Client→Host message into one frame payload. Refused only when
/// a string or blob is too long for its 32-bit size header.
pub fn encode_command(m: &JsToRustMessage) -> (r: Option<Vec<u8>>)
    ensures
        match r {
            Some(b) => command_wf(m@) && b@ == spec_encode_command(m@),
            None => !command_wf(m@),
        },
{
    let es = command_entries(m);
    encode_entry_map(&es)
}

/// Encode a Host→Client message into one frame payload.
pub fn encode_event(m: &RustToJsMessage) -> (r: Option<Vec<u8>>)
    ensures
        match r {
            Some(b) => event_wf(m@) && b@ == spec_encode_event(m@),
            None => !event_wf(m@),
        },
{
    let es = event_entries(m);
    encode_entry_map(&es)
}

/// Decode a Client→Host frame payload.
pub fn decode_command(bytes: &Vec<u8>) -> (r: Option<JsToRustMessage>)
    ensures
        match r {
            Some(m) => spec_decode_command(bytes@) == Some(m@),
            None => spec_decode_command(bytes@) is None,
        },
{
    match parse_entries(bytes, 0) {
        Some((es, j)) => {
            if j != bytes.len() {
                return None;
            }
            command_from_entries(&es)
        },
        None => None,
    }
}

/// Decode a Host→Client frame payload.
pub fn decode_event(bytes: &Vec<u8>) -> (r: Option<RustToJsMessage>)
    ensures
        match r {
            Some(m) => spec_decode_event(bytes@) == Some(m@),
            None => spec_decode_event(bytes@) is None,
        },
{
    match parse_entries(bytes, 0) {
        Some((es, j)) => {
            if j != bytes.len() {
                return None;
            }
            event_from_entries(&es)
        },
        None => None,
    }
}

/// Round-trip framing for commands: encoding any well-formed command and
/// decoding the bytes yields the command back.
pub proof fn lemma_command_round_trip(m: JsToRustMessageV)
    requires
        command_wf(m),
    ensures
        spec_decode_command(spec_encode_command(m)) == Some(m),
{
    let es = spec_command_entries(m);
    let enc = spec_encode_command(m);
    assert(enc.subrange(0, enc.len() as int) =~= enc);
    lemma_entries_rt(es, enc, 0);
    lemma_command_from_own_entries(m);
}

/// Round-trip framing for events: encoding any well-formed event message
/// and decoding the bytes yields the message back.
pub proof fn lemma_event_round_trip(m: RustToJsMessageV)
    requires
        event_wf(m),
    ensures
        spec_decode_event(spec_encode_event(m)) == Some(m),
{
    let es = spec_event_entries(m);
    let enc = spec_encode_event(m);
    assert(enc.subrange(0, enc.len() as int) =~= enc);
    lemma_entries_rt(es, enc, 0);
    lemma_event_from_own_entries(m);
}

} // verus!
