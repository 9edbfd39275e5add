//! The protocol taxonomies: wire messages in both directions, the typed
//! commands the dispatcher consumes, the events the host reports, and the
//! conversion between them.

use vstd::prelude::*;

verus! {

use crate::kind::WidgetKind;
use crate::kind::parse_widget_kind;
use crate::kind::spec_parse_widget_kind;
use crate::num::Num;
use crate::num::parse_decimal;
use crate::num::spec_parse_decimal;
use crate::style::BoxStyle;
use crate::style::extract_json_value;
use crate::style::parse_json_bool;
use crate::style::parse_style_json;
use crate::style::spec_extract_json_value;
use crate::style::spec_parse_json_bool;
use crate::style::spec_parse_style;
use crate::style::spec_unquote;
use crate::style::unquote;
use crate::strutil::spec_trim;
use crate::strutil::trim;
use crate::strutil::trim_quotes;

/// Client→Host wire message: one command per frame, fields as they stand on
/// the wire (kind and styles still text, numbers as raw IEEE 754 bits).
#[derive(Debug, Clone)]
pub enum JsToRustMessage {
    /// Set the window title.
    SetTitle {
        /// The new title.
        title: String,
    },
    /// Create a widget and attach it to a parent.
    CreateWidget {
        /// Logical id the script assigns.
        id: String,
        /// Kind tag, still unparsed.
        kind: String,
        /// Parent id; absent means the implicit root.
        parent_id: Option<String>,
        /// Initial text.
        text: Option<String>,
        /// Style payload as text.
        style_json: Option<String>,
        /// Type-specific parameters as text.
        widget_params_json: Option<String>,
        /// Binary payload (image bytes).
        data: Option<Vec<u8>>,
    },
    /// Remove a widget and its subtree.
    RemoveWidget {
        /// The id to remove.
        id: String,
    },
    /// Replace a widget's text.
    SetWidgetText {
        /// Target id.
        id: String,
        /// New text.
        text: String,
    },
    /// Show or hide a widget.
    SetWidgetVisible {
        /// Target id.
        id: String,
        /// Whether the widget should be visible.
        visible: bool,
    },
    /// Replace a widget's full style.
    SetWidgetStyle {
        /// Target id.
        id: String,
        /// Style payload as text.
        style_json: String,
    },
    /// Set one style property.
    SetStyleProperty {
        /// Target id.
        id: String,
        /// Property key.
        property: String,
        /// Property value as text.
        value: String,
    },
    /// Set a widget's numeric value.
    SetWidgetValue {
        /// Target id.
        id: String,
        /// The value's IEEE 754 double bits, carried opaquely.
        bits: u64,
    },
    /// Set a checkbox's checked state.
    SetWidgetChecked {
        /// Target id.
        id: String,
        /// The new checked state.
        checked: bool,
    },
    /// Resize the window.
    ResizeWindow {
        /// New width in pixels.
        width: u32,
        /// New height in pixels.
        height: u32,
    },
    /// Close the window.
    CloseWindow,
    /// Exit the application.
    ExitApp,
    /// Replace a widget's binary image payload.
    SetImageData {
        /// Target id.
        id: String,
        /// The image bytes.
        data: Vec<u8>,
    },
}

/// What a user interaction on a widget did.
#[derive(Debug, Clone)]
pub enum WidgetActionKind {
    /// The widget was clicked.
    Click,
    /// The widget was double-clicked.
    DoubleClick,
    /// The widget's text changed.
    TextChanged(String),
    /// The widget's numeric value changed.
    ValueChanged {
        /// The value's IEEE 754 double bits, carried opaquely.
        bits: u64,
    },
    /// A toolkit-specific action.
    Custom(String),
}

/// Host→Client notification payload.
#[derive(Debug, Clone)]
pub enum UiEvent {
    /// A user interaction on a logical widget.
    WidgetAction {
        /// The logical id the interaction targeted.
        widget_id: String,
        /// What happened.
        action: WidgetActionKind,
    },
    /// The window was resized.
    WindowResized {
        /// New width in pixels.
        width: u32,
        /// New height in pixels.
        height: u32,
    },
    /// The user asked to close the window.
    WindowCloseRequested,
    /// The application is exiting.
    AppExit,
    /// A non-fatal or fatal runtime error to report to the client.
    RuntimeError {
        /// Which component reported it.
        source: String,
        /// Human-readable description.
        message: String,
        /// Whether continuing is unsafe.
        fatal: bool,
    },
}

/// Host→Client wire message: an event, an error report, or the one terminal
/// shutdown frame.
#[derive(Debug, Clone)]
pub enum RustToJsMessage {
    /// A pass-through UI event.
    UiEvent {
        /// The event payload.
        event: UiEvent,
    },
    /// A runtime-error report.
    RuntimeError {
        /// Which component reported it.
        source: String,
        /// Human-readable description.
        message: String,
        /// Whether continuing is unsafe.
        fatal: bool,
    },
    /// The last frame before the host closes the connection.
    Shutdown,
}

/// Type-specific creation data, extracted from the parameter payloads.
#[derive(Debug, Clone)]
pub enum WidgetData {
    /// A text label.
    Label,
    /// A button, optionally with inline vector markup.
    Button {
        /// Inline vector markup for the button face.
        svg_data: Option<String>,
    },
    /// A vector-graphic widget.
    Svg {
        /// Inline vector markup.
        svg_data: Option<String>,
    },
    /// An image with its encoded bytes.
    Image {
        /// The encoded image bytes.
        data: Vec<u8>,
        /// How the image fits its box.
        object_fit: Option<String>,
    },
    /// A flex container.
    Flex,
    /// A fixed-size box.
    SizedBox,
    /// A checkbox with its initial state.
    Checkbox {
        /// Initial checked state.
        checked: bool,
    },
    /// A single-line text input.
    TextInput {
        /// Placeholder text.
        placeholder: Option<String>,
    },
    /// A multi-line text area.
    TextArea,
    /// A read-only text block.
    Prose,
    /// A progress indicator.
    ProgressBar {
        /// Initial progress, absent for indeterminate.
        progress: Option<Num>,
    },
    /// A spinner.
    Spinner,
    /// A slider with its range and initial value.
    Slider {
        /// Lower bound.
        min: Num,
        /// Upper bound.
        max: Num,
        /// Initial value.
        value: Num,
        /// Step size.
        step: Option<Num>,
    },
    /// A stack of layered children.
    ZStack,
    /// A scrollable viewport.
    Portal,
    /// A grid container.
    Grid,
    /// A hover-sensitive wrapper.
    Hoverable,
    /// An unrecognized kind, kept by name for the fallback label.
    Custom(String),
}

/// The typed command the dispatcher consumes: kind tag, style payload and
/// creation data already parsed.
#[derive(Debug, Clone)]
pub enum JsCommand {
    /// Set the window title.
    SetTitle(String),
    /// Create a widget and attach it to a parent.
    CreateWidget {
        /// Logical id the script assigns.
        id: String,
        /// Parsed kind tag.
        kind: WidgetKind,
        /// Parent id; absent means the implicit root.
        parent_id: Option<String>,
        /// Initial text.
        text: Option<String>,
        /// Parsed style payload.
        style: Option<BoxStyle>,
        /// Parsed type-specific creation data.
        data: Option<WidgetData>,
    },
    /// Remove a widget and its subtree.
    RemoveWidget {
        /// The id to remove.
        id: String,
    },
    /// Replace a widget's text.
    SetWidgetText {
        /// Target id.
        id: String,
        /// New text.
        text: String,
    },
    /// Show or hide a widget.
    SetWidgetVisible {
        /// Target id.
        id: String,
        /// Whether the widget should be visible.
        visible: bool,
    },
    /// Replace a widget's full style.
    SetWidgetStyle {
        /// Target id.
        id: String,
        /// Parsed style payload.
        style: BoxStyle,
    },
    /// Set one style property.
    SetStyleProperty {
        /// Target id.
        id: String,
        /// Property key.
        property: String,
        /// Property value as text.
        value: String,
    },
    /// Set a widget's numeric value.
    SetWidgetValue {
        /// Target id.
        id: String,
        /// The value's IEEE 754 double bits, carried opaquely.
        bits: u64,
    },
    /// Set a checkbox's checked state.
    SetWidgetChecked {
        /// Target id.
        id: String,
        /// The new checked state.
        checked: bool,
    },
    /// Resize the window.
    ResizeWindow {
        /// New width in pixels.
        width: u32,
        /// New height in pixels.
        height: u32,
    },
    /// Close the window.
    CloseWindow,
    /// Exit the application.
    ExitApp,
    /// Replace a widget's binary image payload.
    SetImageData {
        /// Target id.
        id: String,
        /// The image bytes.
        data: Vec<u8>,
    },
}

/// A typed command boxed as a user-event action for the native event loop.
#[derive(Debug, Clone)]
pub struct JsCommandAction(pub JsCommand);

/// A string parameter looked up under `key`: first in the parameter
/// payload, then in the style payload, unquoted.
pub open spec fn spec_get_param_string(
    params: Option<Seq<char>>,
    style: Option<Seq<char>>,
    key: Seq<char>,
) -> Option<Seq<char>> {
    let from_style: Option<Seq<char>> = match style {
        Some(s) => match spec_extract_json_value(s, key) {
            Some(v) => Some(spec_unquote(v)),
            None => None,
        },
        None => None,
    };
    match params {
        Some(p) => match spec_extract_json_value(p, key) {
            Some(v) => Some(spec_unquote(v)),
            None => from_style,
        },
        None => from_style,
    }
}

/// A boolean parameter looked up under `key`, parameter payload first.
pub open spec fn spec_get_param_bool(
    params: Option<Seq<char>>,
    style: Option<Seq<char>>,
    key: Seq<char>,
) -> Option<bool> {
    let from_style: Option<bool> = match style {
        Some(s) => match spec_extract_json_value(s, key) {
            Some(v) => spec_parse_json_bool(v),
            None => None,
        },
        None => None,
    };
    let from_params: Option<bool> = match params {
        Some(p) => match spec_extract_json_value(p, key) {
            Some(v) => spec_parse_json_bool(v),
            None => None,
        },
        None => None,
    };
    match from_params {
        Some(b) => Some(b),
        None => from_style,
    }
}

/// A numeric parameter looked up under `key`, parameter payload first.
pub open spec fn spec_get_param_num(
    params: Option<Seq<char>>,
    style: Option<Seq<char>>,
    key: Seq<char>,
) -> Option<Num> {
    let from_style: Option<Num> = match style {
        Some(s) => match spec_extract_json_value(s, key) {
            Some(v) => spec_parse_decimal(spec_trim(spec_trim(v, None), Some('"'))),
            None => None,
        },
        None => None,
    };
    let from_params: Option<Num> = match params {
        Some(p) => match spec_extract_json_value(p, key) {
            Some(v) => spec_parse_decimal(spec_trim(spec_trim(v, None), Some('"'))),
            None => None,
        },
        None => None,
    };
    match from_params {
        Some(n) => Some(n),
        None => from_style,
    }
}

/// The first hit among two keys.
pub open spec fn spec_get_param_string2(
    params: Option<Seq<char>>,
    style: Option<Seq<char>>,
    k1: Seq<char>,
    k2: Seq<char>,
) -> Option<Seq<char>> {
    match spec_get_param_string(params, style, k1) {
        Some(v) => Some(v),
        None => spec_get_param_string(params, style, k2),
    }
}

/// The first hit among two numeric keys.
pub open spec fn spec_get_param_num2(
    params: Option<Seq<char>>,
    style: Option<Seq<char>>,
    k1: Seq<char>,
    k2: Seq<char>,
) -> Option<Num> {
    match spec_get_param_num(params, style, k1) {
        Some(v) => Some(v),
        None => spec_get_param_num(params, style, k2),
    }
}

/// The first hit among three numeric keys.
pub open spec fn spec_get_param_num3(
    params: Option<Seq<char>>,
    style: Option<Seq<char>>,
    k1: Seq<char>,
    k2: Seq<char>,
    k3: Seq<char>,
) -> Option<Num> {
    match spec_get_param_num(params, style, k1) {
        Some(v) => Some(v),
        None => spec_get_param_num2(params, style, k2, k3),
    }
}

/// The view of an optional owned string.
pub open spec fn opt_str_view(o: Option<String>) -> Option<Seq<char>> {
    match o {
        Some(s) => Some(s@),
        None => None,
    }
}

/// The view of an optional borrowed string.
pub open spec fn opt_ref_view(o: Option<&str>) -> Option<Seq<char>> {
    match o {
        Some(s) => Some(s@),
        None => None,
    }
}

/// Look a string parameter up, parameter payload first, then style payload.
fn get_param_string(params: Option<&str>, style: Option<&str>, key: &str) -> (r: Option<String>)
    ensures
        opt_str_view(r) == spec_get_param_string(opt_ref_view(params), opt_ref_view(style), key@),
{
    let from_params: Option<String> = match params {
        Some(p) => match extract_json_value(p, key) {
            Some(v) => Some(unquote(v.as_str())),
            None => None,
        },
        None => None,
    };
    match from_params {
        Some(v) => Some(v),
        None => match style {
            Some(s) => match extract_json_value(s, key) {
                Some(v) => Some(unquote(v.as_str())),
                None => None,
            },
            None => None,
        },
    }
}

/// Look a boolean parameter up, parameter payload first.
fn get_param_bool(params: Option<&str>, style: Option<&str>, key: &str) -> (r: Option<bool>)
    ensures
        r == spec_get_param_bool(opt_ref_view(params), opt_ref_view(style), key@),
{
    let from_params: Option<bool> = match params {
        Some(p) => match extract_json_value(p, key) {
            Some(v) => parse_json_bool(v.as_str()),
            None => None,
        },
        None => None,
    };
    match from_params {
        Some(v) => Some(v),
        None => match style {
            Some(s) => match extract_json_value(s, key) {
                Some(v) => parse_json_bool(v.as_str()),
                None => None,
            },
            None => None,
        },
    }
}

/// Look a numeric parameter up, parameter payload first.
fn get_param_num(params: Option<&str>, style: Option<&str>, key: &str) -> (r: Option<Num>)
    ensures
        r == spec_get_param_num(opt_ref_view(params), opt_ref_view(style), key@),
{
    let from_params: Option<Num> = match params {
        Some(p) => match extract_json_value(p, key) {
            Some(v) => parse_decimal(trim_quotes(trim(v.as_str()))),
            None => None,
        },
        None => None,
    };
    match from_params {
        Some(v) => Some(v),
        None => match style {
            Some(s) => match extract_json_value(s, key) {
                Some(v) => parse_decimal(trim_quotes(trim(v.as_str()))),
                None => None,
            },
            None => None,
        },
    }
}

/// What `build_widget_data` yields for each kind, over the payload views:
/// `ks` is the raw kind string, `pv` and `sv` the parameter and style
/// payloads, `data_in` the binary payload, `r` the result.
pub open spec fn build_data_post(
    kind: WidgetKind,
    ks: Seq<char>,
    pv: Option<Seq<char>>,
    sv: Option<Seq<char>>,
    data_in: Option<Vec<u8>>,
    r: Option<WidgetData>,
) -> bool {
    match kind {
        WidgetKind::Label => r matches Some(WidgetData::Label),
        WidgetKind::Button => r matches Some(WidgetData::Button { svg_data }) && opt_str_view(
            svg_data,
        ) == spec_get_param_string2(pv, sv, "svgData"@, "svg_data"@),
        WidgetKind::Svg => r matches Some(WidgetData::Svg { svg_data }) && opt_str_view(svg_data)
            == (match spec_get_param_string2(pv, sv, "svgData"@, "svg_data"@) {
            Some(v) => Some(v),
            None => spec_get_param_string(pv, sv, "svg"@),
        }),
        WidgetKind::Image => match data_in {
            Some(d) => r matches Some(WidgetData::Image { data, object_fit }) && data == d
                && opt_str_view(object_fit) == spec_get_param_string2(
                pv,
                sv,
                "object_fit"@,
                "objectFit"@,
            ),
            None => r is None,
        },
        WidgetKind::Flex => r matches Some(WidgetData::Flex),
        WidgetKind::Container => r matches Some(WidgetData::Flex),
        WidgetKind::SizedBox => r matches Some(WidgetData::SizedBox),
        WidgetKind::Checkbox => r matches Some(WidgetData::Checkbox { checked }) && checked == (
        match spec_get_param_bool(pv, sv, "checked"@) {
            Some(b) => b,
            None => false,
        }),
        WidgetKind::TextInput => r matches Some(WidgetData::TextInput { placeholder })
            && opt_str_view(placeholder) == spec_get_param_string(pv, sv, "placeholder"@),
        WidgetKind::TextArea => r matches Some(WidgetData::TextArea),
        WidgetKind::Prose => r matches Some(WidgetData::Prose),
        WidgetKind::ProgressBar => r matches Some(WidgetData::ProgressBar { progress }) && progress
            == spec_get_param_num2(pv, sv, "progress"@, "value"@),
        WidgetKind::Spinner => r matches Some(WidgetData::Spinner),
        WidgetKind::Slider => r matches Some(WidgetData::Slider { min, max, value, step }) && min
            == (match spec_get_param_num3(pv, sv, "minValue"@, "min_value"@, "min"@) {
            Some(v) => v,
            None => Num { neg: false, mant: 0, scale: 0 },
        }) && max == (match spec_get_param_num3(pv, sv, "maxValue"@, "max_value"@, "max"@) {
            Some(v) => v,
            None => Num { neg: false, mant: 1, scale: 0 },
        }) && value == (match spec_get_param_num2(pv, sv, "value"@, "progress"@) {
            Some(v) => v,
            None => Num { neg: false, mant: 5, scale: 1 },
        }) && step == spec_get_param_num(pv, sv, "step"@),
        WidgetKind::ZStack => r matches Some(WidgetData::ZStack),
        WidgetKind::Portal => r matches Some(WidgetData::Portal),
        WidgetKind::Grid => r matches Some(WidgetData::Grid),
        WidgetKind::Hoverable => r matches Some(WidgetData::Hoverable),
        WidgetKind::Custom => r matches Some(WidgetData::Custom(name)) && name@ == ks,
    }
}

/// Build the type-specific creation data for a widget from its kind, the
/// raw kind string, the two text payloads and the binary payload. Only an
/// image without its binary payload yields nothing.
pub fn build_widget_data(
    kind: WidgetKind,
    kind_str: &str,
    style_json: Option<&str>,
    params_json: Option<&str>,
    data: Option<Vec<u8>>,
) -> (r: Option<WidgetData>)
    ensures
        build_data_post(
            kind,
            kind_str@,
            opt_ref_view(params_json),
            opt_ref_view(style_json),
            data,
            r,
        ),
{
    match kind {
        WidgetKind::Label => Some(WidgetData::Label),
        WidgetKind::Button => {
            let svg_data = match get_param_string(params_json, style_json, "svgData") {
                Some(v) => Some(v),
                None => get_param_string(params_json, style_json, "svg_data"),
            };
            Some(WidgetData::Button { svg_data })
        },
        WidgetKind::Svg => {
            let svg_data = match get_param_string(params_json, style_json, "svgData") {
                Some(v) => Some(v),
                None => match get_param_string(params_json, style_json, "svg_data") {
                    Some(v) => Some(v),
                    None => get_param_string(params_json, style_json, "svg"),
                },
            };
            Some(WidgetData::Svg { svg_data })
        },
        WidgetKind::Image => {
            match data {
                Some(d) => {
                    let object_fit = match get_param_string(
                        params_json,
                        style_json,
                        "object_fit",
                    ) {
                        Some(v) => Some(v),
                        None => get_param_string(params_json, style_json, "objectFit"),
                    };
                    Some(WidgetData::Image { data: d, object_fit })
                },
                None => None,
            }
        },
        WidgetKind::Flex => Some(WidgetData::Flex),
        WidgetKind::Container => Some(WidgetData::Flex),
        WidgetKind::SizedBox => Some(WidgetData::SizedBox),
        WidgetKind::Checkbox => {
            let checked = match get_param_bool(params_json, style_json, "checked") {
                Some(b) => b,
                None => false,
            };
            Some(WidgetData::Checkbox { checked })
        },
        WidgetKind::TextInput => {
            let placeholder = get_param_string(params_json, style_json, "placeholder");
            Some(WidgetData::TextInput { placeholder })
        },
        WidgetKind::TextArea => Some(WidgetData::TextArea),
        WidgetKind::Prose => Some(WidgetData::Prose),
        WidgetKind::ProgressBar => {
            let progress = match get_param_num(params_json, style_json, "progress") {
                Some(v) => Some(v),
                None => get_param_num(params_json, style_json, "value"),
            };
            Some(WidgetData::ProgressBar { progress })
        },
        WidgetKind::Spinner => Some(WidgetData::Spinner),
        WidgetKind::Slider => {
            let min = match get_param_num(params_json, style_json, "minValue") {
                Some(v) => v,
                None => match get_param_num(params_json, style_json, "min_value") {
                    Some(v) => v,
                    None => match get_param_num(params_json, style_json, "min") {
                        Some(v) => v,
                        None => Num { neg: false, mant: 0, scale: 0 },
                    },
                },
            };
            let max = match get_param_num(params_json, style_json, "maxValue") {
                Some(v) => v,
                None => match get_param_num(params_json, style_json, "max_value") {
                    Some(v) => v,
                    None => match get_param_num(params_json, style_json, "max") {
                        Some(v) => v,
                        None => Num { neg: false, mant: 1, scale: 0 },
                    },
                },
            };
            let value = match get_param_num(params_json, style_json, "value") {
                Some(v) => v,
                None => match get_param_num(params_json, style_json, "progress") {
                    Some(v) => v,
                    None => Num { neg: false, mant: 5, scale: 1 },
                },
            };
            let step = get_param_num(params_json, style_json, "step");
            Some(WidgetData::Slider { min, max, value, step })
        },
        WidgetKind::ZStack => Some(WidgetData::ZStack),
        WidgetKind::Portal => Some(WidgetData::Portal),
        WidgetKind::Grid => Some(WidgetData::Grid),
        WidgetKind::Hoverable => Some(WidgetData::Hoverable),
        WidgetKind::Custom => Some(WidgetData::Custom(kind_str.to_owned())),
    }
}

/// What `handle_client_message` yields for each wire message: the same
/// fields, with the kind tag, style payloads and creation data parsed.
pub open spec fn client_message_post(message: JsToRustMessage, r: Option<JsCommand>) -> bool {
    match message {
        JsToRustMessage::SetTitle { title } => r matches Some(JsCommand::SetTitle(t)) && t
            == title,
        JsToRustMessage::CreateWidget {
            id,
            kind,
            parent_id,
            text,
            style_json,
            widget_params_json,
            data,
        } => r matches Some(
            JsCommand::CreateWidget {
                id: id2,
                kind: kind2,
                parent_id: parent2,
                text: text2,
                style: style2,
                data: data2,
            },
        ) && id2 == id && parent2 == parent_id && text2 == text && kind2
            == spec_parse_widget_kind(kind@) && (match opt_str_view(style_json) {
            Some(sj) => match style2 {
                Some(st) => spec_parse_style(sj) == Some(st@),
                None => spec_parse_style(sj) is None,
            },
            None => style2 is None,
        }) && build_data_post(
            spec_parse_widget_kind(kind@),
            kind@,
            opt_str_view(widget_params_json),
            opt_str_view(style_json),
            data,
            data2,
        ),
        JsToRustMessage::RemoveWidget { id } => r matches Some(JsCommand::RemoveWidget { id: i })
            && i == id,
        JsToRustMessage::SetWidgetText { id, text } => r matches Some(
            JsCommand::SetWidgetText { id: i, text: t },
        ) && i == id && t == text,
        JsToRustMessage::SetWidgetVisible { id, visible } => r matches Some(
            JsCommand::SetWidgetVisible { id: i, visible: v },
        ) && i == id && v == visible,
        JsToRustMessage::SetWidgetStyle { id, style_json } => r matches Some(
            JsCommand::SetWidgetStyle { id: i, style: st },
        ) && i == id && (match spec_parse_style(style_json@) {
            Some(sv) => st@ == sv,
            None => st@ == crate::style::spec_empty_style(),
        }),
        JsToRustMessage::SetStyleProperty { id, property, value } => r matches Some(
            JsCommand::SetStyleProperty { id: i, property: p, value: v },
        ) && i == id && p == property && v == value,
        JsToRustMessage::SetWidgetValue { id, bits } => r matches Some(
            JsCommand::SetWidgetValue { id: i, bits: b },
        ) && i == id && b == bits,
        JsToRustMessage::SetWidgetChecked { id, checked } => r matches Some(
            JsCommand::SetWidgetChecked { id: i, checked: c },
        ) && i == id && c == checked,
        JsToRustMessage::ResizeWindow { width, height } => r matches Some(
            JsCommand::ResizeWindow { width: w, height: h },
        ) && w == width && h == height,
        JsToRustMessage::CloseWindow => r matches Some(JsCommand::CloseWindow),
        JsToRustMessage::ExitApp => r matches Some(JsCommand::ExitApp),
        JsToRustMessage::SetImageData { id, data } => r matches Some(
            JsCommand::SetImageData { id: i, data: d },
        ) && i == id && d == data,
    }
}

/// Turn one decoded wire command into the typed command the dispatcher
/// consumes: parse the kind tag, the style payload and the creation data.
pub fn handle_client_message(message: JsToRustMessage) -> (r: Option<JsCommand>)
    ensures
        client_message_post(message, r),
{
    match message {
        JsToRustMessage::SetTitle { title } => Some(JsCommand::SetTitle(title)),
        JsToRustMessage::CreateWidget {
            id,
            kind,
            parent_id,
            text,
            style_json,
            widget_params_json,
            data,
        } => {
            let parsed_kind = parse_widget_kind(kind.as_str());
            let style = match &style_json {
                Some(sj) => parse_style_json(sj.as_str()),
                None => None,
            };
            let sj_ref: Option<&str> = match &style_json {
                Some(s) => Some(s.as_str()),
                None => None,
            };
            let pj_ref: Option<&str> = match &widget_params_json {
                Some(s) => Some(s.as_str()),
                None => None,
            };
            let widget_data = build_widget_data(parsed_kind, kind.as_str(), sj_ref, pj_ref, data);
            Some(
                JsCommand::CreateWidget {
                    id,
                    kind: parsed_kind,
                    parent_id,
                    text,
                    style,
                    data: widget_data,
                },
            )
        },
        JsToRustMessage::RemoveWidget { id } => Some(JsCommand::RemoveWidget { id }),
        JsToRustMessage::SetWidgetText { id, text } => Some(
            JsCommand::SetWidgetText { id, text },
        ),
        JsToRustMessage::SetWidgetVisible { id, visible } => Some(
            JsCommand::SetWidgetVisible { id, visible },
        ),
        JsToRustMessage::SetWidgetStyle { id, style_json } => {
            let style = match parse_style_json(style_json.as_str()) {
                Some(st) => st,
                None => BoxStyle::default(),
            };
            Some(JsCommand::SetWidgetStyle { id, style })
        },
        JsToRustMessage::SetStyleProperty { id, property, value } => Some(
            JsCommand::SetStyleProperty { id, property, value },
        ),
        JsToRustMessage::SetWidgetValue { id, bits } => Some(
            JsCommand::SetWidgetValue { id, bits },
        ),
        JsToRustMessage::SetWidgetChecked { id, checked } => Some(
            JsCommand::SetWidgetChecked { id, checked },
        ),
        JsToRustMessage::ResizeWindow { width, height } => Some(
            JsCommand::ResizeWindow { width, height },
        ),
        JsToRustMessage::CloseWindow => Some(JsCommand::CloseWindow),
        JsToRustMessage::ExitApp => Some(JsCommand::ExitApp),
        JsToRustMessage::SetImageData { id, data } => Some(JsCommand::SetImageData { id, data }),
    }
}

/// Lift a host-side event into its wire message: an error report keeps its
/// own frame shape, everything else passes through as a plain event.
pub fn runtime_error_from_ui_event(event: UiEvent) -> (r: RustToJsMessage)
    ensures
        match event {
            UiEvent::RuntimeError { source, message, fatal } => r matches
                RustToJsMessage::RuntimeError { source: s, message: m, fatal: f } && s == source
                && m == message && f == fatal,
            _ => r matches RustToJsMessage::UiEvent { event: e } && e == event,
        },
{
    match event {
        UiEvent::RuntimeError { source, message, fatal } => RustToJsMessage::RuntimeError {
            source,
            message,
            fatal,
        },
        other => RustToJsMessage::UiEvent { event: other },
    }
}

} // verus!
