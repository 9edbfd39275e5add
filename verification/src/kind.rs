//! The closed set of widget kinds and the capability tables that say which
//! operations are legal on each kind.

use vstd::prelude::*;

verus! {

use crate::strutil::str_eq;

/// Closed tag for the native widget type behind a logical id.
///
/// `Custom` stands for any unrecognized kind string; the dispatcher falls
/// back to a plain label for it, keeping the raw name in the creation data.
#[derive(Clone, Copy, PartialEq, Eq, Structural, Debug)]
pub enum WidgetKind {
    Label,
    Button,
    Svg,
    TextInput,
    TextArea,
    Checkbox,
    Container,
    Flex,
    SizedBox,
    ProgressBar,
    Spinner,
    Slider,
    Image,
    Prose,
    Grid,
    ZStack,
    Portal,
    Hoverable,
    Custom,
}

/// How many children a kind may hold when it stands as a parent.
#[derive(Clone, Copy, PartialEq, Eq, Structural, Debug)]
pub enum ChildPolicy {
    /// Container-like: accepts any number of children.
    Many,
    /// Single-slot: accepts exactly one child.
    One,
    /// Leaf: accepts no children.
    Leaf,
}

/// The kind a given kind string names.
pub open spec fn spec_parse_widget_kind(s: Seq<char>) -> WidgetKind {
    if s == "Label"@ || s == "label"@ {
        WidgetKind::Label
    } else if s == "Button"@ || s == "button"@ || s == "iconButton"@ || s == "icon_button"@ {
        WidgetKind::Button
    } else if s == "Svg"@ || s == "svg"@ || s == "svgIcon"@ || s == "svg_icon"@ || s == "icon"@ {
        WidgetKind::Svg
    } else if s == "TextInput"@ || s == "textInput"@ || s == "text_input"@ {
        WidgetKind::TextInput
    } else if s == "TextArea"@ || s == "textArea"@ || s == "text_area"@ {
        WidgetKind::TextArea
    } else if s == "Checkbox"@ || s == "checkbox"@ {
        WidgetKind::Checkbox
    } else if s == "Container"@ || s == "container"@ {
        WidgetKind::Container
    } else if s == "Flex"@ || s == "flex"@ {
        WidgetKind::Flex
    } else if s == "SizedBox"@ || s == "sizedBox"@ || s == "sized_box"@ || s == "box"@ {
        WidgetKind::SizedBox
    } else if s == "ProgressBar"@ || s == "progressBar"@ || s == "progress_bar"@
        || s == "progress"@ {
        WidgetKind::ProgressBar
    } else if s == "Spinner"@ || s == "spinner"@ || s == "loading"@ {
        WidgetKind::Spinner
    } else if s == "Slider"@ || s == "slider"@ || s == "range"@ {
        WidgetKind::Slider
    } else if s == "Image"@ || s == "image"@ || s == "img"@ {
        WidgetKind::Image
    } else if s == "Prose"@ || s == "prose"@ {
        WidgetKind::Prose
    } else if s == "Grid"@ || s == "grid"@ {
        WidgetKind::Grid
    } else if s == "ZStack"@ || s == "zstack"@ || s == "z_stack"@ || s == "stack"@ {
        WidgetKind::ZStack
    } else if s == "Portal"@ || s == "portal"@ || s == "scroll"@ {
        WidgetKind::Portal
    } else if s == "Hoverable"@ || s == "hoverable"@ {
        WidgetKind::Hoverable
    } else {
        WidgetKind::Custom
    }
}

/// Map a kind string from the wire onto the closed tag.
pub fn parse_widget_kind(kind: &str) -> (r: WidgetKind)
    ensures
        r == spec_parse_widget_kind(kind@),
{
    if str_eq(kind, "Label") || str_eq(kind, "label") {
        WidgetKind::Label
    } else if str_eq(kind, "Button") || str_eq(kind, "button") || str_eq(kind, "iconButton")
        || str_eq(kind, "icon_button") {
        WidgetKind::Button
    } else if str_eq(kind, "Svg") || str_eq(kind, "svg") || str_eq(kind, "svgIcon")
        || str_eq(kind, "svg_icon") || str_eq(kind, "icon") {
        WidgetKind::Svg
    } else if str_eq(kind, "TextInput") || str_eq(kind, "textInput") || str_eq(kind, "text_input") {
        WidgetKind::TextInput
    } else if str_eq(kind, "TextArea") || str_eq(kind, "textArea") || str_eq(kind, "text_area") {
        WidgetKind::TextArea
    } else if str_eq(kind, "Checkbox") || str_eq(kind, "checkbox") {
        WidgetKind::Checkbox
    } else if str_eq(kind, "Container") || str_eq(kind, "container") {
        WidgetKind::Container
    } else if str_eq(kind, "Flex") || str_eq(kind, "flex") {
        WidgetKind::Flex
    } else if str_eq(kind, "SizedBox") || str_eq(kind, "sizedBox") || str_eq(kind, "sized_box")
        || str_eq(kind, "box") {
        WidgetKind::SizedBox
    } else if str_eq(kind, "ProgressBar") || str_eq(kind, "progressBar")
        || str_eq(kind, "progress_bar") || str_eq(kind, "progress") {
        WidgetKind::ProgressBar
    } else if str_eq(kind, "Spinner") || str_eq(kind, "spinner") || str_eq(kind, "loading") {
        WidgetKind::Spinner
    } else if str_eq(kind, "Slider") || str_eq(kind, "slider") || str_eq(kind, "range") {
        WidgetKind::Slider
    } else if str_eq(kind, "Image") || str_eq(kind, "image") || str_eq(kind, "img") {
        WidgetKind::Image
    } else if str_eq(kind, "Prose") || str_eq(kind, "prose") {
        WidgetKind::Prose
    } else if str_eq(kind, "Grid") || str_eq(kind, "grid") {
        WidgetKind::Grid
    } else if str_eq(kind, "ZStack") || str_eq(kind, "zstack") || str_eq(kind, "z_stack")
        || str_eq(kind, "stack") {
        WidgetKind::ZStack
    } else if str_eq(kind, "Portal") || str_eq(kind, "portal") || str_eq(kind, "scroll") {
        WidgetKind::Portal
    } else if str_eq(kind, "Hoverable") || str_eq(kind, "hoverable") {
        WidgetKind::Hoverable
    } else {
        WidgetKind::Custom
    }
}

/// Child capacity of a kind when it stands as a parent: containers and
/// stacks hold any number, a button holds children in its inner row, a
/// sized box or hover wrapper holds exactly one, everything else none.
pub open spec fn spec_child_policy(kind: WidgetKind) -> ChildPolicy {
    match kind {
        WidgetKind::Flex => ChildPolicy::Many,
        WidgetKind::Container => ChildPolicy::Many,
        WidgetKind::ZStack => ChildPolicy::Many,
        WidgetKind::Button => ChildPolicy::Many,
        WidgetKind::SizedBox => ChildPolicy::One,
        WidgetKind::Hoverable => ChildPolicy::One,
        _ => ChildPolicy::Leaf,
    }
}

/// Executable form of the child-capacity table.
pub fn child_policy(kind: WidgetKind) -> (r: ChildPolicy)
    ensures
        r == spec_child_policy(kind),
{
    match kind {
        WidgetKind::Flex => ChildPolicy::Many,
        WidgetKind::Container => ChildPolicy::Many,
        WidgetKind::ZStack => ChildPolicy::Many,
        WidgetKind::Button => ChildPolicy::Many,
        WidgetKind::SizedBox => ChildPolicy::One,
        WidgetKind::Hoverable => ChildPolicy::One,
        _ => ChildPolicy::Leaf,
    }
}

/// Kinds whose text may be replaced in place.
pub open spec fn spec_accepts_text(kind: WidgetKind) -> bool {
    match kind {
        WidgetKind::Label => true,
        WidgetKind::Prose => true,
        WidgetKind::TextInput => true,
        WidgetKind::Svg => true,
        _ => false,
    }
}

/// Executable form of the text-capability table.
pub fn accepts_text(kind: WidgetKind) -> (r: bool)
    ensures
        r == spec_accepts_text(kind),
{
    match kind {
        WidgetKind::Label => true,
        WidgetKind::Prose => true,
        WidgetKind::TextInput => true,
        WidgetKind::Svg => true,
        _ => false,
    }
}

/// Kinds that carry a numeric value.
pub open spec fn spec_accepts_value(kind: WidgetKind) -> bool {
    match kind {
        WidgetKind::ProgressBar => true,
        WidgetKind::Slider => true,
        _ => false,
    }
}

/// Executable form of the value-capability table.
pub fn accepts_value(kind: WidgetKind) -> (r: bool)
    ensures
        r == spec_accepts_value(kind),
{
    match kind {
        WidgetKind::ProgressBar => true,
        WidgetKind::Slider => true,
        _ => false,
    }
}

/// Kinds that carry a checked state.
pub open spec fn spec_accepts_checked(kind: WidgetKind) -> bool {
    kind == WidgetKind::Checkbox
}

/// Executable form of the checked-capability table.
pub fn accepts_checked(kind: WidgetKind) -> (r: bool)
    ensures
        r == spec_accepts_checked(kind),
{
    match kind {
        WidgetKind::Checkbox => true,
        _ => false,
    }
}

/// Kinds whose style may be patched after construction.
pub open spec fn spec_accepts_style(kind: WidgetKind) -> bool {
    match kind {
        WidgetKind::Label => true,
        WidgetKind::Button => true,
        WidgetKind::Svg => true,
        WidgetKind::Flex => true,
        WidgetKind::Container => true,
        WidgetKind::ProgressBar => true,
        WidgetKind::Slider => true,
        WidgetKind::SizedBox => true,
        _ => false,
    }
}

/// Executable form of the style-capability table.
pub fn accepts_style(kind: WidgetKind) -> (r: bool)
    ensures
        r == spec_accepts_style(kind),
{
    match kind {
        WidgetKind::Label => true,
        WidgetKind::Button => true,
        WidgetKind::Svg => true,
        WidgetKind::Flex => true,
        WidgetKind::Container => true,
        WidgetKind::ProgressBar => true,
        WidgetKind::Slider => true,
        WidgetKind::SizedBox => true,
        _ => false,
    }
}

/// Kinds that carry a binary image payload.
pub open spec fn spec_accepts_image(kind: WidgetKind) -> bool {
    kind == WidgetKind::Image
}

/// Executable form of the image-capability table.
pub fn accepts_image(kind: WidgetKind) -> (r: bool)
    ensures
        r == spec_accepts_image(kind),
{
    match kind {
        WidgetKind::Image => true,
        _ => false,
    }
}

/// A short name for a kind, used in diagnostics.
pub fn kind_name(kind: WidgetKind) -> (r: &'static str)
    ensures
        r@ == spec_kind_name(kind),
{
    match kind {
        WidgetKind::Label => "Label",
        WidgetKind::Button => "Button",
        WidgetKind::Svg => "Svg",
        WidgetKind::TextInput => "TextInput",
        WidgetKind::TextArea => "TextArea",
        WidgetKind::Checkbox => "Checkbox",
        WidgetKind::Container => "Container",
        WidgetKind::Flex => "Flex",
        WidgetKind::SizedBox => "SizedBox",
        WidgetKind::ProgressBar => "ProgressBar",
        WidgetKind::Spinner => "Spinner",
        WidgetKind::Slider => "Slider",
        WidgetKind::Image => "Image",
        WidgetKind::Prose => "Prose",
        WidgetKind::Grid => "Grid",
        WidgetKind::ZStack => "ZStack",
        WidgetKind::Portal => "Portal",
        WidgetKind::Hoverable => "Hoverable",
        WidgetKind::Custom => "Custom",
    }
}

/// The name `kind_name` returns for each kind.
pub open spec fn spec_kind_name(kind: WidgetKind) -> Seq<char> {
    match kind {
        WidgetKind::Label => "Label"@,
        WidgetKind::Button => "Button"@,
        WidgetKind::Svg => "Svg"@,
        WidgetKind::TextInput => "TextInput"@,
        WidgetKind::TextArea => "TextArea"@,
        WidgetKind::Checkbox => "Checkbox"@,
        WidgetKind::Container => "Container"@,
        WidgetKind::Flex => "Flex"@,
        WidgetKind::SizedBox => "SizedBox"@,
        WidgetKind::ProgressBar => "ProgressBar"@,
        WidgetKind::Spinner => "Spinner"@,
        WidgetKind::Slider => "Slider"@,
        WidgetKind::Image => "Image"@,
        WidgetKind::Prose => "Prose"@,
        WidgetKind::Grid => "Grid"@,
        WidgetKind::ZStack => "ZStack"@,
        WidgetKind::Portal => "Portal"@,
        WidgetKind::Hoverable => "Hoverable"@,
        WidgetKind::Custom => "Custom"@,
    }
}

} // verus!
