//! The command dispatcher: one typed command in, a list of native-tree
//! operations and a list of diagnostics out, with the registry mutated as
//! the single source of truth for what exists and where.
//!
//! Per-command failures never escape: an unknown id, an illegal operation
//! for a kind, a missing or full parent each become exactly one non-fatal
//! diagnostic and no native operation, leaving the registry untouched.

use vstd::prelude::*;

verus! {

use crate::kind::ChildPolicy;
use crate::kind::WidgetKind;
use crate::kind::accepts_checked;
use crate::kind::accepts_image;
use crate::kind::accepts_style;
use crate::kind::accepts_text;
use crate::kind::accepts_value;
use crate::kind::child_policy;
use crate::kind::spec_accepts_checked;
use crate::kind::spec_accepts_image;
use crate::kind::spec_accepts_style;
use crate::kind::spec_accepts_text;
use crate::kind::spec_accepts_value;
use crate::kind::spec_child_policy;
use crate::protocol::JsCommand;
use crate::protocol::WidgetData;
use crate::registry::WidgetInfo;
use crate::registry::WidgetManager;
use crate::registry::key_in_subtree;
use crate::registry::remove_result;
use crate::registry::root_key;
use crate::registry::spec_index_of;
use crate::registry::spec_parent_sel;
use crate::registry::spec_root_key;
use crate::style::BoxStyle;
use crate::style::spec_apply_style;
use crate::style::spec_empty_style;
use crate::strutil::str_eq;
use vstd::string::StringExecFns;

/// Everything the native tree needs to build one widget.
#[derive(Debug, Clone)]
pub struct WidgetBuild {
    /// The kind to construct (a grid falls back to a flex column, an
    /// unrecognized kind to a label).
    pub kind: WidgetKind,
    /// Initial text.
    pub text: Option<String>,
    /// Style payload to apply at construction.
    pub style: Option<BoxStyle>,
    /// Type-specific creation data.
    pub data: Option<WidgetData>,
}

/// One mutation of the native tree or host window, described as a value:
/// the dispatcher decides, the native side performs.
#[derive(Debug, Clone)]
pub enum NativeOp {
    /// Set the window title.
    SetTitle {
        /// The new title.
        title: String,
    },
    /// Resize the window.
    Resize {
        /// New width in pixels.
        width: u32,
        /// New height in pixels.
        height: u32,
    },
    /// Tell the host event loop to exit.
    Exit,
    /// Construct a widget and attach it to its parent.
    Attach {
        /// The parent's native handle; `None` means the root container.
        parent: Option<u64>,
        /// The fresh handle assigned to the new widget.
        handle: u64,
        /// What to build.
        build: WidgetBuild,
    },
    /// Replace a widget's text in place.
    SetText {
        /// Target handle.
        handle: u64,
        /// The target's kind, deciding which native mutation applies.
        kind: WidgetKind,
        /// New text.
        text: String,
    },
    /// Set a widget's numeric value in place.
    SetValue {
        /// Target handle.
        handle: u64,
        /// The target's kind.
        kind: WidgetKind,
        /// The value's IEEE 754 double bits, carried opaquely.
        bits: u64,
    },
    /// Set a checkbox's checked state in place.
    SetChecked {
        /// Target handle.
        handle: u64,
        /// The new checked state.
        checked: bool,
    },
    /// Patch a widget's style in place.
    ApplyStyle {
        /// Target handle.
        handle: u64,
        /// The target's kind.
        kind: WidgetKind,
        /// The style to apply.
        style: BoxStyle,
    },
    /// Patch the root container's style.
    ApplyRootStyle {
        /// The style to apply.
        style: BoxStyle,
    },
    /// Replace a widget's binary image payload.
    SetImageData {
        /// Target handle.
        handle: u64,
        /// The image bytes.
        data: Vec<u8>,
    },
    /// Remove the child at a position of a container-like parent.
    RemoveChildAt {
        /// The parent's native handle; `None` means the root container.
        parent: Option<u64>,
        /// The parent's kind, deciding which removal entry point applies.
        parent_kind: WidgetKind,
        /// The child position to remove.
        index: usize,
    },
    /// Remove the single child of a single-slot parent.
    RemoveSoleChild {
        /// The parent's native handle.
        parent: u64,
    },
}

/// A non-fatal or fatal report sent back to the client.
#[derive(Debug, Clone)]
pub struct Diagnostic {
    /// Which component reported it.
    pub source: String,
    /// Human-readable description.
    pub message: String,
    /// Whether continuing is unsafe.
    pub fatal: bool,
}

/// No native operation was issued.
pub open spec fn no_ops(ops: Seq<NativeOp>) -> bool {
    ops.len() == 0
}

/// Exactly one non-fatal dispatcher diagnostic was emitted.
pub open spec fn one_diag(diags: Seq<Diagnostic>) -> bool {
    diags.len() == 1 && !diags[0].fatal && diags[0].source@ == "ui-handler"@
}

/// No diagnostic was emitted.
pub open spec fn no_diags(diags: Seq<Diagnostic>) -> bool {
    diags.len() == 0
}

/// The registry is unchanged.
pub open spec fn same_reg(m0: WidgetManager, m1: WidgetManager) -> bool {
    m1.entries_view() == m0.entries_view() && m1.spec_next_handle() == m0.spec_next_handle()
}

/// The parent selector a creation command names: an absent parent id, or
/// the reserved root id, selects the root.
pub open spec fn spec_cmd_parent_sel(parent_id: Option<String>) -> Option<Seq<char>> {
    match parent_id {
        None => None,
        Some(p) => spec_parent_sel(p@),
    }
}

/// The kind recorded for a created widget: a grid is recorded as the flex
/// column it falls back to.
pub open spec fn spec_stored_kind(kind: WidgetKind) -> WidgetKind {
    if kind == WidgetKind::Grid {
        WidgetKind::Flex
    } else {
        kind
    }
}

/// A vector-graphic widget has a payload to render: initial text, or
/// inline markup in its creation data.
pub open spec fn spec_svg_payload_ok(kind: WidgetKind, text: Option<String>, data: Option<WidgetData>) -> bool {
    kind != WidgetKind::Svg || text is Some || (data matches Some(WidgetData::Svg { svg_data })
        && svg_data is Some)
}

/// Whether a creation command is accepted on registry `m`: the id is fresh
/// and not reserved, the parent is the root or a live container with a free
/// slot, a vector-graphic widget has its payload, and a handle can still be
/// allocated.
pub open spec fn spec_create_ok(
    m: WidgetManager,
    id: Seq<char>,
    kind: WidgetKind,
    parent_sel: Option<Seq<char>>,
    text: Option<String>,
    data: Option<WidgetData>,
) -> bool {
    &&& id != spec_root_key()
    &&& !m.spec_contains(id)
    &&& match parent_sel {
        None => true,
        Some(pk) => m.spec_contains(pk) && match spec_child_policy(m.spec_record_of(pk).kind) {
            ChildPolicy::Many => true,
            ChildPolicy::One => m.spec_child_count(Some(pk)) == 0,
            ChildPolicy::Leaf => false,
        },
    }
    &&& spec_svg_payload_ok(kind, text, data)
    &&& m.spec_next_handle() < u64::MAX
}

/// The text of a diagnostic naming the offending parent and its kind.
pub open spec fn spec_parent_diag_message(
    parent_key: Seq<char>,
    parent_kind: WidgetKind,
    what: Seq<char>,
    child: Seq<char>,
) -> Seq<char> {
    "parent '"@ + parent_key + "' of kind "@ + crate::kind::spec_kind_name(parent_kind) + " "@
        + what + " '"@ + child + "'"@
}

/// The text of a diagnostic naming a parent that is not live.
pub open spec fn spec_missing_parent_message(
    parent_key: Seq<char>,
    what: Seq<char>,
    child: Seq<char>,
) -> Seq<char> {
    "parent '"@ + parent_key + "' not found "@ + what + " '"@ + child + "'"@
}

/// The exact diagnostic text a refused creation carries, by the first
/// failing check: a reserved or taken id names the id; a missing, closed
/// or full parent names the parent and its kind; a vector widget without
/// markup and an exhausted handle counter name the id.
pub open spec fn spec_create_fail_message(
    m: WidgetManager,
    id: Seq<char>,
    kind: WidgetKind,
    parent_sel: Option<Seq<char>>,
    text: Option<String>,
    data: Option<WidgetData>,
) -> Seq<char> {
    if id == spec_root_key() {
        "the root id is reserved; cannot create"@ + " '"@ + id + "'"@
    } else if m.spec_contains(id) {
        "widget id is already live:"@ + " '"@ + id + "'"@
    } else if parent_sel matches Some(pk) && !m.spec_contains(pk) {
        spec_missing_parent_message(parent_sel->Some_0, "for"@, id)
    } else if parent_sel matches Some(pk) && spec_child_policy(m.spec_record_of(pk).kind)
        == ChildPolicy::Leaf {
        spec_parent_diag_message(
            parent_sel->Some_0,
            m.spec_record_of(parent_sel->Some_0).kind,
            "cannot hold children for"@,
            id,
        )
    } else if parent_sel matches Some(pk) && spec_child_policy(m.spec_record_of(pk).kind)
        == ChildPolicy::One && m.spec_child_count(Some(pk)) != 0 {
        spec_parent_diag_message(
            parent_sel->Some_0,
            m.spec_record_of(parent_sel->Some_0).kind,
            "holds one child and is already full for"@,
            id,
        )
    } else if !spec_svg_payload_ok(kind, text, data) {
        "vector widget has no markup payload:"@ + " '"@ + id + "'"@
    } else {
        "no native handle could be allocated for"@ + " '"@ + id + "'"@
    }
}

/// What dispatching one command does: how the registry changes, which
/// native operations are issued, and which diagnostics are emitted.
pub open spec fn dispatch_post(
    m0: WidgetManager,
    cmd: JsCommand,
    m1: WidgetManager,
    ops: Seq<NativeOp>,
    diags: Seq<Diagnostic>,
) -> bool {
    match cmd {
        JsCommand::SetTitle(title) => same_reg(m0, m1) && no_diags(diags) && ops.len() == 1 && (
        ops[0] matches NativeOp::SetTitle { title: t } && t == title),
        JsCommand::ResizeWindow { width, height } => same_reg(m0, m1) && no_diags(diags)
            && ops.len() == 1 && (ops[0] matches NativeOp::Resize { width: w, height: h } && w
            == width && h == height),
        JsCommand::CloseWindow => same_reg(m0, m1) && no_diags(diags) && ops.len() == 1 && ops[0]
            is Exit,
        JsCommand::ExitApp => same_reg(m0, m1) && no_diags(diags) && ops.len() == 1 && ops[0]
            is Exit,
        JsCommand::SetWidgetVisible { id, visible } => same_reg(m0, m1) && no_ops(ops) && one_diag(
            diags,
        ),
        JsCommand::SetWidgetText { id, text } => same_reg(m0, m1) && if !m0.spec_contains(id@) {
            no_ops(ops) && one_diag(diags)
        } else {
            let rec = m0.spec_record_of(id@);
            if spec_accepts_text(rec.kind) {
                no_diags(diags) && ops.len() == 1 && (ops[0] matches NativeOp::SetText {
                    handle,
                    kind,
                    text: t,
                } && handle == rec.handle && kind == rec.kind && t == text)
            } else {
                no_ops(ops) && one_diag(diags)
            }
        },
        JsCommand::SetWidgetValue { id, bits } => same_reg(m0, m1) && if !m0.spec_contains(id@) {
            no_ops(ops) && one_diag(diags)
        } else {
            let rec = m0.spec_record_of(id@);
            if spec_accepts_value(rec.kind) {
                no_diags(diags) && ops.len() == 1 && (ops[0] matches NativeOp::SetValue {
                    handle,
                    kind,
                    bits: b,
                } && handle == rec.handle && kind == rec.kind && b == bits)
            } else {
                no_ops(ops) && one_diag(diags)
            }
        },
        JsCommand::SetWidgetChecked { id, checked } => same_reg(m0, m1) && if !m0.spec_contains(
            id@,
        ) {
            no_ops(ops) && one_diag(diags)
        } else {
            let rec = m0.spec_record_of(id@);
            if spec_accepts_checked(rec.kind) {
                no_diags(diags) && ops.len() == 1 && (ops[0] matches NativeOp::SetChecked {
                    handle,
                    checked: c,
                } && handle == rec.handle && c == checked)
            } else {
                no_ops(ops) && one_diag(diags)
            }
        },
        JsCommand::SetImageData { id, data } => same_reg(m0, m1) && if !m0.spec_contains(id@) {
            no_ops(ops) && one_diag(diags)
        } else {
            let rec = m0.spec_record_of(id@);
            if spec_accepts_image(rec.kind) {
                no_diags(diags) && ops.len() == 1 && (ops[0] matches NativeOp::SetImageData {
                    handle,
                    data: d,
                } && handle == rec.handle && d == data)
            } else {
                no_ops(ops) && one_diag(diags)
            }
        },
        JsCommand::SetWidgetStyle { id, style } => same_reg(m0, m1) && style_dispatch_post(
            m0,
            id@,
            style@,
            ops,
            diags,
        ),
        JsCommand::SetStyleProperty { id, property, value } => same_reg(m0, m1)
            && style_dispatch_post(
            m0,
            id@,
            spec_apply_style(spec_empty_style(), property@, value@),
            ops,
            diags,
        ),
        JsCommand::RemoveWidget { id } => remove_dispatch_post(m0, id@, m1, ops, diags),
        JsCommand::CreateWidget { id, kind, parent_id, text, style, data } => {
            let psel = spec_cmd_parent_sel(parent_id);
            if spec_create_ok(m0, id@, kind, psel, text, data) {
                let stored = spec_stored_kind(kind);
                &&& no_diags(diags)
                &&& ops.len() == 1
                &&& (ops[0] matches NativeOp::Attach { parent, handle, build } && {
                    &&& (match psel {
                        None => parent is None,
                        Some(pk) => parent == Some(m0.spec_record_of(pk).handle),
                    })
                    &&& build.kind == stored
                    &&& build.text == text
                    &&& build.style == style
                    &&& build.data == data
                    &&& m1.entries_view() == m0.entries_view().push(
                        (
                            id@,
                            crate::registry::WidgetRec {
                                handle: handle,
                                kind: stored,
                                parent: psel,
                                child_index: m0.spec_child_count(psel),
                            },
                        ),
                    )
                    &&& forall|i: int|
                        0 <= i < m0.entries_view().len() ==> (#[trigger] m0.entries_view()[
                        i]).1.handle != handle
                })
            } else {
                &&& same_reg(m0, m1)
                &&& no_ops(ops)
                &&& one_diag(diags)
                &&& diags[0].message@ == spec_create_fail_message(m0, id@, kind, psel, text, data)
            }
        },
    }
}

/// The style-application path both style entry points share: the reserved
/// root id patches the root container, a live id of a style-capable kind is
/// patched in place, anything else is one diagnostic.
pub open spec fn style_dispatch_post(
    m0: WidgetManager,
    id: Seq<char>,
    style: crate::style::BoxStyleV,
    ops: Seq<NativeOp>,
    diags: Seq<Diagnostic>,
) -> bool {
    if id == spec_root_key() {
        no_diags(diags) && ops.len() == 1 && (ops[0] matches NativeOp::ApplyRootStyle { style: st }
            && st@ == style)
    } else if !m0.spec_contains(id) {
        no_ops(ops) && one_diag(diags)
    } else {
        let rec = m0.spec_record_of(id);
        if spec_accepts_style(rec.kind) {
            no_diags(diags) && ops.len() == 1 && (ops[0] matches NativeOp::ApplyStyle {
                handle,
                kind,
                style: st,
            } && handle == rec.handle && kind == rec.kind && st@ == style)
        } else {
            no_ops(ops) && one_diag(diags)
        }
    }
}

/// The removal path: an absent id is an idempotent no-op with one
/// diagnostic; a live id has one positional (or single-slot) removal issued
/// against its parent — the index clamped, with a diagnostic, were it ever
/// stale — and its whole subtree dropped from the registry with the
/// surviving siblings reindexed.
pub open spec fn remove_dispatch_post(
    m0: WidgetManager,
    id: Seq<char>,
    m1: WidgetManager,
    ops: Seq<NativeOp>,
    diags: Seq<Diagnostic>,
) -> bool {
    if !m0.spec_contains(id) {
        same_reg(m0, m1) && no_ops(ops) && one_diag(diags)
    } else {
        let ev = m0.entries_view();
        let rec = m0.spec_record_of(id);
        let n = m0.spec_child_count(rec.parent);
        let clamped = rec.child_index >= n;
        let used: nat = if clamped {
            (n - 1) as nat
        } else {
            rec.child_index
        };
        &&& m1.entries_view() == remove_result(ev, spec_index_of(ev, id), ev.len() as int)
        &&& m1.spec_next_handle() == m0.spec_next_handle()
        &&& !m1.spec_contains(id)
        &&& forall|k: Seq<char>|
            m1.spec_contains(k) <==> (m0.spec_contains(k) && !key_in_subtree(
                ev,
                spec_index_of(ev, id),
                k,
            ))
        &&& match rec.parent {
            None => no_diags(diags) && ops.len() == 1 && (ops[0] matches NativeOp::RemoveChildAt {
                parent,
                parent_kind,
                index,
            } && parent is None && parent_kind == WidgetKind::Flex && index == used),
            Some(pk) => {
                let prec = m0.spec_record_of(pk);
                match spec_child_policy(prec.kind) {
                    ChildPolicy::Many => no_diags(diags) && ops.len() == 1 && (ops[0] matches
                        NativeOp::RemoveChildAt { parent, parent_kind, index } && parent == Some(
                        prec.handle,
                    ) && parent_kind == prec.kind && index == used),
                    ChildPolicy::One => no_diags(diags) && ops.len() == 1 && (ops[0] matches
                        NativeOp::RemoveSoleChild { parent } && parent == prec.handle),
                    ChildPolicy::Leaf => no_ops(ops) && one_diag(diags),
                }
            },
        }
    }
}

/// Index contiguity: for every parent, after any sequence of creations and
/// removals, the live children's indices are a gap-free permutation of
/// `0 .. n` — every position below the live count is taken, every index is
/// below the count, and no two siblings share one.
pub proof fn lemma_index_contiguity(m: WidgetManager, p: Option<Seq<char>>)
    requires
        m.wf(),
    ensures
        forall|k: nat|
            k < m.spec_child_count(p) ==> #[trigger] crate::registry::has_child_at(
                m.entries_view(),
                p,
                k,
            ),
        forall|i: int|
            0 <= i < m.entries_view().len() && m.entries_view()[i].1.parent == p ==> (
            #[trigger] m.entries_view()[i].1.child_index) < m.spec_child_count(p),
        forall|i: int, j: int|
            0 <= i < j < m.entries_view().len() && m.entries_view()[i].1.parent == p
                && m.entries_view()[j].1.parent == p ==> m.entries_view()[i].1.child_index
                != m.entries_view()[j].1.child_index,
{
}

/// Idempotent removal: dispatching the same removal twice makes one
/// effective mutation; the second pass leaves the registry exactly as the
/// first left it, issues no native operation, and reports exactly one
/// non-fatal "not found" diagnostic.
pub proof fn lemma_remove_idempotent(
    m0: WidgetManager,
    m1: WidgetManager,
    m2: WidgetManager,
    id: String,
    ops1: Seq<NativeOp>,
    diags1: Seq<Diagnostic>,
    ops2: Seq<NativeOp>,
    diags2: Seq<Diagnostic>,
)
    requires
        m0.wf(),
        m1.wf(),
        dispatch_post(m0, JsCommand::RemoveWidget { id }, m1, ops1, diags1),
        dispatch_post(m1, JsCommand::RemoveWidget { id }, m2, ops2, diags2),
    ensures
        m2.entries_view() == m1.entries_view(),
        m2.spec_next_handle() == m1.spec_next_handle(),
        no_ops(ops2),
        one_diag(diags2),
        !m1.spec_contains(id@),
{
    if m0.spec_contains(id@) {
        assert(!m1.spec_contains(id@));
    } else {
        assert(m1.entries_view() == m0.entries_view());
        assert(!m1.spec_contains(id@));
    }
}

/// The id a mutate-by-id command targets.
pub open spec fn cmd_target(cmd: JsCommand) -> Option<Seq<char>> {
    match cmd {
        JsCommand::SetWidgetText { id, .. } => Some(id@),
        JsCommand::SetWidgetValue { id, .. } => Some(id@),
        JsCommand::SetWidgetChecked { id, .. } => Some(id@),
        JsCommand::SetImageData { id, .. } => Some(id@),
        JsCommand::SetWidgetStyle { id, .. } => Some(id@),
        JsCommand::SetStyleProperty { id, .. } => Some(id@),
        JsCommand::SetWidgetVisible { id, .. } => Some(id@),
        _ => None,
    }
}

/// Whether a mutate-by-id command is declared legal on a target kind.
pub open spec fn mutation_capability(cmd: JsCommand, kind: WidgetKind) -> bool {
    match cmd {
        JsCommand::SetWidgetText { .. } => spec_accepts_text(kind),
        JsCommand::SetWidgetValue { .. } => spec_accepts_value(kind),
        JsCommand::SetWidgetChecked { .. } => spec_accepts_checked(kind),
        JsCommand::SetImageData { .. } => spec_accepts_image(kind),
        JsCommand::SetWidgetStyle { .. } => spec_accepts_style(kind),
        JsCommand::SetStyleProperty { .. } => spec_accepts_style(kind),
        JsCommand::SetWidgetVisible { .. } => false,
        _ => true,
    }
}

/// Capability gating: a mutate-by-id command whose target is live but whose
/// kind is not declared legal for it yields zero native mutation, exactly
/// one non-fatal diagnostic, and leaves the registry untouched.
pub proof fn lemma_capability_gating(
    m0: WidgetManager,
    cmd: JsCommand,
    m1: WidgetManager,
    ops: Seq<NativeOp>,
    diags: Seq<Diagnostic>,
)
    requires
        m0.wf(),
        dispatch_post(m0, cmd, m1, ops, diags),
        match cmd_target(cmd) {
            Some(id) => id != spec_root_key() && m0.spec_contains(id) && !mutation_capability(
                cmd,
                m0.spec_record_of(id).kind,
            ),
            None => false,
        },
    ensures
        m1.entries_view() == m0.entries_view(),
        no_ops(ops),
        one_diag(diags),
{
}

/// One non-fatal dispatcher diagnostic about `id`, with its exact text.
fn make_diag(what: &str, id: &str) -> (r: Diagnostic)
    ensures
        !r.fatal,
        r.source@ == "ui-handler"@,
        r.message@ == what@ + " '"@ + id@ + "'"@,
{
    let mut message = String::from_str(what);
    message.append(" '");
    message.append(id);
    message.append("'");
    Diagnostic { source: String::from_str("ui-handler"), message, fatal: false }
}

/// One non-fatal dispatcher diagnostic naming the offending parent, its
/// kind, and the child the command was about, with its exact text.
fn make_parent_diag(parent_key: &str, parent_kind: WidgetKind, what: &str, child: &str) -> (r:
    Diagnostic)
    ensures
        !r.fatal,
        r.source@ == "ui-handler"@,
        r.message@ == spec_parent_diag_message(parent_key@, parent_kind, what@, child@),
{
    let mut message = String::from_str("parent '");
    message.append(parent_key);
    message.append("' of kind ");
    message.append(crate::kind::kind_name(parent_kind));
    message.append(" ");
    message.append(what);
    message.append(" '");
    message.append(child);
    message.append("'");
    Diagnostic { source: String::from_str("ui-handler"), message, fatal: false }
}

/// One non-fatal dispatcher diagnostic naming a parent that is not live
/// and the child the command was about, with its exact text.
fn make_missing_parent_diag(parent_key: &str, what: &str, child: &str) -> (r: Diagnostic)
    ensures
        !r.fatal,
        r.source@ == "ui-handler"@,
        r.message@ == spec_missing_parent_message(parent_key@, what@, child@),
{
    let mut message = String::from_str("parent '");
    message.append(parent_key);
    message.append("' not found ");
    message.append(what);
    message.append(" '");
    message.append(child);
    message.append("'");
    Diagnostic { source: String::from_str("ui-handler"), message, fatal: false }
}

/// The style-application path shared by the full-style and single-property
/// commands.
fn apply_style_command(mgr: &WidgetManager, id: &str, style: BoxStyle) -> (r: (
    Vec<NativeOp>,
    Vec<Diagnostic>,
))
    requires
        mgr.wf(),
    ensures
        style_dispatch_post(*mgr, id@, style@, r.0@, r.1@),
{
    let mut ops: Vec<NativeOp> = Vec::new();
    let mut diags: Vec<Diagnostic> = Vec::new();
    if str_eq(id, root_key()) {
        ops.push(NativeOp::ApplyRootStyle { style });
        return (ops, diags);
    }
    match mgr.get(id) {
        None => {
            diags.push(make_diag("widget not found for style update:", id));
        },
        Some(info) => {
            if accepts_style(info.kind) {
                ops.push(NativeOp::ApplyStyle { handle: info.widget_id, kind: info.kind, style });
            } else {
                diags.push(make_diag("style update is not supported for this kind:", id));
            }
        },
    }
    (ops, diags)
}

/// Dispatch one typed command: mutate the registry, and hand back the
/// native-tree operations to perform and the diagnostics to report. No
/// command failure escapes as anything but a non-fatal diagnostic.
#[verifier::rlimit(100)]
pub fn handle_js_command(mgr: &mut WidgetManager, cmd: JsCommand) -> (r: (
    Vec<NativeOp>,
    Vec<Diagnostic>,
))
    requires
        old(mgr).wf(),
    ensures
        final(mgr).wf(),
        dispatch_post(*old(mgr), cmd, *final(mgr), r.0@, r.1@),
{
    let mut ops: Vec<NativeOp> = Vec::new();
    let mut diags: Vec<Diagnostic> = Vec::new();
    match cmd {
        JsCommand::SetTitle(title) => {
            ops.push(NativeOp::SetTitle { title });
            (ops, diags)
        },
        JsCommand::ResizeWindow { width, height } => {
            ops.push(NativeOp::Resize { width, height });
            (ops, diags)
        },
        JsCommand::CloseWindow => {
            ops.push(NativeOp::Exit);
            (ops, diags)
        },
        JsCommand::ExitApp => {
            ops.push(NativeOp::Exit);
            (ops, diags)
        },
        JsCommand::SetWidgetVisible { id, visible: _ } => {
            diags.push(make_diag("visibility changes are not supported for widget", id.as_str()));
            (ops, diags)
        },
        JsCommand::SetWidgetText { id, text } => {
            match mgr.get(id.as_str()) {
                None => {
                    diags.push(make_diag("widget not found for text update:", id.as_str()));
                },
                Some(info) => {
                    if accepts_text(info.kind) {
                        ops.push(
                            NativeOp::SetText { handle: info.widget_id, kind: info.kind, text },
                        );
                    } else {
                        diags.push(
                            make_diag("text update is not supported for this kind:", id.as_str()),
                        );
                    }
                },
            }
            (ops, diags)
        },
        JsCommand::SetWidgetValue { id, bits } => {
            match mgr.get(id.as_str()) {
                None => {
                    diags.push(make_diag("widget not found for value update:", id.as_str()));
                },
                Some(info) => {
                    if accepts_value(info.kind) {
                        ops.push(
                            NativeOp::SetValue { handle: info.widget_id, kind: info.kind, bits },
                        );
                    } else {
                        diags.push(
                            make_diag("value update is not supported for this kind:", id.as_str()),
                        );
                    }
                },
            }
            (ops, diags)
        },
        JsCommand::SetWidgetChecked { id, checked } => {
            match mgr.get(id.as_str()) {
                None => {
                    diags.push(make_diag("widget not found for checked update:", id.as_str()));
                },
                Some(info) => {
                    if accepts_checked(info.kind) {
                        ops.push(NativeOp::SetChecked { handle: info.widget_id, checked });
                    } else {
                        diags.push(
                            make_diag(
                                "checked update is not supported for this kind:",
                                id.as_str(),
                            ),
                        );
                    }
                },
            }
            (ops, diags)
        },
        JsCommand::SetImageData { id, data } => {
            match mgr.get(id.as_str()) {
                None => {
                    diags.push(make_diag("widget not found for image update:", id.as_str()));
                },
                Some(info) => {
                    if accepts_image(info.kind) {
                        ops.push(NativeOp::SetImageData { handle: info.widget_id, data });
                    } else {
                        diags.push(
                            make_diag("image update is not supported for this kind:", id.as_str()),
                        );
                    }
                },
            }
            (ops, diags)
        },
        JsCommand::SetWidgetStyle { id, style } => apply_style_command(mgr, id.as_str(), style),
        JsCommand::SetStyleProperty { id, property, value } => {
            let mut style = BoxStyle::default();
            crate::style::apply_style_property_public(
                &mut style,
                property.as_str(),
                value.as_str(),
            );
            apply_style_command(mgr, id.as_str(), style)
        },
        JsCommand::RemoveWidget { id } => {
            match mgr.get(id.as_str()) {
                None => {
                    diags.push(
                        make_diag("widget already absent, nothing to remove:", id.as_str()),
                    );
                    (ops, diags)
                },
                Some(info) => {
                    let parent_key_owned: Option<String> = match &info.parent_id {
                        Some(p) => Some(p.clone()),
                        None => None,
                    };
                    let sibling_count = match &parent_key_owned {
                        Some(p) => mgr.current_child_count(p.as_str()),
                        None => mgr.current_child_count(root_key()),
                    };
                    proof {
                        let ev = mgr.entries_view();
                        let i = spec_index_of(ev, id@);
                        assert(0 <= i < ev.len() && ev[i].0 == id@);
                        assert(crate::registry::parent_ok_at(ev, i));
                        assert(ev[i].1.child_index < crate::registry::count_children(
                            ev,
                            ev[i].1.parent,
                        ));
                        assert(info@.child_index < sibling_count);
                    }
                    let used = if info.child_index < sibling_count {
                        info.child_index
                    } else {
                        diags.push(make_diag("stale child index clamped for", id.as_str()));
                        sibling_count - 1
                    };
                    match &parent_key_owned {
                        None => {
                            ops.push(
                                NativeOp::RemoveChildAt {
                                    parent: None,
                                    parent_kind: WidgetKind::Flex,
                                    index: used,
                                },
                            );
                        },
                        Some(p) => {
                            match mgr.get(p.as_str()) {
                                None => {
                                    diags.push(
                                        make_missing_parent_diag(
                                            p.as_str(),
                                            "for the removal of",
                                            id.as_str(),
                                        ),
                                    );
                                },
                                Some(pinfo) => {
                                    match child_policy(pinfo.kind) {
                                        ChildPolicy::Many => {
                                            ops.push(
                                                NativeOp::RemoveChildAt {
                                                    parent: Some(pinfo.widget_id),
                                                    parent_kind: pinfo.kind,
                                                    index: used,
                                                },
                                            );
                                        },
                                        ChildPolicy::One => {
                                            ops.push(
                                                NativeOp::RemoveSoleChild {
                                                    parent: pinfo.widget_id,
                                                },
                                            );
                                        },
                                        ChildPolicy::Leaf => {
                                            diags.push(
                                                make_parent_diag(
                                                    p.as_str(),
                                                    pinfo.kind,
                                                    "cannot remove children under",
                                                    id.as_str(),
                                                ),
                                            );
                                        },
                                    }
                                },
                            }
                        },
                    }
                    let removed = mgr.remove_widget_subtree(id.as_str());
                    proof {
                        assert(removed is Some);
                    }
                    (ops, diags)
                },
            }
        },
        JsCommand::CreateWidget { id, kind, parent_id, text, style, data } => create_and_add_widget(
            mgr,
            id,
            kind,
            parent_id,
            text,
            style,
            data,
        ),
    }
}

/// Create one widget: validate the id and the parent's capacity, allocate
/// a fresh handle, record the widget, and hand back the one attach
/// operation — or exactly one non-fatal diagnostic and no change.
#[verifier::rlimit(100)]
pub fn create_and_add_widget(
    mgr: &mut WidgetManager,
    id: String,
    kind: WidgetKind,
    parent_id: Option<String>,
    text: Option<String>,
    style: Option<BoxStyle>,
    data: Option<WidgetData>,
) -> (r: (Vec<NativeOp>, Vec<Diagnostic>))
    requires
        old(mgr).wf(),
    ensures
        final(mgr).wf(),
        dispatch_post(
            *old(mgr),
            JsCommand::CreateWidget { id, kind, parent_id, text, style, data },
            *final(mgr),
            r.0@,
            r.1@,
        ),
{
    let mut ops: Vec<NativeOp> = Vec::new();
    let mut diags: Vec<Diagnostic> = Vec::new();
    if str_eq(id.as_str(), root_key()) {
        diags.push(make_diag("the root id is reserved; cannot create", id.as_str()));
        return (ops, diags);
    }
    match mgr.get(id.as_str()) {
        Some(_) => {
            diags.push(make_diag("widget id is already live:", id.as_str()));
            return (ops, diags);
        },
        None => {},
    }
    let is_root_parent = match &parent_id {
        None => true,
        Some(p) => str_eq(p.as_str(), root_key()),
    };
    let mut parent_handle: Option<u64> = None;
    if !is_root_parent {
        let p = match &parent_id {
            Some(p) => p,
            None => {
                proof {
                    assert(false);
                }
                return (ops, diags);
            },
        };
        match mgr.get(p.as_str()) {
            None => {
                diags.push(make_missing_parent_diag(p.as_str(), "for", id.as_str()));
                return (ops, diags);
            },
            Some(pinfo) => {
                match child_policy(pinfo.kind) {
                    ChildPolicy::Leaf => {
                        diags.push(
                            make_parent_diag(
                                p.as_str(),
                                pinfo.kind,
                                "cannot hold children for",
                                id.as_str(),
                            ),
                        );
                        return (ops, diags);
                    },
                    ChildPolicy::One => {
                        if mgr.current_child_count(p.as_str()) >= 1 {
                            diags.push(
                                make_parent_diag(
                                    p.as_str(),
                                    pinfo.kind,
                                    "holds one child and is already full for",
                                    id.as_str(),
                                ),
                            );
                            return (ops, diags);
                        }
                        parent_handle = Some(pinfo.widget_id);
                    },
                    ChildPolicy::Many => {
                        parent_handle = Some(pinfo.widget_id);
                    },
                }
            },
        }
    }
    let svg_ok = match kind {
        WidgetKind::Svg => {
            let from_data = match &data {
                Some(WidgetData::Svg { svg_data: Some(_) }) => true,
                _ => false,
            };
            text.is_some() || from_data
        },
        _ => true,
    };
    if !svg_ok {
        diags.push(make_diag("vector widget has no markup payload:", id.as_str()));
        return (ops, diags);
    }
    let stored = match kind {
        WidgetKind::Grid => WidgetKind::Flex,
        k => k,
    };
    let child_index = match &parent_id {
        Some(p) => {
            if is_root_parent {
                mgr.next_child_index(root_key())
            } else {
                mgr.next_child_index(p.as_str())
            }
        },
        None => mgr.next_child_index(root_key()),
    };
    let ghost m_before = *mgr;
    let handle = mgr.fresh_handle();
    if handle == u64::MAX {
        // the allocation counter is exhausted; refuse the creation
        diags.push(make_diag("no native handle could be allocated for", id.as_str()));
        return (ops, diags);
    }
    let normalized_parent: Option<String> = if is_root_parent {
        None
    } else {
        match &parent_id {
            Some(p) => Some(p.clone()),
            None => None,
        }
    };
    let info = WidgetInfo {
        widget_id: handle,
        kind: stored,
        parent_id: normalized_parent,
        child_index,
    };
    let ok = mgr.register(id.clone(), info);
    proof {
        assert(ok);
    }
    ops.push(
        NativeOp::Attach {
            parent: parent_handle,
            handle,
            build: WidgetBuild { kind: stored, text, style, data },
        },
    );
    (ops, diags)
}

} // verus!
