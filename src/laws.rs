//! Laws of merge and resolution, stated leaf by leaf over every option.
use vstd::prelude::*;
use crate::choices::{
    CurrentLineHighlight, DoubleClickInMultibuffer, MultiCursorModifier, ScrollBeyondLastLine,
    SeedQuerySetting, ShowScrollbar,
};
use crate::content::{merged_all, pick, EditorSettingsContent, FloatBits};
use crate::settings::{
    beyond_error, double_click_error, finite_error, first_error, first_error_in, gutter_or_empty,
    highlight_error, jupyter_or_empty, layered_resolution, lemma_prefix_error,
    lemma_valid_documents_merge_valid, modifier_error, non_negative_error, resolution,
    resolved_value, scrollbar_or_empty, seed_error, show_error, toolbar_or_empty, EditorSettings,
    SettingField,
};

verus! {

/// The value of one leaf option: as a layer spells it, or as resolved.
pub enum SettingValue {
    Bool(bool),
    U64(u64),
    U32(u32),
    Float(FloatBits),
    /// A spelling of an enumerated option, not yet decoded.
    Name(String),
    Highlight(CurrentLineHighlight),
    Show(ShowScrollbar),
    BeyondLastLine(ScrollBeyondLastLine),
    Seed(SeedQuerySetting),
    Modifier(MultiCursorModifier),
    DoubleClick(DoubleClickInMultibuffer),
}

pub open spec fn leaf_bool(v: Option<bool>) -> Option<SettingValue> {
    match v {
        Some(x) => Some(SettingValue::Bool(x)),
        None => None,
    }
}

pub open spec fn leaf_u64(v: Option<u64>) -> Option<SettingValue> {
    match v {
        Some(x) => Some(SettingValue::U64(x)),
        None => None,
    }
}

pub open spec fn leaf_u32(v: Option<u32>) -> Option<SettingValue> {
    match v {
        Some(x) => Some(SettingValue::U32(x)),
        None => None,
    }
}

pub open spec fn leaf_float(v: Option<FloatBits>) -> Option<SettingValue> {
    match v {
        Some(x) => Some(SettingValue::Float(x)),
        None => None,
    }
}

pub open spec fn leaf_name(v: Option<String>) -> Option<SettingValue> {
    match v {
        Some(x) => Some(SettingValue::Name(x)),
        None => None,
    }
}

/// What document `c` says of leaf `f`, or `None` where it (or its group) is absent.
pub open spec fn specified(c: EditorSettingsContent, f: SettingField) -> Option<SettingValue> {
    match f {
        SettingField::CursorBlink => leaf_bool(c.cursor_blink),
        SettingField::CurrentLineHighlight => leaf_name(c.current_line_highlight),
        SettingField::HoverPopoverEnabled => leaf_bool(c.hover_popover_enabled),
        SettingField::ShowCompletionsOnInput => leaf_bool(c.show_completions_on_input),
        SettingField::ShowCompletionDocumentation => leaf_bool(c.show_completion_documentation),
        SettingField::CompletionDocumentationSecondaryQueryDebounce => leaf_u64(c.completion_documentation_secondary_query_debounce),
        SettingField::UseOnTypeFormat => leaf_bool(c.use_on_type_format),
        SettingField::ToolbarBreadcrumbs => leaf_bool(toolbar_or_empty(c.toolbar).breadcrumbs),
        SettingField::ToolbarQuickActions => leaf_bool(toolbar_or_empty(c.toolbar).quick_actions),
        SettingField::ToolbarSelectionsMenu => leaf_bool(toolbar_or_empty(c.toolbar).selections_menu),
        SettingField::ScrollbarShow => leaf_name(scrollbar_or_empty(c.scrollbar).show),
        SettingField::ScrollbarGitDiff => leaf_bool(scrollbar_or_empty(c.scrollbar).git_diff),
        SettingField::ScrollbarSelectedSymbol => leaf_bool(scrollbar_or_empty(c.scrollbar).selected_symbol),
        SettingField::ScrollbarSearchResults => leaf_bool(scrollbar_or_empty(c.scrollbar).search_results),
        SettingField::ScrollbarDiagnostics => leaf_bool(scrollbar_or_empty(c.scrollbar).diagnostics),
        SettingField::ScrollbarCursors => leaf_bool(scrollbar_or_empty(c.scrollbar).cursors),
        SettingField::GutterLineNumbers => leaf_bool(gutter_or_empty(c.gutter).line_numbers),
        SettingField::GutterCodeActions => leaf_bool(gutter_or_empty(c.gutter).code_actions),
        SettingField::GutterRunnables => leaf_bool(gutter_or_empty(c.gutter).runnables),
        SettingField::GutterFolds => leaf_bool(gutter_or_empty(c.gutter).folds),
        SettingField::ScrollBeyondLastLine => leaf_name(c.scroll_beyond_last_line),
        SettingField::VerticalScrollMargin => leaf_float(c.vertical_scroll_margin),
        SettingField::ScrollSensitivity => leaf_float(c.scroll_sensitivity),
        SettingField::RelativeLineNumbers => leaf_bool(c.relative_line_numbers),
        SettingField::SeedSearchQueryFromCursor => leaf_name(c.seed_search_query_from_cursor),
        SettingField::MultiCursorModifier => leaf_name(c.multi_cursor_modifier),
        SettingField::RedactPrivateValues => leaf_bool(c.redact_private_values),
        SettingField::ExpandExcerptLines => leaf_u32(c.expand_excerpt_lines),
        SettingField::MiddleClickPaste => leaf_bool(c.middle_click_paste),
        SettingField::DoubleClickInMultibuffer => leaf_name(c.double_click_in_multibuffer),
        SettingField::SearchWrap => leaf_bool(c.search_wrap),
        SettingField::AutoSignatureHelp => leaf_bool(c.auto_signature_help),
        SettingField::ShowSignatureHelpAfterEdits => leaf_bool(c.show_signature_help_after_edits),
        SettingField::JupyterEnabled => leaf_bool(jupyter_or_empty(c.jupyter).enabled),
        SettingField::ShowDiagnosticsInline => leaf_bool(c.show_diagnostics_inline),
    }
}

/// The resolved value of leaf `f`.
pub open spec fn resolved_field(s: EditorSettings, f: SettingField) -> SettingValue {
    match f {
        SettingField::CursorBlink => SettingValue::Bool(s.cursor_blink),
        SettingField::CurrentLineHighlight => SettingValue::Highlight(s.current_line_highlight),
        SettingField::HoverPopoverEnabled => SettingValue::Bool(s.hover_popover_enabled),
        SettingField::ShowCompletionsOnInput => SettingValue::Bool(s.show_completions_on_input),
        SettingField::ShowCompletionDocumentation => SettingValue::Bool(s.show_completion_documentation),
        SettingField::CompletionDocumentationSecondaryQueryDebounce => SettingValue::U64(s.completion_documentation_secondary_query_debounce),
        SettingField::UseOnTypeFormat => SettingValue::Bool(s.use_on_type_format),
        SettingField::ToolbarBreadcrumbs => SettingValue::Bool(s.toolbar.breadcrumbs),
        SettingField::ToolbarQuickActions => SettingValue::Bool(s.toolbar.quick_actions),
        SettingField::ToolbarSelectionsMenu => SettingValue::Bool(s.toolbar.selections_menu),
        SettingField::ScrollbarShow => SettingValue::Show(s.scrollbar.show),
        SettingField::ScrollbarGitDiff => SettingValue::Bool(s.scrollbar.git_diff),
        SettingField::ScrollbarSelectedSymbol => SettingValue::Bool(s.scrollbar.selected_symbol),
        SettingField::ScrollbarSearchResults => SettingValue::Bool(s.scrollbar.search_results),
        SettingField::ScrollbarDiagnostics => SettingValue::Bool(s.scrollbar.diagnostics),
        SettingField::ScrollbarCursors => SettingValue::Bool(s.scrollbar.cursors),
        SettingField::GutterLineNumbers => SettingValue::Bool(s.gutter.line_numbers),
        SettingField::GutterCodeActions => SettingValue::Bool(s.gutter.code_actions),
        SettingField::GutterRunnables => SettingValue::Bool(s.gutter.runnables),
        SettingField::GutterFolds => SettingValue::Bool(s.gutter.folds),
        SettingField::ScrollBeyondLastLine => SettingValue::BeyondLastLine(s.scroll_beyond_last_line),
        SettingField::VerticalScrollMargin => SettingValue::Float(s.vertical_scroll_margin),
        SettingField::ScrollSensitivity => SettingValue::Float(s.scroll_sensitivity),
        SettingField::RelativeLineNumbers => SettingValue::Bool(s.relative_line_numbers),
        SettingField::SeedSearchQueryFromCursor => SettingValue::Seed(s.seed_search_query_from_cursor),
        SettingField::MultiCursorModifier => SettingValue::Modifier(s.multi_cursor_modifier),
        SettingField::RedactPrivateValues => SettingValue::Bool(s.redact_private_values),
        SettingField::ExpandExcerptLines => SettingValue::U32(s.expand_excerpt_lines),
        SettingField::MiddleClickPaste => SettingValue::Bool(s.middle_click_paste),
        SettingField::DoubleClickInMultibuffer => SettingValue::DoubleClick(s.double_click_in_multibuffer),
        SettingField::SearchWrap => SettingValue::Bool(s.search_wrap),
        SettingField::AutoSignatureHelp => SettingValue::Bool(s.auto_signature_help),
        SettingField::ShowSignatureHelpAfterEdits => SettingValue::Bool(s.show_signature_help_after_edits),
        SettingField::JupyterEnabled => SettingValue::Bool(s.jupyter.enabled),
        SettingField::ShowDiagnosticsInline => SettingValue::Bool(s.show_diagnostics_inline),
    }
}

/// A layer's value for leaf `f` as resolution adopts it: spellings decoded.
pub open spec fn decoded(f: SettingField, v: SettingValue) -> SettingValue {
    match v {
        SettingValue::Name(s) => match f {
            SettingField::CurrentLineHighlight => match CurrentLineHighlight::spec_from_name(s@) {
                Some(x) => SettingValue::Highlight(x),
                None => v,
            },
            SettingField::ScrollbarShow => match ShowScrollbar::spec_from_name(s@) {
                Some(x) => SettingValue::Show(x),
                None => v,
            },
            SettingField::ScrollBeyondLastLine => match ScrollBeyondLastLine::spec_from_name(s@) {
                Some(x) => SettingValue::BeyondLastLine(x),
                None => v,
            },
            SettingField::SeedSearchQueryFromCursor => match SeedQuerySetting::spec_from_name(s@) {
                Some(x) => SettingValue::Seed(x),
                None => v,
            },
            SettingField::MultiCursorModifier => match MultiCursorModifier::spec_from_name(s@) {
                Some(x) => SettingValue::Modifier(x),
                None => v,
            },
            SettingField::DoubleClickInMultibuffer => match DoubleClickInMultibuffer::spec_from_name(s@) {
                Some(x) => SettingValue::DoubleClick(x),
                None => v,
            },
            _ => v,
        },
        _ => v,
    }
}

/// True when `f` is an enumerated option and `s` is neither a canonical spelling nor an alias of it.
pub open spec fn rejects(f: SettingField, s: Seq<char>) -> bool {
    match f {
        SettingField::CurrentLineHighlight => CurrentLineHighlight::spec_from_name(s) is None,
        SettingField::ScrollbarShow => ShowScrollbar::spec_from_name(s) is None,
        SettingField::ScrollBeyondLastLine => ScrollBeyondLastLine::spec_from_name(s) is None,
        SettingField::SeedSearchQueryFromCursor => SeedQuerySetting::spec_from_name(s) is None,
        SettingField::MultiCursorModifier => MultiCursorModifier::spec_from_name(s) is None,
        SettingField::DoubleClickInMultibuffer => DoubleClickInMultibuffer::spec_from_name(s) is None,
        _ => false,
    }
}
proof fn lemma_merge_leaf(a: EditorSettingsContent, b: EditorSettingsContent, f: SettingField)
    ensures
        specified(a.merged(b), f) == pick(specified(a, f), specified(b, f)),
{
    match f {
        SettingField::CursorBlink => {},
        SettingField::CurrentLineHighlight => {},
        SettingField::HoverPopoverEnabled => {},
        SettingField::ShowCompletionsOnInput => {},
        SettingField::ShowCompletionDocumentation => {},
        SettingField::CompletionDocumentationSecondaryQueryDebounce => {},
        SettingField::UseOnTypeFormat => {},
        SettingField::ToolbarBreadcrumbs => {},
        SettingField::ToolbarQuickActions => {},
        SettingField::ToolbarSelectionsMenu => {},
        SettingField::ScrollbarShow => {},
        SettingField::ScrollbarGitDiff => {},
        SettingField::ScrollbarSelectedSymbol => {},
        SettingField::ScrollbarSearchResults => {},
        SettingField::ScrollbarDiagnostics => {},
        SettingField::ScrollbarCursors => {},
        SettingField::GutterLineNumbers => {},
        SettingField::GutterCodeActions => {},
        SettingField::GutterRunnables => {},
        SettingField::GutterFolds => {},
        SettingField::ScrollBeyondLastLine => {},
        SettingField::VerticalScrollMargin => {},
        SettingField::ScrollSensitivity => {},
        SettingField::RelativeLineNumbers => {},
        SettingField::SeedSearchQueryFromCursor => {},
        SettingField::MultiCursorModifier => {},
        SettingField::RedactPrivateValues => {},
        SettingField::ExpandExcerptLines => {},
        SettingField::MiddleClickPaste => {},
        SettingField::DoubleClickInMultibuffer => {},
        SettingField::SearchWrap => {},
        SettingField::AutoSignatureHelp => {},
        SettingField::ShowSignatureHelpAfterEdits => {},
        SettingField::JupyterEnabled => {},
        SettingField::ShowDiagnosticsInline => {},
    }
}

proof fn lemma_unspecified_stays_absent(docs: Seq<EditorSettingsContent>, f: SettingField)
    requires
        forall|i: int| 0 <= i < docs.len() ==> (#[trigger] specified(docs[i], f)) is None,
    ensures
        specified(merged_all(docs), f) is None,
    decreases docs.len(),
{
    if docs.len() > 0 {
        let prefix = docs.drop_last();
        assert forall|i: int| 0 <= i < prefix.len() implies (#[trigger] specified(prefix[i], f)) is None by {
            assert(prefix[i] == docs[i]);
        }
        lemma_unspecified_stays_absent(prefix, f);
        lemma_merge_leaf(merged_all(prefix), docs.last(), f);
        assert(specified(docs[docs.len() - 1], f) is None);
    }
}

proof fn lemma_last_wins(docs: Seq<EditorSettingsContent>, i: int, f: SettingField)
    requires
        0 <= i < docs.len(),
        specified(docs[i], f) is Some,
        forall|j: int| i < j < docs.len() ==> (#[trigger] specified(docs[j], f)) is None,
    ensures
        specified(merged_all(docs), f) == specified(docs[i], f),
    decreases docs.len(),
{
    let prefix = docs.drop_last();
    lemma_merge_leaf(merged_all(prefix), docs.last(), f);
    if i < docs.len() - 1 {
        assert(specified(docs[docs.len() - 1], f) is None);
        assert forall|j: int| i < j < prefix.len() implies (#[trigger] specified(prefix[j], f)) is None by {
            assert(prefix[j] == docs[j]);
        }
        assert(prefix[i] == docs[i]);
        lemma_last_wins(prefix, i, f);
    }
}

proof fn lemma_no_error_anywhere(c: EditorSettingsContent)
    requires
        first_error(c) is None,
    ensures
        highlight_error(SettingField::CurrentLineHighlight, c.current_line_highlight) is None,
        show_error(SettingField::ScrollbarShow, scrollbar_or_empty(c.scrollbar).show) is None,
        beyond_error(SettingField::ScrollBeyondLastLine, c.scroll_beyond_last_line) is None,
        non_negative_error(SettingField::VerticalScrollMargin, c.vertical_scroll_margin) is None,
        finite_error(SettingField::ScrollSensitivity, c.scroll_sensitivity) is None,
        seed_error(
            SettingField::SeedSearchQueryFromCursor,
            c.seed_search_query_from_cursor,
        ) is None,
        modifier_error(SettingField::MultiCursorModifier, c.multi_cursor_modifier) is None,
        double_click_error(
            SettingField::DoubleClickInMultibuffer,
            c.double_click_in_multibuffer,
        ) is None,
{
}

/// Leaf `f` of the resolved document is the decoded layer value, or the default.
pub open spec fn leaf_resolves(c: EditorSettingsContent, f: SettingField) -> bool {
    resolved_field(resolved_value(c), f) == match specified(c, f) {
        Some(v) => decoded(f, v),
        None => resolved_field(EditorSettings::spec_default(), f),
    }
}

proof fn lemma_resolved_leaf(c: EditorSettingsContent, f: SettingField)
requires
        highlight_error(SettingField::CurrentLineHighlight, c.current_line_highlight) is None,
        show_error(SettingField::ScrollbarShow, scrollbar_or_empty(c.scrollbar).show) is None,
        beyond_error(SettingField::ScrollBeyondLastLine, c.scroll_beyond_last_line) is None,
        non_negative_error(SettingField::VerticalScrollMargin, c.vertical_scroll_margin) is None,
        finite_error(SettingField::ScrollSensitivity, c.scroll_sensitivity) is None,
        seed_error(
            SettingField::SeedSearchQueryFromCursor,
            c.seed_search_query_from_cursor,
        ) is None,
        modifier_error(SettingField::MultiCursorModifier, c.multi_cursor_modifier) is None,
        double_click_error(
            SettingField::DoubleClickInMultibuffer,
            c.double_click_in_multibuffer,
        ) is None,
    ensures
        leaf_resolves(c, f),
{
    match f {
        SettingField::CursorBlink => {
            assert(leaf_resolves(c, f)) by {
                assert(f == SettingField::CursorBlink);
            }
        },
        SettingField::CurrentLineHighlight => {
            assert(leaf_resolves(c, f)) by {
                assert(f == SettingField::CurrentLineHighlight);
            }
        },
        SettingField::HoverPopoverEnabled => {
            assert(leaf_resolves(c, f)) by {
                assert(f == SettingField::HoverPopoverEnabled);
            }
        },
        SettingField::ShowCompletionsOnInput => {
            assert(leaf_resolves(c, f)) by {
                assert(f == SettingField::ShowCompletionsOnInput);
            }
        },
        SettingField::ShowCompletionDocumentation => {
            assert(leaf_resolves(c, f)) by {
                assert(f == SettingField::ShowCompletionDocumentation);
            }
        },
        SettingField::CompletionDocumentationSecondaryQueryDebounce => {
            assert(leaf_resolves(c, f)) by {
                assert(f == SettingField::CompletionDocumentationSecondaryQueryDebounce);
            }
        },
        SettingField::UseOnTypeFormat => {
            assert(leaf_resolves(c, f)) by {
                assert(f == SettingField::UseOnTypeFormat);
            }
        },
        SettingField::ToolbarBreadcrumbs => {
            assert(leaf_resolves(c, f)) by {
                assert(f == SettingField::ToolbarBreadcrumbs);
            }
        },
        SettingField::ToolbarQuickActions => {
            assert(leaf_resolves(c, f)) by {
                assert(f == SettingField::ToolbarQuickActions);
            }
        },
        SettingField::ToolbarSelectionsMenu => {
            assert(leaf_resolves(c, f)) by {
                assert(f == SettingField::ToolbarSelectionsMenu);
            }
        },
        SettingField::ScrollbarShow => {
            assert(leaf_resolves(c, f)) by {
                assert(f == SettingField::ScrollbarShow);
            }
        },
        SettingField::ScrollbarGitDiff => {
            assert(leaf_resolves(c, f)) by {
                assert(f == SettingField::ScrollbarGitDiff);
            }
        },
        SettingField::ScrollbarSelectedSymbol => {
            assert(leaf_resolves(c, f)) by {
                assert(f == SettingField::ScrollbarSelectedSymbol);
            }
        },
        SettingField::ScrollbarSearchResults => {
            assert(leaf_resolves(c, f)) by {
                assert(f == SettingField::ScrollbarSearchResults);
            }
        },
        SettingField::ScrollbarDiagnostics => {
            assert(leaf_resolves(c, f)) by {
                assert(f == SettingField::ScrollbarDiagnostics);
            }
        },
        SettingField::ScrollbarCursors => {
            assert(leaf_resolves(c, f)) by {
                assert(f == SettingField::ScrollbarCursors);
            }
        },
        SettingField::GutterLineNumbers => {
            assert(leaf_resolves(c, f)) by {
                assert(f == SettingField::GutterLineNumbers);
            }
        },
        SettingField::GutterCodeActions => {
            assert(leaf_resolves(c, f)) by {
                assert(f == SettingField::GutterCodeActions);
            }
        },
        SettingField::GutterRunnables => {
            assert(leaf_resolves(c, f)) by {
                assert(f == SettingField::GutterRunnables);
            }
        },
        SettingField::GutterFolds => {
            assert(leaf_resolves(c, f)) by {
                assert(f == SettingField::GutterFolds);
            }
        },
        SettingField::ScrollBeyondLastLine => {
            assert(leaf_resolves(c, f)) by {
                assert(f == SettingField::ScrollBeyondLastLine);
            }
        },
        SettingField::VerticalScrollMargin => {
            assert(leaf_resolves(c, f)) by {
                assert(f == SettingField::VerticalScrollMargin);
            }
        },
        SettingField::ScrollSensitivity => {
            assert(leaf_resolves(c, f)) by {
                assert(f == SettingField::ScrollSensitivity);
            }
        },
        SettingField::RelativeLineNumbers => {
            assert(leaf_resolves(c, f)) by {
                assert(f == SettingField::RelativeLineNumbers);
            }
        },
        SettingField::SeedSearchQueryFromCursor => {
            assert(leaf_resolves(c, f)) by {
                assert(f == SettingField::SeedSearchQueryFromCursor);
            }
        },
        SettingField::MultiCursorModifier => {
            assert(leaf_resolves(c, f)) by {
                assert(f == SettingField::MultiCursorModifier);
            }
        },
        SettingField::RedactPrivateValues => {
            assert(leaf_resolves(c, f)) by {
                assert(f == SettingField::RedactPrivateValues);
            }
        },
        SettingField::ExpandExcerptLines => {
            assert(leaf_resolves(c, f)) by {
                assert(f == SettingField::ExpandExcerptLines);
            }
        },
        SettingField::MiddleClickPaste => {
            assert(leaf_resolves(c, f)) by {
                assert(f == SettingField::MiddleClickPaste);
            }
        },
        SettingField::DoubleClickInMultibuffer => {
            assert(leaf_resolves(c, f)) by {
                assert(f == SettingField::DoubleClickInMultibuffer);
            }
        },
        SettingField::SearchWrap => {
            assert(leaf_resolves(c, f)) by {
                assert(f == SettingField::SearchWrap);
            }
        },
        SettingField::AutoSignatureHelp => {
            assert(leaf_resolves(c, f)) by {
                assert(f == SettingField::AutoSignatureHelp);
            }
        },
        SettingField::ShowSignatureHelpAfterEdits => {
            assert(leaf_resolves(c, f)) by {
                assert(f == SettingField::ShowSignatureHelpAfterEdits);
            }
        },
        SettingField::JupyterEnabled => {
            assert(leaf_resolves(c, f)) by {
                assert(f == SettingField::JupyterEnabled);
            }
        },
        SettingField::ShowDiagnosticsInline => {
            assert(leaf_resolves(c, f)) by {
                assert(f == SettingField::ShowDiagnosticsInline);
            }
        },
    }
}

proof fn lemma_rejected_spelling_fails(c: EditorSettingsContent, f: SettingField, s: String)
    requires
        specified(c, f) == Some(SettingValue::Name(s)),
        rejects(f, s@),
    ensures
        first_error(c) is Some,
{
    match f {
        SettingField::CurrentLineHighlight => {
            assert(first_error(c) is Some) by {
                assert(f == SettingField::CurrentLineHighlight);
            }
        },
        SettingField::ScrollbarShow => {
            assert(first_error(c) is Some) by {
                assert(f == SettingField::ScrollbarShow);
            }
        },
        SettingField::ScrollBeyondLastLine => {
            assert(first_error(c) is Some) by {
                assert(f == SettingField::ScrollBeyondLastLine);
            }
        },
        SettingField::SeedSearchQueryFromCursor => {
            assert(first_error(c) is Some) by {
                assert(f == SettingField::SeedSearchQueryFromCursor);
            }
        },
        SettingField::MultiCursorModifier => {
            assert(first_error(c) is Some) by {
                assert(f == SettingField::MultiCursorModifier);
            }
        },
        SettingField::DoubleClickInMultibuffer => {
            assert(first_error(c) is Some) by {
                assert(f == SettingField::DoubleClickInMultibuffer);
            }
        },
        _ => {},
    }
}

proof fn lemma_error_in_some_document(docs: Seq<EditorSettingsContent>, i: int)
    requires
        0 <= i < docs.len(),
        first_error(docs[i]) is Some,
    ensures
        first_error_in(docs) is Some,
{
    let p = docs.subrange(0, i + 1);
    assert(p.drop_last() == docs.subrange(0, i));
    assert(p.last() == docs[i]);
    lemma_prefix_error(docs, i + 1);
}

/// Resolution is a function of the priority sequence alone: the same
/// sequence always resolves to the same outcome.
pub proof fn law_resolution_is_deterministic(
    a: Seq<EditorSettingsContent>,
    b: Seq<EditorSettingsContent>,
)
    requires
        a == b,
    ensures
        layered_resolution(a) == layered_resolution(b),
{
}

/// A leaf that no layer specifies, neither directly nor through its group,
/// resolves to the schema default.
pub proof fn law_unspecified_leaf_is_default(docs: Seq<EditorSettingsContent>, f: SettingField)
    requires
        layered_resolution(docs) is Ok,
        forall|i: int| 0 <= i < docs.len() ==> (#[trigger] specified(docs[i], f)) is None,
    ensures
        resolved_field(layered_resolution(docs)->Ok_0, f) == resolved_field(
            EditorSettings::spec_default(),
            f,
        ),
{
    let m = merged_all(docs);
    lemma_valid_documents_merge_valid(docs);
    lemma_unspecified_stays_absent(docs, f);
    lemma_no_error_anywhere(m);
    lemma_resolved_leaf(m, f);
}

/// A leaf takes the value of the highest-priority layer that specifies it,
/// whatever lower layers say of it or of its siblings in the same group.
pub proof fn law_highest_layer_wins(docs: Seq<EditorSettingsContent>, i: int, f: SettingField)
    requires
        0 <= i < docs.len(),
        specified(docs[i], f) is Some,
        forall|j: int| i < j < docs.len() ==> (#[trigger] specified(docs[j], f)) is None,
    ensures
        specified(merged_all(docs), f) == specified(docs[i], f),
        layered_resolution(docs) is Ok ==> resolved_field(layered_resolution(docs)->Ok_0, f)
            == decoded(f, specified(docs[i], f)->Some_0),
{
    let m = merged_all(docs);
    lemma_last_wins(docs, i, f);
    if layered_resolution(docs) is Ok {
        lemma_valid_documents_merge_valid(docs);
        lemma_no_error_anywhere(m);
        lemma_resolved_leaf(m, f);
    }
}

/// A layer whose spelling of an enumerated option is neither canonical nor
/// an alias fails resolution, whatever any other layer says.
pub proof fn law_rejected_spelling_fails(
    docs: Seq<EditorSettingsContent>,
    i: int,
    f: SettingField,
    s: String,
)
    requires
        0 <= i < docs.len(),
        specified(docs[i], f) == Some(SettingValue::Name(s)),
        rejects(f, s@),
    ensures
        layered_resolution(docs) is Err,
{
    lemma_rejected_spelling_fails(docs[i], f, s);
    lemma_error_in_some_document(docs, i);
}

/// Document `d` with its multi-cursor modifier spelled `s`.
pub open spec fn with_modifier(d: EditorSettingsContent, s: String) -> EditorSettingsContent {
    EditorSettingsContent { multi_cursor_modifier: Some(s), ..d }
}

spec fn modifier_agrees(a: Option<String>, b: Option<String>) -> bool {
    a == b || (a is Some && b is Some && MultiCursorModifier::spec_from_name(a->Some_0@) is Some
        && MultiCursorModifier::spec_from_name(a->Some_0@) == MultiCursorModifier::spec_from_name(
        b->Some_0@,
    ))
}

spec fn same_but_modifier(c1: EditorSettingsContent, c2: EditorSettingsContent) -> bool {
    &&& (EditorSettingsContent { multi_cursor_modifier: None, ..c1 }) == (EditorSettingsContent {
        multi_cursor_modifier: None,
        ..c2
    })
    &&& modifier_agrees(c1.multi_cursor_modifier, c2.multi_cursor_modifier)
}

proof fn lemma_merge_keeps_agreement(
    x1: EditorSettingsContent,
    x2: EditorSettingsContent,
    y1: EditorSettingsContent,
    y2: EditorSettingsContent,
)
    requires
        same_but_modifier(x1, x2),
        same_but_modifier(y1, y2),
    ensures
        same_but_modifier(x1.merged(y1), x2.merged(y2)),
{
}

proof fn lemma_merged_all_keeps_agreement(
    s1: Seq<EditorSettingsContent>,
    s2: Seq<EditorSettingsContent>,
)
    requires
        s1.len() == s2.len(),
        forall|i: int| 0 <= i < s1.len() ==> same_but_modifier(#[trigger] s1[i], s2[i]),
    ensures
        same_but_modifier(merged_all(s1), merged_all(s2)),
    decreases s1.len(),
{
    if s1.len() > 0 {
        let p1 = s1.drop_last();
        let p2 = s2.drop_last();
        assert forall|i: int| 0 <= i < p1.len() implies same_but_modifier(#[trigger] p1[i], p2[i]) by {
            assert(p1[i] == s1[i]);
            assert(p2[i] == s2[i]);
        }
        lemma_merged_all_keeps_agreement(p1, p2);
        assert(same_but_modifier(s1[s1.len() - 1], s2[s2.len() - 1]));
        lemma_merge_keeps_agreement(merged_all(p1), merged_all(p2), s1.last(), s2.last());
    }
}

proof fn lemma_agreement_resolves_alike(c1: EditorSettingsContent, c2: EditorSettingsContent)
    requires
        same_but_modifier(c1, c2),
    ensures
        resolution(c1) == resolution(c2),
{
    let n1 = EditorSettingsContent { multi_cursor_modifier: None, ..c1 };
    let n2 = EditorSettingsContent { multi_cursor_modifier: None, ..c2 };
    assert(n1.scrollbar == n2.scrollbar);
    assert(first_error(c1) == first_error(c2));
    assert(resolved_value(c1) == resolved_value(c2));
}

proof fn lemma_agreement_finds_same_error(
    s1: Seq<EditorSettingsContent>,
    s2: Seq<EditorSettingsContent>,
)
    requires
        s1.len() == s2.len(),
        forall|i: int| 0 <= i < s1.len() ==> same_but_modifier(#[trigger] s1[i], s2[i]),
    ensures
        first_error_in(s1) == first_error_in(s2),
    decreases s1.len(),
{
    if s1.len() > 0 {
        let p1 = s1.drop_last();
        let p2 = s2.drop_last();
        assert forall|i: int| 0 <= i < p1.len() implies same_but_modifier(#[trigger] p1[i], p2[i]) by {
            assert(p1[i] == s1[i]);
            assert(p2[i] == s2[i]);
        }
        lemma_agreement_finds_same_error(p1, p2);
        assert(same_but_modifier(s1[s1.len() - 1], s2[s2.len() - 1]));
        lemma_agreement_resolves_alike(s1.last(), s2.last());
    }
}

/// A legacy alias of the multi-cursor modifier resolves exactly as its
/// canonical spelling does, in whichever layer it stands.
pub proof fn law_alias_resolves_as_canonical(
    docs: Seq<EditorSettingsContent>,
    i: int,
    alias: String,
    canonical: String,
)
    requires
        0 <= i < docs.len(),
        alias@ == "cmd"@ || alias@ == "ctrl"@,
        canonical@ == "cmd_or_ctrl"@,
    ensures
        layered_resolution(docs.update(i, with_modifier(docs[i], alias))) == layered_resolution(
            docs.update(i, with_modifier(docs[i], canonical)),
        ),
{
    reveal_strlit("alt");
    reveal_strlit("cmd_or_ctrl");
    reveal_strlit("cmd");
    reveal_strlit("ctrl");
    assert("cmd"@[0] != "alt"@[0]);
    assert("ctrl"@[0] != "alt"@[0]);
    assert("cmd"@.len() != "cmd_or_ctrl"@.len());
    assert("ctrl"@.len() != "cmd_or_ctrl"@.len());
    assert("cmd_or_ctrl"@.len() != "alt"@.len());
    let s1 = docs.update(i, with_modifier(docs[i], alias));
    let s2 = docs.update(i, with_modifier(docs[i], canonical));
    assert(MultiCursorModifier::spec_from_name(alias@) == Some(MultiCursorModifier::CmdOrCtrl));
    assert(MultiCursorModifier::spec_from_name(canonical@) == Some(MultiCursorModifier::CmdOrCtrl));
    assert forall|j: int| 0 <= j < s1.len() implies same_but_modifier(#[trigger] s1[j], s2[j]) by {
        if j != i {
            assert(s1[j] == s2[j]);
        }
    }
    lemma_merged_all_keeps_agreement(s1, s2);
    lemma_agreement_resolves_alike(merged_all(s1), merged_all(s2));
    lemma_agreement_finds_same_error(s1, s2);
    if first_error_in(s1) is None {
        lemma_valid_documents_merge_valid(s1);
    }
}

} // verus!
