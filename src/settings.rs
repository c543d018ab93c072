//! Resolved settings, their schema defaults, and the resolver that validates
//! a merged document and fills in every unspecified field.
use vstd::prelude::*;
use crate::choices::{
    CurrentLineHighlight, DoubleClickInMultibuffer, MultiCursorModifier, ScrollBeyondLastLine,
    SeedQuerySetting, ShowScrollbar,
};
use crate::content::{
    merged_all, EditorSettingsContent, FloatBits, GutterContent, JupyterContent,
    ScrollbarContent, ToolbarContent,
};

verus! {

/// Every leaf option, named by its path in a document.
#[derive(Copy, Clone, Debug, PartialEq, Eq, Structural)]
pub enum SettingField {
    /// `cursor_blink`
    CursorBlink,
    /// `current_line_highlight`
    CurrentLineHighlight,
    /// `hover_popover_enabled`
    HoverPopoverEnabled,
    /// `show_completions_on_input`
    ShowCompletionsOnInput,
    /// `show_completion_documentation`
    ShowCompletionDocumentation,
    /// `completion_documentation_secondary_query_debounce`
    CompletionDocumentationSecondaryQueryDebounce,
    /// `use_on_type_format`
    UseOnTypeFormat,
    /// `toolbar.breadcrumbs`
    ToolbarBreadcrumbs,
    /// `toolbar.quick_actions`
    ToolbarQuickActions,
    /// `toolbar.selections_menu`
    ToolbarSelectionsMenu,
    /// `scrollbar.show`
    ScrollbarShow,
    /// `scrollbar.git_diff`
    ScrollbarGitDiff,
    /// `scrollbar.selected_symbol`
    ScrollbarSelectedSymbol,
    /// `scrollbar.search_results`
    ScrollbarSearchResults,
    /// `scrollbar.diagnostics`
    ScrollbarDiagnostics,
    /// `scrollbar.cursors`
    ScrollbarCursors,
    /// `gutter.line_numbers`
    GutterLineNumbers,
    /// `gutter.code_actions`
    GutterCodeActions,
    /// `gutter.runnables`
    GutterRunnables,
    /// `gutter.folds`
    GutterFolds,
    /// `scroll_beyond_last_line`
    ScrollBeyondLastLine,
    /// `vertical_scroll_margin`
    VerticalScrollMargin,
    /// `scroll_sensitivity`
    ScrollSensitivity,
    /// `relative_line_numbers`
    RelativeLineNumbers,
    /// `seed_search_query_from_cursor`
    SeedSearchQueryFromCursor,
    /// `multi_cursor_modifier`
    MultiCursorModifier,
    /// `redact_private_values`
    RedactPrivateValues,
    /// `expand_excerpt_lines`
    ExpandExcerptLines,
    /// `middle_click_paste`
    MiddleClickPaste,
    /// `double_click_in_multibuffer`
    DoubleClickInMultibuffer,
    /// `search_wrap`
    SearchWrap,
    /// `auto_signature_help`
    AutoSignatureHelp,
    /// `show_signature_help_after_edits`
    ShowSignatureHelpAfterEdits,
    /// `jupyter.enabled`
    JupyterEnabled,
    /// `show_diagnostics_inline`
    ShowDiagnosticsInline,
}

impl SettingField {
    pub open spec fn spec_path(self) -> Seq<char> {
        match self {
            SettingField::CursorBlink => "cursor_blink"@,
            SettingField::CurrentLineHighlight => "current_line_highlight"@,
            SettingField::HoverPopoverEnabled => "hover_popover_enabled"@,
            SettingField::ShowCompletionsOnInput => "show_completions_on_input"@,
            SettingField::ShowCompletionDocumentation => "show_completion_documentation"@,
            SettingField::CompletionDocumentationSecondaryQueryDebounce => "completion_documentation_secondary_query_debounce"@,
            SettingField::UseOnTypeFormat => "use_on_type_format"@,
            SettingField::ToolbarBreadcrumbs => "toolbar.breadcrumbs"@,
            SettingField::ToolbarQuickActions => "toolbar.quick_actions"@,
            SettingField::ToolbarSelectionsMenu => "toolbar.selections_menu"@,
            SettingField::ScrollbarShow => "scrollbar.show"@,
            SettingField::ScrollbarGitDiff => "scrollbar.git_diff"@,
            SettingField::ScrollbarSelectedSymbol => "scrollbar.selected_symbol"@,
            SettingField::ScrollbarSearchResults => "scrollbar.search_results"@,
            SettingField::ScrollbarDiagnostics => "scrollbar.diagnostics"@,
            SettingField::ScrollbarCursors => "scrollbar.cursors"@,
            SettingField::GutterLineNumbers => "gutter.line_numbers"@,
            SettingField::GutterCodeActions => "gutter.code_actions"@,
            SettingField::GutterRunnables => "gutter.runnables"@,
            SettingField::GutterFolds => "gutter.folds"@,
            SettingField::ScrollBeyondLastLine => "scroll_beyond_last_line"@,
            SettingField::VerticalScrollMargin => "vertical_scroll_margin"@,
            SettingField::ScrollSensitivity => "scroll_sensitivity"@,
            SettingField::RelativeLineNumbers => "relative_line_numbers"@,
            SettingField::SeedSearchQueryFromCursor => "seed_search_query_from_cursor"@,
            SettingField::MultiCursorModifier => "multi_cursor_modifier"@,
            SettingField::RedactPrivateValues => "redact_private_values"@,
            SettingField::ExpandExcerptLines => "expand_excerpt_lines"@,
            SettingField::MiddleClickPaste => "middle_click_paste"@,
            SettingField::DoubleClickInMultibuffer => "double_click_in_multibuffer"@,
            SettingField::SearchWrap => "search_wrap"@,
            SettingField::AutoSignatureHelp => "auto_signature_help"@,
            SettingField::ShowSignatureHelpAfterEdits => "show_signature_help_after_edits"@,
            SettingField::JupyterEnabled => "jupyter.enabled"@,
            SettingField::ShowDiagnosticsInline => "show_diagnostics_inline"@,
        }
    }

    /// The option's path in a document, groups separated by dots.
    pub fn path(&self) -> (r: &'static str)
        ensures
            r@ == self.spec_path(),
    {
        match self {
            SettingField::CursorBlink => "cursor_blink",
            SettingField::CurrentLineHighlight => "current_line_highlight",
            SettingField::HoverPopoverEnabled => "hover_popover_enabled",
            SettingField::ShowCompletionsOnInput => "show_completions_on_input",
            SettingField::ShowCompletionDocumentation => "show_completion_documentation",
            SettingField::CompletionDocumentationSecondaryQueryDebounce => "completion_documentation_secondary_query_debounce",
            SettingField::UseOnTypeFormat => "use_on_type_format",
            SettingField::ToolbarBreadcrumbs => "toolbar.breadcrumbs",
            SettingField::ToolbarQuickActions => "toolbar.quick_actions",
            SettingField::ToolbarSelectionsMenu => "toolbar.selections_menu",
            SettingField::ScrollbarShow => "scrollbar.show",
            SettingField::ScrollbarGitDiff => "scrollbar.git_diff",
            SettingField::ScrollbarSelectedSymbol => "scrollbar.selected_symbol",
            SettingField::ScrollbarSearchResults => "scrollbar.search_results",
            SettingField::ScrollbarDiagnostics => "scrollbar.diagnostics",
            SettingField::ScrollbarCursors => "scrollbar.cursors",
            SettingField::GutterLineNumbers => "gutter.line_numbers",
            SettingField::GutterCodeActions => "gutter.code_actions",
            SettingField::GutterRunnables => "gutter.runnables",
            SettingField::GutterFolds => "gutter.folds",
            SettingField::ScrollBeyondLastLine => "scroll_beyond_last_line",
            SettingField::VerticalScrollMargin => "vertical_scroll_margin",
            SettingField::ScrollSensitivity => "scroll_sensitivity",
            SettingField::RelativeLineNumbers => "relative_line_numbers",
            SettingField::SeedSearchQueryFromCursor => "seed_search_query_from_cursor",
            SettingField::MultiCursorModifier => "multi_cursor_modifier",
            SettingField::RedactPrivateValues => "redact_private_values",
            SettingField::ExpandExcerptLines => "expand_excerpt_lines",
            SettingField::MiddleClickPaste => "middle_click_paste",
            SettingField::DoubleClickInMultibuffer => "double_click_in_multibuffer",
            SettingField::SearchWrap => "search_wrap",
            SettingField::AutoSignatureHelp => "auto_signature_help",
            SettingField::ShowSignatureHelpAfterEdits => "show_signature_help_after_edits",
            SettingField::JupyterEnabled => "jupyter.enabled",
            SettingField::ShowDiagnosticsInline => "show_diagnostics_inline",
        }
    }

    /// True when the option is enumerated and `s` is one of its spellings.
    pub open spec fn accepts(self, s: Seq<char>) -> bool {
        match self {
            SettingField::CurrentLineHighlight => CurrentLineHighlight::spec_from_name(s) is Some,
            SettingField::ScrollbarShow => ShowScrollbar::spec_from_name(s) is Some,
            SettingField::ScrollBeyondLastLine => ScrollBeyondLastLine::spec_from_name(s) is Some,
            SettingField::SeedSearchQueryFromCursor => SeedQuerySetting::spec_from_name(s) is Some,
            SettingField::MultiCursorModifier => MultiCursorModifier::spec_from_name(s) is Some,
            SettingField::DoubleClickInMultibuffer => DoubleClickInMultibuffer::spec_from_name(s) is Some,
            _ => false,
        }
    }

    /// The spellings the option accepts, aliases included; empty for an
    /// option that is not enumerated.
    pub fn accepted_spellings(&self) -> (r: Vec<&'static str>)
        ensures
            forall|i: int| 0 <= i < r@.len() ==> self.accepts(#[trigger] r@[i]@),
            forall|s: Seq<char>| #[trigger] self.accepts(s) ==> exists|i: int|
                0 <= i < r@.len() && r@[i]@ == s,
    {
        match self {
            SettingField::CurrentLineHighlight => CurrentLineHighlight::spellings(),
            SettingField::ScrollbarShow => ShowScrollbar::spellings(),
            SettingField::ScrollBeyondLastLine => ScrollBeyondLastLine::spellings(),
            SettingField::SeedSearchQueryFromCursor => SeedQuerySetting::spellings(),
            SettingField::MultiCursorModifier => MultiCursorModifier::spellings(),
            SettingField::DoubleClickInMultibuffer => DoubleClickInMultibuffer::spellings(),
            _ => Vec::new(),
        }
    }
}

/// Why a merged document could not be resolved.
#[allow(inconsistent_fields)]
#[derive(Clone, Debug, PartialEq, Eq)]
pub enum ResolutionError {
    /// The field holds a spelling that is neither a canonical variant nor an alias.
    InvalidEnumValue { field: SettingField, value: String },
    /// The field holds a number outside its declared domain.
    OutOfDomainValue { field: SettingField, value: FloatBits },
}

/// A finite value: neither an infinity nor a NaN.
pub open spec fn is_finite(v: FloatBits) -> bool {
    v.bits % 0x8000_0000 < 0x7F80_0000
}

/// A finite value that is not below zero (negative zero included).
pub open spec fn is_non_negative(v: FloatBits) -> bool {
    is_finite(v) && (v.bits < 0x8000_0000 || v.bits == 0x8000_0000)
}

/// The layer's value where present, else the default.
pub open spec fn or_default<T>(v: Option<T>, d: T) -> T {
    match v {
        Some(x) => x,
        None => d,
    }
}

fn value_or<T: Copy>(v: Option<T>, d: T) -> (r: T)
    ensures
        r == or_default(v, d),
{
    match v {
        Some(x) => x,
        None => d,
    }
}

/// The first of two possible errors.
pub open spec fn either(
    a: Option<ResolutionError>,
    b: Option<ResolutionError>,
) -> Option<ResolutionError> {
    if a is Some {
        a
    } else {
        b
    }
}

/// The error, if any, of a `CurrentLineHighlight` spelling.
pub open spec fn highlight_error(
    field: SettingField,
    v: Option<String>,
) -> Option<ResolutionError> {
    match v {
        Some(s) => if CurrentLineHighlight::spec_from_name(s@) is Some {
            None
        } else {
            Some(ResolutionError::InvalidEnumValue { field, value: s })
        },
        None => None,
    }
}

/// The decoded `CurrentLineHighlight` spelling, else the default.
pub open spec fn highlight_value(
    v: Option<String>,
    d: CurrentLineHighlight,
) -> CurrentLineHighlight {
    match v {
        Some(s) => match CurrentLineHighlight::spec_from_name(s@) {
            Some(x) => x,
            None => d,
        },
        None => d,
    }
}

fn resolve_highlight(
    field: SettingField,
    v: &Option<String>,
    d: CurrentLineHighlight,
) -> (r: Result<CurrentLineHighlight, ResolutionError>)
    ensures
        match highlight_error(field, *v) {
            Some(e) => r == Err::<CurrentLineHighlight, ResolutionError>(e),
            None => r == Ok::<CurrentLineHighlight, ResolutionError>(highlight_value(*v, d)),
        },
{
    match v {
        None => Ok(d),
        Some(s) => match CurrentLineHighlight::from_name(s.as_str()) {
            Some(x) => Ok(x),
            None => Err(ResolutionError::InvalidEnumValue { field, value: s.clone() }),
        },
    }
}

/// The error, if any, of a `ShowScrollbar` spelling.
pub open spec fn show_error(field: SettingField, v: Option<String>) -> Option<ResolutionError> {
    match v {
        Some(s) => if ShowScrollbar::spec_from_name(s@) is Some {
            None
        } else {
            Some(ResolutionError::InvalidEnumValue { field, value: s })
        },
        None => None,
    }
}

/// The decoded `ShowScrollbar` spelling, else the default.
pub open spec fn show_value(v: Option<String>, d: ShowScrollbar) -> ShowScrollbar {
    match v {
        Some(s) => match ShowScrollbar::spec_from_name(s@) {
            Some(x) => x,
            None => d,
        },
        None => d,
    }
}

fn resolve_show(
    field: SettingField,
    v: &Option<String>,
    d: ShowScrollbar,
) -> (r: Result<ShowScrollbar, ResolutionError>)
    ensures
        match show_error(field, *v) {
            Some(e) => r == Err::<ShowScrollbar, ResolutionError>(e),
            None => r == Ok::<ShowScrollbar, ResolutionError>(show_value(*v, d)),
        },
{
    match v {
        None => Ok(d),
        Some(s) => match ShowScrollbar::from_name(s.as_str()) {
            Some(x) => Ok(x),
            None => Err(ResolutionError::InvalidEnumValue { field, value: s.clone() }),
        },
    }
}

/// The error, if any, of a `ScrollBeyondLastLine` spelling.
pub open spec fn beyond_error(field: SettingField, v: Option<String>) -> Option<ResolutionError> {
    match v {
        Some(s) => if ScrollBeyondLastLine::spec_from_name(s@) is Some {
            None
        } else {
            Some(ResolutionError::InvalidEnumValue { field, value: s })
        },
        None => None,
    }
}

/// The decoded `ScrollBeyondLastLine` spelling, else the default.
pub open spec fn beyond_value(v: Option<String>, d: ScrollBeyondLastLine) -> ScrollBeyondLastLine {
    match v {
        Some(s) => match ScrollBeyondLastLine::spec_from_name(s@) {
            Some(x) => x,
            None => d,
        },
        None => d,
    }
}

fn resolve_beyond(
    field: SettingField,
    v: &Option<String>,
    d: ScrollBeyondLastLine,
) -> (r: Result<ScrollBeyondLastLine, ResolutionError>)
    ensures
        match beyond_error(field, *v) {
            Some(e) => r == Err::<ScrollBeyondLastLine, ResolutionError>(e),
            None => r == Ok::<ScrollBeyondLastLine, ResolutionError>(beyond_value(*v, d)),
        },
{
    match v {
        None => Ok(d),
        Some(s) => match ScrollBeyondLastLine::from_name(s.as_str()) {
            Some(x) => Ok(x),
            None => Err(ResolutionError::InvalidEnumValue { field, value: s.clone() }),
        },
    }
}

/// The error, if any, of a `SeedQuerySetting` spelling.
pub open spec fn seed_error(field: SettingField, v: Option<String>) -> Option<ResolutionError> {
    match v {
        Some(s) => if SeedQuerySetting::spec_from_name(s@) is Some {
            None
        } else {
            Some(ResolutionError::InvalidEnumValue { field, value: s })
        },
        None => None,
    }
}

/// The decoded `SeedQuerySetting` spelling, else the default.
pub open spec fn seed_value(v: Option<String>, d: SeedQuerySetting) -> SeedQuerySetting {
    match v {
        Some(s) => match SeedQuerySetting::spec_from_name(s@) {
            Some(x) => x,
            None => d,
        },
        None => d,
    }
}

fn resolve_seed(
    field: SettingField,
    v: &Option<String>,
    d: SeedQuerySetting,
) -> (r: Result<SeedQuerySetting, ResolutionError>)
    ensures
        match seed_error(field, *v) {
            Some(e) => r == Err::<SeedQuerySetting, ResolutionError>(e),
            None => r == Ok::<SeedQuerySetting, ResolutionError>(seed_value(*v, d)),
        },
{
    match v {
        None => Ok(d),
        Some(s) => match SeedQuerySetting::from_name(s.as_str()) {
            Some(x) => Ok(x),
            None => Err(ResolutionError::InvalidEnumValue { field, value: s.clone() }),
        },
    }
}

/// The error, if any, of a `MultiCursorModifier` spelling.
pub open spec fn modifier_error(field: SettingField, v: Option<String>) -> Option<ResolutionError> {
    match v {
        Some(s) => if MultiCursorModifier::spec_from_name(s@) is Some {
            None
        } else {
            Some(ResolutionError::InvalidEnumValue { field, value: s })
        },
        None => None,
    }
}

/// The decoded `MultiCursorModifier` spelling, else the default.
pub open spec fn modifier_value(v: Option<String>, d: MultiCursorModifier) -> MultiCursorModifier {
    match v {
        Some(s) => match MultiCursorModifier::spec_from_name(s@) {
            Some(x) => x,
            None => d,
        },
        None => d,
    }
}

fn resolve_modifier(
    field: SettingField,
    v: &Option<String>,
    d: MultiCursorModifier,
) -> (r: Result<MultiCursorModifier, ResolutionError>)
    ensures
        match modifier_error(field, *v) {
            Some(e) => r == Err::<MultiCursorModifier, ResolutionError>(e),
            None => r == Ok::<MultiCursorModifier, ResolutionError>(modifier_value(*v, d)),
        },
{
    match v {
        None => Ok(d),
        Some(s) => match MultiCursorModifier::from_name(s.as_str()) {
            Some(x) => Ok(x),
            None => Err(ResolutionError::InvalidEnumValue { field, value: s.clone() }),
        },
    }
}

/// The error, if any, of a `DoubleClickInMultibuffer` spelling.
pub open spec fn double_click_error(
    field: SettingField,
    v: Option<String>,
) -> Option<ResolutionError> {
    match v {
        Some(s) => if DoubleClickInMultibuffer::spec_from_name(s@) is Some {
            None
        } else {
            Some(ResolutionError::InvalidEnumValue { field, value: s })
        },
        None => None,
    }
}

/// The decoded `DoubleClickInMultibuffer` spelling, else the default.
pub open spec fn double_click_value(
    v: Option<String>,
    d: DoubleClickInMultibuffer,
) -> DoubleClickInMultibuffer {
    match v {
        Some(s) => match DoubleClickInMultibuffer::spec_from_name(s@) {
            Some(x) => x,
            None => d,
        },
        None => d,
    }
}

fn resolve_double_click(
    field: SettingField,
    v: &Option<String>,
    d: DoubleClickInMultibuffer,
) -> (r: Result<DoubleClickInMultibuffer, ResolutionError>)
    ensures
        match double_click_error(field, *v) {
            Some(e) => r == Err::<DoubleClickInMultibuffer, ResolutionError>(e),
            None => r == Ok::<DoubleClickInMultibuffer, ResolutionError>(double_click_value(*v, d)),
        },
{
    match v {
        None => Ok(d),
        Some(s) => match DoubleClickInMultibuffer::from_name(s.as_str()) {
            Some(x) => Ok(x),
            None => Err(ResolutionError::InvalidEnumValue { field, value: s.clone() }),
        },
    }
}

/// The error, if any, of a value that must satisfy `is_finite`.
pub open spec fn finite_error(
    field: SettingField,
    v: Option<FloatBits>,
) -> Option<ResolutionError> {
    match v {
        Some(x) => if is_finite(x) {
            None
        } else {
            Some(ResolutionError::OutOfDomainValue { field, value: x })
        },
        None => None,
    }
}

fn check_finite(
    field: SettingField,
    v: Option<FloatBits>,
    d: FloatBits,
) -> (r: Result<FloatBits, ResolutionError>)
    ensures
        match finite_error(field, v) {
            Some(e) => r == Err::<FloatBits, ResolutionError>(e),
            None => r == Ok::<FloatBits, ResolutionError>(or_default(v, d)),
        },
{
    match v {
        None => Ok(d),
        Some(v) => if v.bits % 0x8000_0000u32 < 0x7F80_0000u32 {
            Ok(v)
        } else {
            Err(ResolutionError::OutOfDomainValue { field, value: v })
        },
    }
}

/// The error, if any, of a value that must satisfy `is_non_negative`.
pub open spec fn non_negative_error(
    field: SettingField,
    v: Option<FloatBits>,
) -> Option<ResolutionError> {
    match v {
        Some(x) => if is_non_negative(x) {
            None
        } else {
            Some(ResolutionError::OutOfDomainValue { field, value: x })
        },
        None => None,
    }
}

fn check_non_negative(
    field: SettingField,
    v: Option<FloatBits>,
    d: FloatBits,
) -> (r: Result<FloatBits, ResolutionError>)
    ensures
        match non_negative_error(field, v) {
            Some(e) => r == Err::<FloatBits, ResolutionError>(e),
            None => r == Ok::<FloatBits, ResolutionError>(or_default(v, d)),
        },
{
    match v {
        None => Ok(d),
        Some(v) => if v.bits % 0x8000_0000u32 < 0x7F80_0000u32 && (v.bits < 0x8000_0000u32 || v.bits == 0x8000_0000u32) {
            Ok(v)
        } else {
            Err(ResolutionError::OutOfDomainValue { field, value: v })
        },
    }
}

/// Toolbar settings with every field resolved.
#[derive(Copy, Clone, Debug, PartialEq, Eq, Structural)]
pub struct Toolbar {
    /// Whether to display breadcrumbs in the editor toolbar.
    pub breadcrumbs: bool,
    /// Whether to display quick action buttons in the editor toolbar.
    pub quick_actions: bool,
    /// Whether to show the selections menu in the editor toolbar.
    pub selections_menu: bool,
}

impl Toolbar {
    /// The schema's defaults for the group.
    pub open spec fn spec_default() -> Self {
        Toolbar { breadcrumbs: true, quick_actions: true, selections_menu: true }
    }

    /// Each field from the layer where present, else from `d`.
    pub open spec fn resolved_from(c: ToolbarContent, d: Self) -> Self {
        Toolbar {
            breadcrumbs: or_default(c.breadcrumbs, d.breadcrumbs),
            quick_actions: or_default(c.quick_actions, d.quick_actions),
            selections_menu: or_default(c.selections_menu, d.selections_menu),
        }
    }
}

impl Default for Toolbar {
    fn default() -> (r: Self)
        ensures
            r == Self::spec_default(),
    {
        Toolbar { breadcrumbs: true, quick_actions: true, selections_menu: true }
    }
}

/// The layer's group, or the group with nothing specified.
pub open spec fn toolbar_or_empty(o: Option<ToolbarContent>) -> ToolbarContent {
    match o {
        Some(c) => c,
        None => ToolbarContent::empty(),
    }
}

/// Scrollbar settings with every field resolved.
#[derive(Copy, Clone, Debug, PartialEq, Eq, Structural)]
pub struct Scrollbar {
    /// When to show the scrollbar.
    pub show: ShowScrollbar,
    /// Whether to show git diff indicators in the scrollbar.
    pub git_diff: bool,
    /// Whether to show selected symbol occurrences in the scrollbar.
    pub selected_symbol: bool,
    /// Whether to show search result indicators in the scrollbar.
    pub search_results: bool,
    /// Whether to show diagnostic indicators in the scrollbar.
    pub diagnostics: bool,
    /// Whether to show cursor positions in the scrollbar.
    pub cursors: bool,
}

impl Scrollbar {
    /// The schema's defaults for the group.
    pub open spec fn spec_default() -> Self {
        Scrollbar {
            show: ShowScrollbar::Auto,
            git_diff: true,
            selected_symbol: true,
            search_results: true,
            diagnostics: true,
            cursors: true,
        }
    }

    /// Each field from the layer where present, else from `d`.
    pub open spec fn resolved_from(c: ScrollbarContent, d: Self) -> Self {
        Scrollbar {
            show: show_value(c.show, d.show),
            git_diff: or_default(c.git_diff, d.git_diff),
            selected_symbol: or_default(c.selected_symbol, d.selected_symbol),
            search_results: or_default(c.search_results, d.search_results),
            diagnostics: or_default(c.diagnostics, d.diagnostics),
            cursors: or_default(c.cursors, d.cursors),
        }
    }
}

impl Default for Scrollbar {
    fn default() -> (r: Self)
        ensures
            r == Self::spec_default(),
    {
        Scrollbar {
            show: ShowScrollbar::Auto,
            git_diff: true,
            selected_symbol: true,
            search_results: true,
            diagnostics: true,
            cursors: true,
        }
    }
}

/// The layer's group, or the group with nothing specified.
pub open spec fn scrollbar_or_empty(o: Option<ScrollbarContent>) -> ScrollbarContent {
    match o {
        Some(c) => c,
        None => ScrollbarContent::empty(),
    }
}

/// Gutter settings with every field resolved.
#[derive(Copy, Clone, Debug, PartialEq, Eq, Structural)]
pub struct Gutter {
    /// Whether to show line numbers in the gutter.
    pub line_numbers: bool,
    /// Whether to show code action buttons in the gutter.
    pub code_actions: bool,
    /// Whether to show runnable buttons in the gutter.
    pub runnables: bool,
    /// Whether to show fold buttons in the gutter.
    pub folds: bool,
}

impl Gutter {
    /// The schema's defaults for the group.
    pub open spec fn spec_default() -> Self {
        Gutter { line_numbers: true, code_actions: true, runnables: true, folds: true }
    }

    /// Each field from the layer where present, else from `d`.
    pub open spec fn resolved_from(c: GutterContent, d: Self) -> Self {
        Gutter {
            line_numbers: or_default(c.line_numbers, d.line_numbers),
            code_actions: or_default(c.code_actions, d.code_actions),
            runnables: or_default(c.runnables, d.runnables),
            folds: or_default(c.folds, d.folds),
        }
    }
}

impl Default for Gutter {
    fn default() -> (r: Self)
        ensures
            r == Self::spec_default(),
    {
        Gutter { line_numbers: true, code_actions: true, runnables: true, folds: true }
    }
}

/// The layer's group, or the group with nothing specified.
pub open spec fn gutter_or_empty(o: Option<GutterContent>) -> GutterContent {
    match o {
        Some(c) => c,
        None => GutterContent::empty(),
    }
}

/// Jupyter settings with every field resolved.
#[derive(Copy, Clone, Debug, PartialEq, Eq, Structural)]
pub struct Jupyter {
    /// Whether the Jupyter feature is enabled.
    pub enabled: bool,
}

impl Jupyter {
    /// The schema's defaults for the group.
    pub open spec fn spec_default() -> Self {
        Jupyter { enabled: true }
    }

    /// Each field from the layer where present, else from `d`.
    pub open spec fn resolved_from(c: JupyterContent, d: Self) -> Self {
        Jupyter {
            enabled: or_default(c.enabled, d.enabled),
        }
    }
}

impl Default for Jupyter {
    fn default() -> (r: Self)
        ensures
            r == Self::spec_default(),
    {
        Jupyter { enabled: true }
    }
}

/// The layer's group, or the group with nothing specified.
pub open spec fn jupyter_or_empty(o: Option<JupyterContent>) -> JupyterContent {
    match o {
        Some(c) => c,
        None => JupyterContent::empty(),
    }
}

/// The configuration the rest of the application reads: every field concrete.
#[derive(Copy, Clone, Debug, PartialEq, Eq, Structural)]
pub struct EditorSettings {
    /// Whether the cursor blinks in the editor.
    pub cursor_blink: bool,
    /// How to highlight the current line in the editor.
    pub current_line_highlight: CurrentLineHighlight,
    /// Whether to show the informational hover box over symbols.
    pub hover_popover_enabled: bool,
    /// Whether to pop the completions menu while typing.
    pub show_completions_on_input: bool,
    /// Whether to display documentation alongside completion items.
    pub show_completion_documentation: bool,
    /// The debounce delay, in milliseconds, before re-querying completion documentation.
    pub completion_documentation_secondary_query_debounce: u64,
    /// Whether to format the code after every trigger symbol.
    pub use_on_type_format: bool,
    /// Toolbar related settings.
    pub toolbar: Toolbar,
    /// Scrollbar related settings.
    pub scrollbar: Scrollbar,
    /// Gutter related settings.
    pub gutter: Gutter,
    /// Whether the editor will scroll beyond the last line.
    pub scroll_beyond_last_line: ScrollBeyondLastLine,
    /// Lines kept above/below the cursor when auto-scrolling (3.0 by default).
    pub vertical_scroll_margin: FloatBits,
    /// Scroll sensitivity multiplier (1.0 by default).
    pub scroll_sensitivity: FloatBits,
    /// Whether the line numbers in the gutter are relative.
    pub relative_line_numbers: bool,
    /// When to seed a new search's query from the text under the cursor.
    pub seed_search_query_from_cursor: SeedQuerySetting,
    /// The key to use for adding multiple cursors.
    pub multi_cursor_modifier: MultiCursorModifier,
    /// Whether to hide the values of variables in private files.
    pub redact_private_values: bool,
    /// How many lines to expand the multibuffer excerpts by.
    pub expand_excerpt_lines: u32,
    /// Whether to enable middle-click paste on Linux.
    pub middle_click_paste: bool,
    /// What to do when a multibuffer excerpt is double clicked.
    pub double_click_in_multibuffer: DoubleClickInMultibuffer,
    /// Whether the editor search results will loop.
    pub search_wrap: bool,
    /// Whether to automatically show a signature help pop-up.
    pub auto_signature_help: bool,
    /// Whether to show signature help after completions or bracket pairs are inserted.
    pub show_signature_help_after_edits: bool,
    /// Jupyter REPL settings.
    pub jupyter: Jupyter,
    /// Whether to show diagnostics inline by default.
    pub show_diagnostics_inline: bool,
}

impl EditorSettings {
    /// The schema's default for every option.
    pub open spec fn spec_default() -> Self {
        EditorSettings {
            cursor_blink: true,
            current_line_highlight: CurrentLineHighlight::All,
            hover_popover_enabled: true,
            show_completions_on_input: true,
            show_completion_documentation: true,
            completion_documentation_secondary_query_debounce: 300,
            use_on_type_format: true,
            toolbar: Toolbar::spec_default(),
            scrollbar: Scrollbar::spec_default(),
            gutter: Gutter::spec_default(),
            scroll_beyond_last_line: ScrollBeyondLastLine::OnePage,
            vertical_scroll_margin: FloatBits { bits: 0x4040_0000 },
            scroll_sensitivity: FloatBits { bits: 0x3F80_0000 },
            relative_line_numbers: false,
            seed_search_query_from_cursor: SeedQuerySetting::Always,
            multi_cursor_modifier: MultiCursorModifier::Alt,
            redact_private_values: false,
            expand_excerpt_lines: 3,
            middle_click_paste: true,
            double_click_in_multibuffer: DoubleClickInMultibuffer::Select,
            search_wrap: true,
            auto_signature_help: false,
            show_signature_help_after_edits: true,
            jupyter: Jupyter::spec_default(),
            show_diagnostics_inline: false,
        }
    }
}

impl Default for EditorSettings {
    fn default() -> (r: Self)
        ensures
            r == Self::spec_default(),
    {
        EditorSettings {
            cursor_blink: true,
            current_line_highlight: CurrentLineHighlight::All,
            hover_popover_enabled: true,
            show_completions_on_input: true,
            show_completion_documentation: true,
            completion_documentation_secondary_query_debounce: 300,
            use_on_type_format: true,
            toolbar: Toolbar::default(),
            scrollbar: Scrollbar::default(),
            gutter: Gutter::default(),
            scroll_beyond_last_line: ScrollBeyondLastLine::OnePage,
            vertical_scroll_margin: FloatBits { bits: 0x4040_0000 },
            scroll_sensitivity: FloatBits { bits: 0x3F80_0000 },
            relative_line_numbers: false,
            seed_search_query_from_cursor: SeedQuerySetting::Always,
            multi_cursor_modifier: MultiCursorModifier::Alt,
            redact_private_values: false,
            expand_excerpt_lines: 3,
            middle_click_paste: true,
            double_click_in_multibuffer: DoubleClickInMultibuffer::Select,
            search_wrap: true,
            auto_signature_help: false,
            show_signature_help_after_edits: true,
            jupyter: Jupyter::default(),
            show_diagnostics_inline: false,
        }
    }
}

/// The first invalid field of a merged document, in declaration order.
pub open spec fn first_error(c: EditorSettingsContent) -> Option<ResolutionError> {
    either(
        highlight_error(SettingField::CurrentLineHighlight, c.current_line_highlight),
        either(
            show_error(SettingField::ScrollbarShow, scrollbar_or_empty(c.scrollbar).show),
            either(
                beyond_error(SettingField::ScrollBeyondLastLine, c.scroll_beyond_last_line),
                either(
                    non_negative_error(
                        SettingField::VerticalScrollMargin,
                        c.vertical_scroll_margin,
                    ),
                    either(
                        finite_error(SettingField::ScrollSensitivity, c.scroll_sensitivity),
                        either(
                            seed_error(
                                SettingField::SeedSearchQueryFromCursor,
                                c.seed_search_query_from_cursor,
                            ),
                            either(
                                modifier_error(
                                    SettingField::MultiCursorModifier,
                                    c.multi_cursor_modifier,
                                ),
                                double_click_error(
                                    SettingField::DoubleClickInMultibuffer,
                                    c.double_click_in_multibuffer,
                                ),
                            ),
                        ),
                    ),
                ),
            ),
        ),
    )
}

/// Every field of a merged document resolved: its value where present, else the default.
pub open spec fn resolved_value(c: EditorSettingsContent) -> EditorSettings {
    let d = EditorSettings::spec_default();
    EditorSettings {
        cursor_blink: or_default(c.cursor_blink, d.cursor_blink),
        current_line_highlight: highlight_value(c.current_line_highlight, d.current_line_highlight),
        hover_popover_enabled: or_default(c.hover_popover_enabled, d.hover_popover_enabled),
        show_completions_on_input: or_default(
            c.show_completions_on_input,
            d.show_completions_on_input,
        ),
        show_completion_documentation: or_default(
            c.show_completion_documentation,
            d.show_completion_documentation,
        ),
        completion_documentation_secondary_query_debounce: or_default(
            c.completion_documentation_secondary_query_debounce,
            d.completion_documentation_secondary_query_debounce,
        ),
        use_on_type_format: or_default(c.use_on_type_format, d.use_on_type_format),
        toolbar: Toolbar::resolved_from(toolbar_or_empty(c.toolbar), d.toolbar),
        scrollbar: Scrollbar::resolved_from(scrollbar_or_empty(c.scrollbar), d.scrollbar),
        gutter: Gutter::resolved_from(gutter_or_empty(c.gutter), d.gutter),
        scroll_beyond_last_line: beyond_value(c.scroll_beyond_last_line, d.scroll_beyond_last_line),
        vertical_scroll_margin: or_default(c.vertical_scroll_margin, d.vertical_scroll_margin),
        scroll_sensitivity: or_default(c.scroll_sensitivity, d.scroll_sensitivity),
        relative_line_numbers: or_default(c.relative_line_numbers, d.relative_line_numbers),
        seed_search_query_from_cursor: seed_value(
            c.seed_search_query_from_cursor,
            d.seed_search_query_from_cursor,
        ),
        multi_cursor_modifier: modifier_value(c.multi_cursor_modifier, d.multi_cursor_modifier),
        redact_private_values: or_default(c.redact_private_values, d.redact_private_values),
        expand_excerpt_lines: or_default(c.expand_excerpt_lines, d.expand_excerpt_lines),
        middle_click_paste: or_default(c.middle_click_paste, d.middle_click_paste),
        double_click_in_multibuffer: double_click_value(
            c.double_click_in_multibuffer,
            d.double_click_in_multibuffer,
        ),
        search_wrap: or_default(c.search_wrap, d.search_wrap),
        auto_signature_help: or_default(c.auto_signature_help, d.auto_signature_help),
        show_signature_help_after_edits: or_default(
            c.show_signature_help_after_edits,
            d.show_signature_help_after_edits,
        ),
        jupyter: Jupyter::resolved_from(jupyter_or_empty(c.jupyter), d.jupyter),
        show_diagnostics_inline: or_default(c.show_diagnostics_inline, d.show_diagnostics_inline),
    }
}

/// Resolution of one document alone: its first invalid field fails it as a whole.
pub open spec fn resolution(c: EditorSettingsContent) -> Result<EditorSettings, ResolutionError> {
    match first_error(c) {
        Some(e) => Err(e),
        None => Ok(resolved_value(c)),
    }
}

/// The first invalid field of a priority sequence: documents are checked in
/// order, lowest authority first, each before any merging.
pub open spec fn first_error_in(docs: Seq<EditorSettingsContent>) -> Option<ResolutionError>
    decreases docs.len(),
{
    if docs.len() == 0 {
        None
    } else {
        either(first_error_in(docs.drop_last()), first_error(docs.last()))
    }
}

/// Resolution of a priority sequence: it fails on the first invalid value of
/// any document, even one that a higher layer overrides; otherwise it is the
/// merge of all documents with every absent field defaulted.
pub open spec fn layered_resolution(docs: Seq<EditorSettingsContent>) -> Result<
    EditorSettings,
    ResolutionError,
> {
    match first_error_in(docs) {
        Some(e) => Err(e),
        None => Ok(resolved_value(merged_all(docs))),
    }
}

proof fn lemma_merge_stays_valid(a: EditorSettingsContent, b: EditorSettingsContent)
    requires
        first_error(a) is None,
        first_error(b) is None,
    ensures
        first_error(a.merged(b)) is None,
{
}

/// Where no document holds an invalid value, neither does their merge.
pub proof fn lemma_valid_documents_merge_valid(docs: Seq<EditorSettingsContent>)
    requires
        first_error_in(docs) is None,
    ensures
        first_error(merged_all(docs)) is None,
    decreases docs.len(),
{
    if docs.len() > 0 {
        lemma_valid_documents_merge_valid(docs.drop_last());
        lemma_merge_stays_valid(merged_all(docs.drop_last()), docs.last());
    }
}

/// An error found in a prefix of the sequence is the sequence's first error.
pub proof fn lemma_prefix_error(docs: Seq<EditorSettingsContent>, i: int)
    requires
        0 <= i <= docs.len(),
        first_error_in(docs.subrange(0, i)) is Some,
    ensures
        first_error_in(docs) == first_error_in(docs.subrange(0, i)),
    decreases docs.len(),
{
    if i == docs.len() {
        assert(docs.subrange(0, i) == docs);
    } else {
        let p = docs.drop_last();
        assert(p.subrange(0, i) == docs.subrange(0, i));
        lemma_prefix_error(p, i);
    }
}

fn resolve_scrollbar(
    o: &Option<ScrollbarContent>,
    d: Scrollbar,
) -> (r: Result<Scrollbar, ResolutionError>)
    ensures
        match show_error(SettingField::ScrollbarShow, scrollbar_or_empty(*o).show) {
            Some(e) => r == Err::<Scrollbar, ResolutionError>(e),
            None => r == Ok::<Scrollbar, ResolutionError>(Scrollbar::resolved_from(scrollbar_or_empty(*o), d)),
        },
{
    match o {
        None => Ok(d),
        Some(c) => {
            let show = match resolve_show(SettingField::ScrollbarShow, &c.show, d.show) {
                Ok(x) => x,
                Err(e) => return Err(e),
            };
            Ok(Scrollbar {
                git_diff: value_or(c.git_diff, d.git_diff),
                selected_symbol: value_or(c.selected_symbol, d.selected_symbol),
                search_results: value_or(c.search_results, d.search_results),
                diagnostics: value_or(c.diagnostics, d.diagnostics),
                cursors: value_or(c.cursors, d.cursors),
                show,
            })
        },
    }
}

fn resolve_toolbar(o: &Option<ToolbarContent>, d: Toolbar) -> (r: Toolbar)
    ensures
        r == Toolbar::resolved_from(toolbar_or_empty(*o), d),
{
    match o {
        None => d,
        Some(c) => Toolbar {
            breadcrumbs: value_or(c.breadcrumbs, d.breadcrumbs),
            quick_actions: value_or(c.quick_actions, d.quick_actions),
            selections_menu: value_or(c.selections_menu, d.selections_menu),
        },
    }
}

fn resolve_gutter(o: &Option<GutterContent>, d: Gutter) -> (r: Gutter)
    ensures
        r == Gutter::resolved_from(gutter_or_empty(*o), d),
{
    match o {
        None => d,
        Some(c) => Gutter {
            line_numbers: value_or(c.line_numbers, d.line_numbers),
            code_actions: value_or(c.code_actions, d.code_actions),
            runnables: value_or(c.runnables, d.runnables),
            folds: value_or(c.folds, d.folds),
        },
    }
}

fn resolve_jupyter(o: &Option<JupyterContent>, d: Jupyter) -> (r: Jupyter)
    ensures
        r == Jupyter::resolved_from(jupyter_or_empty(*o), d),
{
    match o {
        None => d,
        Some(c) => Jupyter {
            enabled: value_or(c.enabled, d.enabled),
        },
    }
}

impl EditorSettings {
    /// Resolves one merged document: validates every present value and
    /// substitutes the schema default for every absent one.
    pub fn resolve_content(c: &EditorSettingsContent) -> (r: Result<EditorSettings, ResolutionError>)
        ensures
            r == resolution(*c),
    {
        let d = EditorSettings::default();
        let current_line_highlight = match resolve_highlight(
            SettingField::CurrentLineHighlight,
            &c.current_line_highlight,
            d.current_line_highlight,
        ) {
            Ok(x) => x,
            Err(e) => return Err(e),
        };
        let scrollbar = match resolve_scrollbar(&c.scrollbar, d.scrollbar) {
            Ok(x) => x,
            Err(e) => return Err(e),
        };
        let scroll_beyond_last_line = match resolve_beyond(
            SettingField::ScrollBeyondLastLine,
            &c.scroll_beyond_last_line,
            d.scroll_beyond_last_line,
        ) {
            Ok(x) => x,
            Err(e) => return Err(e),
        };
        let vertical_scroll_margin = match check_non_negative(
            SettingField::VerticalScrollMargin,
            c.vertical_scroll_margin,
            d.vertical_scroll_margin,
        ) {
            Ok(x) => x,
            Err(e) => return Err(e),
        };
        let scroll_sensitivity = match check_finite(
            SettingField::ScrollSensitivity,
            c.scroll_sensitivity,
            d.scroll_sensitivity,
        ) {
            Ok(x) => x,
            Err(e) => return Err(e),
        };
        let seed_search_query_from_cursor = match resolve_seed(
            SettingField::SeedSearchQueryFromCursor,
            &c.seed_search_query_from_cursor,
            d.seed_search_query_from_cursor,
        ) {
            Ok(x) => x,
            Err(e) => return Err(e),
        };
        let multi_cursor_modifier = match resolve_modifier(
            SettingField::MultiCursorModifier,
            &c.multi_cursor_modifier,
            d.multi_cursor_modifier,
        ) {
            Ok(x) => x,
            Err(e) => return Err(e),
        };
        let double_click_in_multibuffer = match resolve_double_click(
            SettingField::DoubleClickInMultibuffer,
            &c.double_click_in_multibuffer,
            d.double_click_in_multibuffer,
        ) {
            Ok(x) => x,
            Err(e) => return Err(e),
        };
        Ok(EditorSettings {
            cursor_blink: value_or(c.cursor_blink, d.cursor_blink),
            current_line_highlight,
            hover_popover_enabled: value_or(c.hover_popover_enabled, d.hover_popover_enabled),
            show_completions_on_input: value_or(
                c.show_completions_on_input,
                d.show_completions_on_input,
            ),
            show_completion_documentation: value_or(
                c.show_completion_documentation,
                d.show_completion_documentation,
            ),
            completion_documentation_secondary_query_debounce: value_or(
                c.completion_documentation_secondary_query_debounce,
                d.completion_documentation_secondary_query_debounce,
            ),
            use_on_type_format: value_or(c.use_on_type_format, d.use_on_type_format),
            toolbar: resolve_toolbar(&c.toolbar, d.toolbar),
            scrollbar,
            gutter: resolve_gutter(&c.gutter, d.gutter),
            scroll_beyond_last_line,
            vertical_scroll_margin,
            scroll_sensitivity,
            relative_line_numbers: value_or(c.relative_line_numbers, d.relative_line_numbers),
            seed_search_query_from_cursor,
            multi_cursor_modifier,
            redact_private_values: value_or(c.redact_private_values, d.redact_private_values),
            expand_excerpt_lines: value_or(c.expand_excerpt_lines, d.expand_excerpt_lines),
            middle_click_paste: value_or(c.middle_click_paste, d.middle_click_paste),
            double_click_in_multibuffer,
            search_wrap: value_or(c.search_wrap, d.search_wrap),
            auto_signature_help: value_or(c.auto_signature_help, d.auto_signature_help),
            show_signature_help_after_edits: value_or(
                c.show_signature_help_after_edits,
                d.show_signature_help_after_edits,
            ),
            jupyter: resolve_jupyter(&c.jupyter, d.jupyter),
            show_diagnostics_inline: value_or(c.show_diagnostics_inline, d.show_diagnostics_inline),
        })
    }

    /// Validates each document, lowest authority first, then merges them and
    /// resolves the result; the first invalid value of any document fails it.
    pub fn load(sources: &Vec<EditorSettingsContent>) -> (r: Result<EditorSettings, ResolutionError>)
        ensures
            r == layered_resolution(sources@),
    {
        let mut i: usize = 0;
        while i < sources.len()
            invariant
                i <= sources@.len(),
                first_error_in(sources@.subrange(0, i as int)) is None,
            decreases sources@.len() - i,
        {
            let checked = Self::resolve_content(&sources[i]);
            proof {
                assert(sources@.subrange(0, i + 1).drop_last() == sources@.subrange(0, i as int));
            }
            if let Err(e) = checked {
                proof {
                    lemma_prefix_error(sources@, i + 1);
                }
                return Err(e);
            }
            i = i + 1;
        }
        proof {
            assert(sources@.subrange(0, sources@.len() as int) == sources@);
            lemma_valid_documents_merge_valid(sources@);
        }
        let merged = crate::content::merge_documents(sources);
        Self::resolve_content(&merged)
    }
}

} // verus!
