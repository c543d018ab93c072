//! Partial documents: one configuration layer each, every field optional,
//! and the last-wins merge that folds a sequence of them into one.
use vstd::prelude::*;

verus! {

/// A 32-bit floating-point value carried as its IEEE-754 bit pattern.
///
/// The library moves such values and checks their domain by the bits alone;
/// callers convert with `f32::to_bits` and `f32::from_bits`.
#[derive(Copy, Clone, Debug, PartialEq, Eq, Structural)]
pub struct FloatBits {
    pub bits: u32,
}

/// Last-wins choice between a lower and a higher layer's value.
pub open spec fn pick<T>(low: Option<T>, high: Option<T>) -> Option<T> {
    if high is Some {
        high
    } else {
        low
    }
}

fn pick_copy<T: Copy>(low: Option<T>, high: Option<T>) -> (r: Option<T>)
    ensures
        r == pick(low, high),
{
    if high.is_some() {
        high
    } else {
        low
    }
}

fn pick_name(low: &Option<String>, high: &Option<String>) -> (r: Option<String>)
    ensures
        r == pick(*low, *high),
{
    match high {
        Some(s) => Some(s.clone()),
        None => match low {
            Some(s) => Some(s.clone()),
            None => None,
        },
    }
}

/// Toolbar related settings, as one layer declares them.
#[derive(Clone, Debug, PartialEq, Eq)]
pub struct ToolbarContent {
    /// Whether to display breadcrumbs in the editor toolbar.
    pub breadcrumbs: Option<bool>,
    /// Whether to display quick action buttons in the editor toolbar.
    pub quick_actions: Option<bool>,
    /// Whether to show the selections menu in the editor toolbar.
    pub selections_menu: Option<bool>,
}

impl ToolbarContent {
    /// The group with no field specified.
    pub open spec fn empty() -> Self {
        ToolbarContent { breadcrumbs: None, quick_actions: None, selections_menu: None }
    }

    /// Field by field, the higher layer's value where it has one.
    pub open spec fn merged(self, higher: Self) -> Self {
        ToolbarContent {
            breadcrumbs: pick(self.breadcrumbs, higher.breadcrumbs),
            quick_actions: pick(self.quick_actions, higher.quick_actions),
            selections_menu: pick(self.selections_menu, higher.selections_menu),
        }
    }

    /// Overlays `higher` on this group, field by field.
    pub fn merge_from(&mut self, higher: &Self)
        ensures
            *final(self) == old(self).merged(*higher),
    {
        self.breadcrumbs = pick_copy(self.breadcrumbs, higher.breadcrumbs);
        self.quick_actions = pick_copy(self.quick_actions, higher.quick_actions);
        self.selections_menu = pick_copy(self.selections_menu, higher.selections_menu);
    }
}

impl Default for ToolbarContent {
    fn default() -> (r: Self)
        ensures
            r == Self::empty(),
    {
        ToolbarContent { breadcrumbs: None, quick_actions: None, selections_menu: None }
    }
}

/// Scrollbar related settings, as one layer declares them.
#[derive(Clone, Debug, PartialEq, Eq)]
pub struct ScrollbarContent {
    /// When to show the scrollbar in the editor.
    pub show: Option<String>,
    /// Whether to show git diff indicators in the scrollbar.
    pub git_diff: Option<bool>,
    /// Whether to show buffer search result indicators in the scrollbar.
    pub search_results: Option<bool>,
    /// Whether to show selected symbol occurrences in the scrollbar.
    pub selected_symbol: Option<bool>,
    /// Whether to show diagnostic indicators in the scrollbar.
    pub diagnostics: Option<bool>,
    /// Whether to show cursor positions in the scrollbar.
    pub cursors: Option<bool>,
}

impl ScrollbarContent {
    /// The group with no field specified.
    pub open spec fn empty() -> Self {
        ScrollbarContent {
            show: None,
            git_diff: None,
            search_results: None,
            selected_symbol: None,
            diagnostics: None,
            cursors: None,
        }
    }

    /// Field by field, the higher layer's value where it has one.
    pub open spec fn merged(self, higher: Self) -> Self {
        ScrollbarContent {
            show: pick(self.show, higher.show),
            git_diff: pick(self.git_diff, higher.git_diff),
            search_results: pick(self.search_results, higher.search_results),
            selected_symbol: pick(self.selected_symbol, higher.selected_symbol),
            diagnostics: pick(self.diagnostics, higher.diagnostics),
            cursors: pick(self.cursors, higher.cursors),
        }
    }

    /// Overlays `higher` on this group, field by field.
    pub fn merge_from(&mut self, higher: &Self)
        ensures
            *final(self) == old(self).merged(*higher),
    {
        self.show = pick_name(&self.show, &higher.show);
        self.git_diff = pick_copy(self.git_diff, higher.git_diff);
        self.search_results = pick_copy(self.search_results, higher.search_results);
        self.selected_symbol = pick_copy(self.selected_symbol, higher.selected_symbol);
        self.diagnostics = pick_copy(self.diagnostics, higher.diagnostics);
        self.cursors = pick_copy(self.cursors, higher.cursors);
    }
}

impl Default for ScrollbarContent {
    fn default() -> (r: Self)
        ensures
            r == Self::empty(),
    {
        ScrollbarContent {
            show: None,
            git_diff: None,
            search_results: None,
            selected_symbol: None,
            diagnostics: None,
            cursors: None,
        }
    }
}

/// Gutter related settings, as one layer declares them.
#[derive(Clone, Debug, PartialEq, Eq)]
pub struct GutterContent {
    /// Whether to show line numbers in the gutter.
    pub line_numbers: Option<bool>,
    /// Whether to show code action buttons in the gutter.
    pub code_actions: Option<bool>,
    /// Whether to show runnable buttons in the gutter.
    pub runnables: Option<bool>,
    /// Whether to show fold buttons in the gutter.
    pub folds: Option<bool>,
}

impl GutterContent {
    /// The group with no field specified.
    pub open spec fn empty() -> Self {
        GutterContent { line_numbers: None, code_actions: None, runnables: None, folds: None }
    }

    /// Field by field, the higher layer's value where it has one.
    pub open spec fn merged(self, higher: Self) -> Self {
        GutterContent {
            line_numbers: pick(self.line_numbers, higher.line_numbers),
            code_actions: pick(self.code_actions, higher.code_actions),
            runnables: pick(self.runnables, higher.runnables),
            folds: pick(self.folds, higher.folds),
        }
    }

    /// Overlays `higher` on this group, field by field.
    pub fn merge_from(&mut self, higher: &Self)
        ensures
            *final(self) == old(self).merged(*higher),
    {
        self.line_numbers = pick_copy(self.line_numbers, higher.line_numbers);
        self.code_actions = pick_copy(self.code_actions, higher.code_actions);
        self.runnables = pick_copy(self.runnables, higher.runnables);
        self.folds = pick_copy(self.folds, higher.folds);
    }
}

impl Default for GutterContent {
    fn default() -> (r: Self)
        ensures
            r == Self::empty(),
    {
        GutterContent { line_numbers: None, code_actions: None, runnables: None, folds: None }
    }
}

/// Jupyter related settings, as one layer declares them.
#[derive(Clone, Debug, PartialEq, Eq)]
pub struct JupyterContent {
    /// Whether the Jupyter feature is enabled.
    pub enabled: Option<bool>,
}

impl JupyterContent {
    /// The group with no field specified.
    pub open spec fn empty() -> Self {
        JupyterContent { enabled: None }
    }

    /// Field by field, the higher layer's value where it has one.
    pub open spec fn merged(self, higher: Self) -> Self {
        JupyterContent {
            enabled: pick(self.enabled, higher.enabled),
        }
    }

    /// Overlays `higher` on this group, field by field.
    pub fn merge_from(&mut self, higher: &Self)
        ensures
            *final(self) == old(self).merged(*higher),
    {
        self.enabled = pick_copy(self.enabled, higher.enabled);
    }
}

impl Default for JupyterContent {
    fn default() -> (r: Self)
        ensures
            r == Self::empty(),
    {
        JupyterContent { enabled: None }
    }
}

/// Merges an optional group: a group absent from the higher layer leaves the lower one intact.
pub open spec fn merge_toolbar(
    low: Option<ToolbarContent>,
    high: Option<ToolbarContent>,
) -> Option<ToolbarContent> {
    match high {
        None => low,
        Some(h) => match low {
            None => Some(h),
            Some(l) => Some(l.merged(h)),
        },
    }
}

fn merge_toolbar_exec(
    low: &Option<ToolbarContent>,
    high: &Option<ToolbarContent>,
) -> (r: Option<ToolbarContent>)
    ensures
        r == merge_toolbar(*low, *high),
{
    match high {
        None => match low {
            None => None,
            Some(l) => Some(copy_toolbar(l)),
        },
        Some(h) => {
            let mut acc = match low {
                None => ToolbarContent::default(),
                Some(l) => copy_toolbar(l),
            };
            acc.merge_from(h);
            Some(acc)
        },
    }
}

fn copy_toolbar(c: &ToolbarContent) -> (r: ToolbarContent)
    ensures
        r == *c,
{
    let mut r = ToolbarContent::default();
    r.merge_from(c);
    r
}

/// Merges an optional group: a group absent from the higher layer leaves the lower one intact.
pub open spec fn merge_scrollbar(
    low: Option<ScrollbarContent>,
    high: Option<ScrollbarContent>,
) -> Option<ScrollbarContent> {
    match high {
        None => low,
        Some(h) => match low {
            None => Some(h),
            Some(l) => Some(l.merged(h)),
        },
    }
}

fn merge_scrollbar_exec(
    low: &Option<ScrollbarContent>,
    high: &Option<ScrollbarContent>,
) -> (r: Option<ScrollbarContent>)
    ensures
        r == merge_scrollbar(*low, *high),
{
    match high {
        None => match low {
            None => None,
            Some(l) => Some(copy_scrollbar(l)),
        },
        Some(h) => {
            let mut acc = match low {
                None => ScrollbarContent::default(),
                Some(l) => copy_scrollbar(l),
            };
            acc.merge_from(h);
            Some(acc)
        },
    }
}

fn copy_scrollbar(c: &ScrollbarContent) -> (r: ScrollbarContent)
    ensures
        r == *c,
{
    let mut r = ScrollbarContent::default();
    r.merge_from(c);
    r
}

/// Merges an optional group: a group absent from the higher layer leaves the lower one intact.
pub open spec fn merge_gutter(
    low: Option<GutterContent>,
    high: Option<GutterContent>,
) -> Option<GutterContent> {
    match high {
        None => low,
        Some(h) => match low {
            None => Some(h),
            Some(l) => Some(l.merged(h)),
        },
    }
}

fn merge_gutter_exec(
    low: &Option<GutterContent>,
    high: &Option<GutterContent>,
) -> (r: Option<GutterContent>)
    ensures
        r == merge_gutter(*low, *high),
{
    match high {
        None => match low {
            None => None,
            Some(l) => Some(copy_gutter(l)),
        },
        Some(h) => {
            let mut acc = match low {
                None => GutterContent::default(),
                Some(l) => copy_gutter(l),
            };
            acc.merge_from(h);
            Some(acc)
        },
    }
}

fn copy_gutter(c: &GutterContent) -> (r: GutterContent)
    ensures
        r == *c,
{
    let mut r = GutterContent::default();
    r.merge_from(c);
    r
}

/// Merges an optional group: a group absent from the higher layer leaves the lower one intact.
pub open spec fn merge_jupyter(
    low: Option<JupyterContent>,
    high: Option<JupyterContent>,
) -> Option<JupyterContent> {
    match high {
        None => low,
        Some(h) => match low {
            None => Some(h),
            Some(l) => Some(l.merged(h)),
        },
    }
}

fn merge_jupyter_exec(
    low: &Option<JupyterContent>,
    high: &Option<JupyterContent>,
) -> (r: Option<JupyterContent>)
    ensures
        r == merge_jupyter(*low, *high),
{
    match high {
        None => match low {
            None => None,
            Some(l) => Some(copy_jupyter(l)),
        },
        Some(h) => {
            let mut acc = match low {
                None => JupyterContent::default(),
                Some(l) => copy_jupyter(l),
            };
            acc.merge_from(h);
            Some(acc)
        },
    }
}

fn copy_jupyter(c: &JupyterContent) -> (r: JupyterContent)
    ensures
        r == *c,
{
    let mut r = JupyterContent::default();
    r.merge_from(c);
    r
}

/// One configuration layer: every option, and every field of every group, optional.
#[derive(Clone, Debug, PartialEq, Eq)]
pub struct EditorSettingsContent {
    /// Whether the cursor blinks in the editor.
    pub cursor_blink: Option<bool>,
    /// How to highlight the current line in the editor.
    pub current_line_highlight: Option<String>,
    /// Whether to show the informational hover box when moving the mouse over symbols.
    pub hover_popover_enabled: Option<bool>,
    /// Whether to pop the completions menu while typing without explicitly requesting it.
    pub show_completions_on_input: Option<bool>,
    /// Whether to display documentation alongside items in the completions menu.
    pub show_completion_documentation: Option<bool>,
    /// The debounce delay, in milliseconds, before re-querying completion documentation.
    pub completion_documentation_secondary_query_debounce: Option<u64>,
    /// Whether to format the code after every trigger symbol the language server declares.
    pub use_on_type_format: Option<bool>,
    /// Toolbar related settings.
    pub toolbar: Option<ToolbarContent>,
    /// Scrollbar related settings.
    pub scrollbar: Option<ScrollbarContent>,
    /// Gutter related settings.
    pub gutter: Option<GutterContent>,
    /// Whether the editor will scroll beyond the last line.
    pub scroll_beyond_last_line: Option<String>,
    /// The number of lines to keep above/below the cursor when auto-scrolling.
    pub vertical_scroll_margin: Option<FloatBits>,
    /// Scroll sensitivity multiplier for both scroll directions.
    pub scroll_sensitivity: Option<FloatBits>,
    /// Whether the line numbers in the gutter are relative.
    pub relative_line_numbers: Option<bool>,
    /// When to populate a new search's query based on the text under the cursor.
    pub seed_search_query_from_cursor: Option<String>,
    /// The key to use for adding multiple cursors.
    pub multi_cursor_modifier: Option<String>,
    /// Whether to hide the values of variables in private files.
    pub redact_private_values: Option<bool>,
    /// How many lines to expand the multibuffer excerpts by.
    pub expand_excerpt_lines: Option<u32>,
    /// Whether to enable middle-click paste on Linux.
    pub middle_click_paste: Option<bool>,
    /// What to do when a multibuffer is double clicked in one of its excerpts.
    pub double_click_in_multibuffer: Option<String>,
    /// Whether the editor search results will loop.
    pub search_wrap: Option<bool>,
    /// Whether to automatically show a signature help pop-up.
    pub auto_signature_help: Option<bool>,
    /// Whether to show signature help after completions or bracket pairs are inserted.
    pub show_signature_help_after_edits: Option<bool>,
    /// Jupyter REPL settings.
    pub jupyter: Option<JupyterContent>,
    /// Whether to show diagnostics inline by default.
    pub show_diagnostics_inline: Option<bool>,
}

impl EditorSettingsContent {
    /// The document that specifies nothing.
    pub open spec fn empty() -> Self {
        EditorSettingsContent {
            cursor_blink: None,
            current_line_highlight: None,
            hover_popover_enabled: None,
            show_completions_on_input: None,
            show_completion_documentation: None,
            completion_documentation_secondary_query_debounce: None,
            use_on_type_format: None,
            toolbar: None,
            scrollbar: None,
            gutter: None,
            scroll_beyond_last_line: None,
            vertical_scroll_margin: None,
            scroll_sensitivity: None,
            relative_line_numbers: None,
            seed_search_query_from_cursor: None,
            multi_cursor_modifier: None,
            redact_private_values: None,
            expand_excerpt_lines: None,
            middle_click_paste: None,
            double_click_in_multibuffer: None,
            search_wrap: None,
            auto_signature_help: None,
            show_signature_help_after_edits: None,
            jupyter: None,
            show_diagnostics_inline: None,
        }
    }

    /// Field by field, and leaf by leaf inside groups, the higher layer's value where it has one.
    pub open spec fn merged(self, higher: Self) -> Self {
        EditorSettingsContent {
            cursor_blink: pick(self.cursor_blink, higher.cursor_blink),
            current_line_highlight: pick(
                self.current_line_highlight,
                higher.current_line_highlight,
            ),
            hover_popover_enabled: pick(self.hover_popover_enabled, higher.hover_popover_enabled),
            show_completions_on_input: pick(
                self.show_completions_on_input,
                higher.show_completions_on_input,
            ),
            show_completion_documentation: pick(
                self.show_completion_documentation,
                higher.show_completion_documentation,
            ),
            completion_documentation_secondary_query_debounce: pick(
                self.completion_documentation_secondary_query_debounce,
                higher.completion_documentation_secondary_query_debounce,
            ),
            use_on_type_format: pick(self.use_on_type_format, higher.use_on_type_format),
            toolbar: merge_toolbar(self.toolbar, higher.toolbar),
            scrollbar: merge_scrollbar(self.scrollbar, higher.scrollbar),
            gutter: merge_gutter(self.gutter, higher.gutter),
            scroll_beyond_last_line: pick(
                self.scroll_beyond_last_line,
                higher.scroll_beyond_last_line,
            ),
            vertical_scroll_margin: pick(
                self.vertical_scroll_margin,
                higher.vertical_scroll_margin,
            ),
            scroll_sensitivity: pick(self.scroll_sensitivity, higher.scroll_sensitivity),
            relative_line_numbers: pick(self.relative_line_numbers, higher.relative_line_numbers),
            seed_search_query_from_cursor: pick(
                self.seed_search_query_from_cursor,
                higher.seed_search_query_from_cursor,
            ),
            multi_cursor_modifier: pick(self.multi_cursor_modifier, higher.multi_cursor_modifier),
            redact_private_values: pick(self.redact_private_values, higher.redact_private_values),
            expand_excerpt_lines: pick(self.expand_excerpt_lines, higher.expand_excerpt_lines),
            middle_click_paste: pick(self.middle_click_paste, higher.middle_click_paste),
            double_click_in_multibuffer: pick(
                self.double_click_in_multibuffer,
                higher.double_click_in_multibuffer,
            ),
            search_wrap: pick(self.search_wrap, higher.search_wrap),
            auto_signature_help: pick(self.auto_signature_help, higher.auto_signature_help),
            show_signature_help_after_edits: pick(
                self.show_signature_help_after_edits,
                higher.show_signature_help_after_edits,
            ),
            jupyter: merge_jupyter(self.jupyter, higher.jupyter),
            show_diagnostics_inline: pick(
                self.show_diagnostics_inline,
                higher.show_diagnostics_inline,
            ),
        }
    }

    /// Overlays `higher` on this document.
    pub fn merge_from(&mut self, higher: &Self)
        ensures
            *final(self) == old(self).merged(*higher),
    {
        self.cursor_blink = pick_copy(self.cursor_blink, higher.cursor_blink);
        self.current_line_highlight = pick_name(
            &self.current_line_highlight,
            &higher.current_line_highlight,
        );
        self.hover_popover_enabled = pick_copy(
            self.hover_popover_enabled,
            higher.hover_popover_enabled,
        );
        self.show_completions_on_input = pick_copy(
            self.show_completions_on_input,
            higher.show_completions_on_input,
        );
        self.show_completion_documentation = pick_copy(
            self.show_completion_documentation,
            higher.show_completion_documentation,
        );
        self.completion_documentation_secondary_query_debounce = pick_copy(
            self.completion_documentation_secondary_query_debounce,
            higher.completion_documentation_secondary_query_debounce,
        );
        self.use_on_type_format = pick_copy(self.use_on_type_format, higher.use_on_type_format);
        self.toolbar = merge_toolbar_exec(&self.toolbar, &higher.toolbar);
        self.scrollbar = merge_scrollbar_exec(&self.scrollbar, &higher.scrollbar);
        self.gutter = merge_gutter_exec(&self.gutter, &higher.gutter);
        self.scroll_beyond_last_line = pick_name(
            &self.scroll_beyond_last_line,
            &higher.scroll_beyond_last_line,
        );
        self.vertical_scroll_margin = pick_copy(
            self.vertical_scroll_margin,
            higher.vertical_scroll_margin,
        );
        self.scroll_sensitivity = pick_copy(self.scroll_sensitivity, higher.scroll_sensitivity);
        self.relative_line_numbers = pick_copy(
            self.relative_line_numbers,
            higher.relative_line_numbers,
        );
        self.seed_search_query_from_cursor = pick_name(
            &self.seed_search_query_from_cursor,
            &higher.seed_search_query_from_cursor,
        );
        self.multi_cursor_modifier = pick_name(
            &self.multi_cursor_modifier,
            &higher.multi_cursor_modifier,
        );
        self.redact_private_values = pick_copy(
            self.redact_private_values,
            higher.redact_private_values,
        );
        self.expand_excerpt_lines = pick_copy(
            self.expand_excerpt_lines,
            higher.expand_excerpt_lines,
        );
        self.middle_click_paste = pick_copy(self.middle_click_paste, higher.middle_click_paste);
        self.double_click_in_multibuffer = pick_name(
            &self.double_click_in_multibuffer,
            &higher.double_click_in_multibuffer,
        );
        self.search_wrap = pick_copy(self.search_wrap, higher.search_wrap);
        self.auto_signature_help = pick_copy(self.auto_signature_help, higher.auto_signature_help);
        self.show_signature_help_after_edits = pick_copy(
            self.show_signature_help_after_edits,
            higher.show_signature_help_after_edits,
        );
        self.jupyter = merge_jupyter_exec(&self.jupyter, &higher.jupyter);
        self.show_diagnostics_inline = pick_copy(
            self.show_diagnostics_inline,
            higher.show_diagnostics_inline,
        );
    }
}

impl Default for EditorSettingsContent {
    fn default() -> (r: Self)
        ensures
            r == Self::empty(),
    {
        EditorSettingsContent {
            cursor_blink: None,
            current_line_highlight: None,
            hover_popover_enabled: None,
            show_completions_on_input: None,
            show_completion_documentation: None,
            completion_documentation_secondary_query_debounce: None,
            use_on_type_format: None,
            toolbar: None,
            scrollbar: None,
            gutter: None,
            scroll_beyond_last_line: None,
            vertical_scroll_margin: None,
            scroll_sensitivity: None,
            relative_line_numbers: None,
            seed_search_query_from_cursor: None,
            multi_cursor_modifier: None,
            redact_private_values: None,
            expand_excerpt_lines: None,
            middle_click_paste: None,
            double_click_in_multibuffer: None,
            search_wrap: None,
            auto_signature_help: None,
            show_signature_help_after_edits: None,
            jupyter: None,
            show_diagnostics_inline: None,
        }
    }
}

/// The merge of a whole priority sequence, lowest authority first.
pub open spec fn merged_all(docs: Seq<EditorSettingsContent>) -> EditorSettingsContent
    decreases docs.len(),
{
    if docs.len() == 0 {
        EditorSettingsContent::empty()
    } else {
        merged_all(docs.drop_last()).merged(docs.last())
    }
}

/// Folds the documents in order into one; an empty sequence specifies nothing.
pub fn merge_documents(docs: &Vec<EditorSettingsContent>) -> (r: EditorSettingsContent)
    ensures
        r == merged_all(docs@),
{
    let mut acc = EditorSettingsContent::default();
    let mut i: usize = 0;
    while i < docs.len()
        invariant
            i <= docs@.len(),
            acc == merged_all(docs@.subrange(0, i as int)),
        decreases docs@.len() - i,
    {
        proof {
            assert(docs@.subrange(0, i + 1).drop_last() == docs@.subrange(0, i as int));
        }
        acc.merge_from(&docs[i]);
        i = i + 1;
    }
    proof {
        assert(docs@.subrange(0, docs@.len() as int) == docs@);
    }
    acc
}

} // verus!
