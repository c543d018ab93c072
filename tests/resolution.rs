use editor_settings::{
    merge_documents, CurrentLineHighlight, DoubleClickInMultibuffer, EditorSettings,
    EditorSettingsContent, FloatBits, GutterContent, JupyterContent, MultiCursorModifier,
    ResolutionError, ScrollBeyondLastLine, ScrollbarContent, SeedQuerySetting, SettingField,
    SettingsStore, ShowScrollbar, ToolbarContent,
};

fn float(v: f32) -> FloatBits {
    FloatBits { bits: v.to_bits() }
}

fn doc() -> EditorSettingsContent {
    EditorSettingsContent::default()
}

fn toolbar(breadcrumbs: Option<bool>, quick_actions: Option<bool>) -> ToolbarContent {
    ToolbarContent {
        breadcrumbs,
        quick_actions,
        selections_menu: None,
    }
}

#[test]
fn scroll_margin_taken_from_highest_layer() {
    let mut defaults = doc();
    defaults.vertical_scroll_margin = Some(float(3.0));
    let mut layer_a = doc();
    layer_a.vertical_scroll_margin = Some(float(5.0));
    let layer_b = doc();
    let s = EditorSettings::load(&vec![defaults, layer_a, layer_b]).unwrap();
    assert_eq!(f32::from_bits(s.vertical_scroll_margin.bits), 5.0);
}

#[test]
fn toolbar_overridden_field_by_field() {
    let mut defaults = doc();
    defaults.toolbar = Some(toolbar(Some(true), Some(true)));
    let mut layer_a = doc();
    layer_a.toolbar = Some(toolbar(Some(false), None));
    let s = EditorSettings::load(&vec![defaults, layer_a]).unwrap();
    assert!(!s.toolbar.breadcrumbs);
    assert!(s.toolbar.quick_actions);
    assert!(s.toolbar.selections_menu);
}

#[test]
fn legacy_ctrl_alias_resolves_to_cmd_or_ctrl() {
    let mut defaults = doc();
    defaults.multi_cursor_modifier = Some("alt".to_string());
    let mut layer_a = doc();
    layer_a.multi_cursor_modifier = Some("ctrl".to_string());
    let s = EditorSettings::load(&vec![defaults, layer_a]).unwrap();
    assert_eq!(s.multi_cursor_modifier, MultiCursorModifier::CmdOrCtrl);
}

#[test]
fn bogus_highlight_fails_and_store_keeps_previous() {
    let mut store = SettingsStore::new();
    let mut good = doc();
    good.current_line_highlight = Some("gutter".to_string());
    assert!(store.reload(&vec![good]).is_ok());
    let before = store.get().unwrap();

    let mut defaults = doc();
    defaults.current_line_highlight = Some("all".to_string());
    let mut layer_a = doc();
    layer_a.current_line_highlight = Some("bogus".to_string());
    let err = store.reload(&vec![defaults, layer_a]).unwrap_err();
    assert_eq!(
        err,
        ResolutionError::InvalidEnumValue {
            field: SettingField::CurrentLineHighlight,
            value: "bogus".to_string(),
        }
    );
    if let ResolutionError::InvalidEnumValue { field, .. } = err {
        assert_eq!(field.path(), "current_line_highlight");
    }
    assert_eq!(store.get(), Some(before));
    assert_eq!(before.current_line_highlight, CurrentLineHighlight::Gutter);
}

#[test]
fn resolving_twice_gives_identical_settings() {
    let mut a = doc();
    a.cursor_blink = Some(false);
    a.scrollbar = Some(ScrollbarContent {
        show: Some("never".to_string()),
        git_diff: Some(false),
        search_results: None,
        selected_symbol: None,
        diagnostics: None,
        cursors: None,
    });
    let mut b = doc();
    b.expand_excerpt_lines = Some(7);
    let docs = vec![a, b];
    assert_eq!(EditorSettings::load(&docs), EditorSettings::load(&docs));
}

#[test]
fn no_documents_resolve_to_schema_defaults() {
    let s = EditorSettings::load(&vec![]).unwrap();
    assert_eq!(s, EditorSettings::default());
    assert!(s.cursor_blink);
    assert_eq!(s.current_line_highlight, CurrentLineHighlight::All);
    assert_eq!(s.completion_documentation_secondary_query_debounce, 300);
    assert_eq!(s.scroll_beyond_last_line, ScrollBeyondLastLine::OnePage);
    assert_eq!(f32::from_bits(s.vertical_scroll_margin.bits), 3.0);
    assert_eq!(f32::from_bits(s.scroll_sensitivity.bits), 1.0);
    assert!(!s.relative_line_numbers);
    assert_eq!(s.seed_search_query_from_cursor, SeedQuerySetting::Always);
    assert_eq!(s.multi_cursor_modifier, MultiCursorModifier::Alt);
    assert!(!s.redact_private_values);
    assert_eq!(s.expand_excerpt_lines, 3);
    assert_eq!(s.double_click_in_multibuffer, DoubleClickInMultibuffer::Select);
    assert!(!s.auto_signature_help);
    assert!(s.show_signature_help_after_edits);
    assert!(!s.show_diagnostics_inline);
    assert_eq!(s.scrollbar.show, ShowScrollbar::Auto);
    assert!(s.scrollbar.cursors);
    assert!(s.gutter.folds);
    assert!(s.jupyter.enabled);
}

#[test]
fn unspecified_fields_keep_defaults_beside_specified_ones() {
    let mut a = doc();
    a.gutter = Some(GutterContent {
        line_numbers: Some(false),
        code_actions: None,
        runnables: None,
        folds: None,
    });
    a.search_wrap = Some(false);
    let s = EditorSettings::load(&vec![a]).unwrap();
    assert!(!s.gutter.line_numbers);
    assert!(s.gutter.code_actions);
    assert!(s.gutter.runnables);
    assert!(!s.search_wrap);
    assert!(s.middle_click_paste);
    assert!(s.hover_popover_enabled);
}

#[test]
fn alias_and_canonical_spelling_resolve_alike() {
    for alias in ["cmd", "ctrl"] {
        let mut with_alias = doc();
        with_alias.multi_cursor_modifier = Some(alias.to_string());
        let mut with_canonical = doc();
        with_canonical.multi_cursor_modifier = Some("cmd_or_ctrl".to_string());
        assert_eq!(
            EditorSettings::load(&vec![doc(), with_alias]),
            EditorSettings::load(&vec![doc(), with_canonical])
        );
    }
}

#[test]
fn invalid_spelling_overridden_by_higher_layer_still_fails() {
    let mut low = doc();
    low.seed_search_query_from_cursor = Some("sometimes".to_string());
    let mut high = doc();
    high.seed_search_query_from_cursor = Some("selection".to_string());
    assert_eq!(
        EditorSettings::load(&vec![low, high]),
        Err(ResolutionError::InvalidEnumValue {
            field: SettingField::SeedSearchQueryFromCursor,
            value: "sometimes".to_string(),
        })
    );
}

#[test]
fn out_of_domain_value_overridden_by_higher_layer_still_fails() {
    let mut low = doc();
    low.vertical_scroll_margin = Some(float(-4.0));
    let mut high = doc();
    high.vertical_scroll_margin = Some(float(2.0));
    assert_eq!(
        EditorSettings::load(&vec![low, high]),
        Err(ResolutionError::OutOfDomainValue {
            field: SettingField::VerticalScrollMargin,
            value: float(-4.0),
        })
    );
}

#[test]
fn lower_layer_error_reported_before_higher_layer_error() {
    let mut low = doc();
    low.double_click_in_multibuffer = Some("twice".to_string());
    let mut high = doc();
    high.current_line_highlight = Some("bogus".to_string());
    assert_eq!(
        EditorSettings::load(&vec![low, high]),
        Err(ResolutionError::InvalidEnumValue {
            field: SettingField::DoubleClickInMultibuffer,
            value: "twice".to_string(),
        })
    );
}

#[test]
fn invalid_scrollbar_show_names_nested_path() {
    let mut a = doc();
    a.scrollbar = Some(ScrollbarContent {
        show: Some("sometimes".to_string()),
        git_diff: None,
        search_results: None,
        selected_symbol: None,
        diagnostics: None,
        cursors: None,
    });
    let err = EditorSettings::load(&vec![a]).unwrap_err();
    assert_eq!(
        err,
        ResolutionError::InvalidEnumValue {
            field: SettingField::ScrollbarShow,
            value: "sometimes".to_string(),
        }
    );
    assert_eq!(SettingField::ScrollbarShow.path(), "scrollbar.show");
}

#[test]
fn first_invalid_field_in_declaration_order_is_reported() {
    let mut a = doc();
    a.double_click_in_multibuffer = Some("twice".to_string());
    a.scroll_beyond_last_line = Some("far".to_string());
    let err = EditorSettings::load(&vec![a]).unwrap_err();
    assert_eq!(
        err,
        ResolutionError::InvalidEnumValue {
            field: SettingField::ScrollBeyondLastLine,
            value: "far".to_string(),
        }
    );
}

#[test]
fn negative_scroll_margin_is_out_of_domain() {
    let mut a = doc();
    a.vertical_scroll_margin = Some(float(-1.0));
    assert_eq!(
        EditorSettings::load(&vec![a]),
        Err(ResolutionError::OutOfDomainValue {
            field: SettingField::VerticalScrollMargin,
            value: float(-1.0),
        })
    );
}

#[test]
fn negative_zero_scroll_margin_is_accepted() {
    let mut a = doc();
    a.vertical_scroll_margin = Some(float(-0.0));
    let s = EditorSettings::load(&vec![a]).unwrap();
    assert_eq!(s.vertical_scroll_margin, float(-0.0));
}

#[test]
fn non_finite_sensitivity_is_out_of_domain() {
    for v in [f32::NAN, f32::INFINITY, f32::NEG_INFINITY] {
        let mut a = doc();
        a.scroll_sensitivity = Some(float(v));
        assert_eq!(
            EditorSettings::load(&vec![a]),
            Err(ResolutionError::OutOfDomainValue {
                field: SettingField::ScrollSensitivity,
                value: float(v),
            })
        );
    }
    let mut b = doc();
    b.scroll_sensitivity = Some(float(-2.5));
    let s = EditorSettings::load(&vec![b]).unwrap();
    assert_eq!(f32::from_bits(s.scroll_sensitivity.bits), -2.5);
}

#[test]
fn jupyter_enabled_reads_installed_settings() {
    let mut store = SettingsStore::new();
    assert!(store.get().is_none());
    let mut a = doc();
    a.jupyter = Some(JupyterContent { enabled: Some(false) });
    store.reload(&vec![a]).unwrap();
    assert!(!EditorSettings::jupyter_enabled(&store));
    store.reload(&vec![]).unwrap();
    assert!(EditorSettings::jupyter_enabled(&store));
}

#[test]
fn merge_keeps_lower_group_when_higher_omits_it() {
    let mut low = doc();
    low.toolbar = Some(toolbar(Some(false), None));
    low.redact_private_values = Some(true);
    let mut high = doc();
    high.redact_private_values = Some(false);
    high.use_on_type_format = Some(false);
    let merged = merge_documents(&vec![low, high]);
    assert_eq!(merged.toolbar, Some(toolbar(Some(false), None)));
    assert_eq!(merged.redact_private_values, Some(false));
    assert_eq!(merged.use_on_type_format, Some(false));
    assert_eq!(merged.cursor_blink, None);
}

#[test]
fn merge_from_overlays_only_specified_fields() {
    let mut low = ScrollbarContent {
        show: Some("always".to_string()),
        git_diff: Some(true),
        search_results: None,
        selected_symbol: Some(false),
        diagnostics: None,
        cursors: None,
    };
    let high = ScrollbarContent {
        show: None,
        git_diff: Some(false),
        search_results: Some(true),
        selected_symbol: None,
        diagnostics: None,
        cursors: None,
    };
    low.merge_from(&high);
    assert_eq!(low.show, Some("always".to_string()));
    assert_eq!(low.git_diff, Some(false));
    assert_eq!(low.search_results, Some(true));
    assert_eq!(low.selected_symbol, Some(false));
    assert_eq!(low.diagnostics, None);
}

#[test]
fn resolve_content_defaults_absent_group() {
    let c = doc();
    let s = EditorSettings::resolve_content(&c).unwrap();
    assert_eq!(s.toolbar, EditorSettings::default().toolbar);
}

#[test]
fn accepted_spellings_by_field() {
    assert_eq!(
        SettingField::MultiCursorModifier.accepted_spellings(),
        vec!["alt", "cmd_or_ctrl", "cmd", "ctrl"]
    );
    assert_eq!(
        SettingField::ScrollbarShow.accepted_spellings(),
        vec!["auto", "system", "always", "never"]
    );
    assert!(SettingField::CursorBlink.accepted_spellings().is_empty());
    assert!(SettingField::VerticalScrollMargin.accepted_spellings().is_empty());
    assert_eq!(SettingField::ToolbarBreadcrumbs.path(), "toolbar.breadcrumbs");
    assert_eq!(SettingField::JupyterEnabled.path(), "jupyter.enabled");
}
