use editor_settings::{
    CurrentLineHighlight, DoubleClickInMultibuffer, MultiCursorModifier, ScrollBeyondLastLine,
    SeedQuerySetting, ShowScrollbar,
};

#[test]
fn highlight_spellings() {
    assert_eq!(CurrentLineHighlight::from_name("none"), Some(CurrentLineHighlight::Off));
    assert_eq!(CurrentLineHighlight::from_name("gutter"), Some(CurrentLineHighlight::Gutter));
    assert_eq!(CurrentLineHighlight::from_name("line"), Some(CurrentLineHighlight::Line));
    assert_eq!(CurrentLineHighlight::from_name("all"), Some(CurrentLineHighlight::All));
    assert_eq!(CurrentLineHighlight::from_name("All"), None);
    assert_eq!(CurrentLineHighlight::from_name(""), None);
}

#[test]
fn modifier_spellings_and_aliases() {
    assert_eq!(MultiCursorModifier::from_name("alt"), Some(MultiCursorModifier::Alt));
    assert_eq!(MultiCursorModifier::from_name("cmd_or_ctrl"), Some(MultiCursorModifier::CmdOrCtrl));
    assert_eq!(MultiCursorModifier::from_name("cmd"), Some(MultiCursorModifier::CmdOrCtrl));
    assert_eq!(MultiCursorModifier::from_name("ctrl"), Some(MultiCursorModifier::CmdOrCtrl));
    assert_eq!(MultiCursorModifier::from_name("shift"), None);
}

#[test]
fn other_choice_spellings() {
    assert_eq!(ShowScrollbar::from_name("system"), Some(ShowScrollbar::System));
    assert_eq!(ShowScrollbar::from_name("never"), Some(ShowScrollbar::Never));
    assert_eq!(ShowScrollbar::from_name("hidden"), None);
    assert_eq!(SeedQuerySetting::from_name("never"), Some(SeedQuerySetting::Never));
    assert_eq!(DoubleClickInMultibuffer::from_name("open"), Some(DoubleClickInMultibuffer::Open));
    assert_eq!(DoubleClickInMultibuffer::from_name("select"), Some(DoubleClickInMultibuffer::Select));
    assert_eq!(
        ScrollBeyondLastLine::from_name("vertical_scroll_margin"),
        Some(ScrollBeyondLastLine::VerticalScrollMargin)
    );
    assert_eq!(ScrollBeyondLastLine::from_name("off"), Some(ScrollBeyondLastLine::Off));
    assert_eq!(ScrollBeyondLastLine::from_name("one-page"), None);
}

#[test]
fn spellings_list_canonical_names_and_aliases() {
    assert_eq!(CurrentLineHighlight::spellings(), vec!["none", "gutter", "line", "all"]);
    assert_eq!(MultiCursorModifier::spellings(), vec!["alt", "cmd_or_ctrl", "cmd", "ctrl"]);
    assert_eq!(ShowScrollbar::spellings(), vec!["auto", "system", "always", "never"]);
    assert_eq!(SeedQuerySetting::spellings(), vec!["always", "selection", "never"]);
    assert_eq!(DoubleClickInMultibuffer::spellings(), vec!["select", "open"]);
    assert_eq!(
        ScrollBeyondLastLine::spellings(),
        vec!["off", "one_page", "vertical_scroll_margin"]
    );
}
