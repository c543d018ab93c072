//! The enumerated options, their canonical spellings and accepted legacy aliases.
use vstd::prelude::*;

verus! {

/// True when `s` spells exactly the text `lit`.
fn spelled(s: &str, lit: &str) -> (r: bool)
    ensures
        r == (s@ == lit@),
{
    let a = s.to_owned();
    let b = lit.to_owned();
    a == b
}

/// How to highlight the current line.
#[derive(Copy, Clone, Debug, PartialEq, Eq, Structural)]
pub enum CurrentLineHighlight {
    /// Don't highlight the current line.
    Off,
    /// Highlight the gutter area.
    Gutter,
    /// Highlight the editor area.
    Line,
    /// Highlight the full line.
    All,
}

impl CurrentLineHighlight {
    pub open spec fn spec_from_name(s: Seq<char>) -> Option<Self> {
        if s == "none"@ {
            Some(CurrentLineHighlight::Off)
        } else if s == "gutter"@ {
            Some(CurrentLineHighlight::Gutter)
        } else if s == "line"@ {
            Some(CurrentLineHighlight::Line)
        } else if s == "all"@ {
            Some(CurrentLineHighlight::All)
        } else {
            Option::None
        }
    }

    /// Decodes a spelling; unknown spellings are rejected.
    pub fn from_name(s: &str) -> (r: Option<Self>)
        ensures
            r == Self::spec_from_name(s@),
    {
        if spelled(s, "none") {
            Some(CurrentLineHighlight::Off)
        } else if spelled(s, "gutter") {
            Some(CurrentLineHighlight::Gutter)
        } else if spelled(s, "line") {
            Some(CurrentLineHighlight::Line)
        } else if spelled(s, "all") {
            Some(CurrentLineHighlight::All)
        } else {
            Option::None
        }
    }

    /// Every spelling that decodes, canonical names first.
    pub fn spellings() -> (r: Vec<&'static str>)
        ensures
            forall|i: int| 0 <= i < r@.len() ==> Self::spec_from_name(#[trigger] r@[i]@) is Some,
            forall|s: Seq<char>| #[trigger] Self::spec_from_name(s) is Some ==> exists|i: int|
                0 <= i < r@.len() && r@[i]@ == s,
    {
        proof {
            reveal_strlit("none");
            reveal_strlit("gutter");
            reveal_strlit("line");
            reveal_strlit("all");
            assert("none"@[0] != "line"@[0]);
        }
        let r = vec!["none", "gutter", "line", "all"];
        assert(r@[0]@ == "none"@ && r@[1]@ == "gutter"@ && r@[2]@ == "line"@ && r@[3]@ == "all"@);
        r
    }
}

/// When to populate a new search's query based on the text under the cursor.
#[derive(Copy, Clone, Debug, PartialEq, Eq, Structural)]
pub enum SeedQuerySetting {
    /// Always populate the search query with the word under the cursor.
    Always,
    /// Only populate the search query when there is text selected.
    Selection,
    /// Never populate the search query.
    Never,
}

impl SeedQuerySetting {
    /// The canonical spelling of each variant.
    pub open spec fn spec_from_name(s: Seq<char>) -> Option<Self> {
        if s == "always"@ {
            Some(SeedQuerySetting::Always)
        } else if s == "selection"@ {
            Some(SeedQuerySetting::Selection)
        } else if s == "never"@ {
            Some(SeedQuerySetting::Never)
        } else {
            None
        }
    }

    /// Decodes a spelling; unknown spellings are rejected.
    pub fn from_name(s: &str) -> (r: Option<Self>)
        ensures
            r == Self::spec_from_name(s@),
    {
        if spelled(s, "always") {
            Some(SeedQuerySetting::Always)
        } else if spelled(s, "selection") {
            Some(SeedQuerySetting::Selection)
        } else if spelled(s, "never") {
            Some(SeedQuerySetting::Never)
        } else {
            None
        }
    }

    /// Every spelling that decodes, canonical names first.
    pub fn spellings() -> (r: Vec<&'static str>)
        ensures
            forall|i: int| 0 <= i < r@.len() ==> Self::spec_from_name(#[trigger] r@[i]@) is Some,
            forall|s: Seq<char>| #[trigger] Self::spec_from_name(s) is Some ==> exists|i: int|
                0 <= i < r@.len() && r@[i]@ == s,
    {
        proof {
            reveal_strlit("always");
            reveal_strlit("selection");
            reveal_strlit("never");

        }
        let r = vec!["always", "selection", "never"];
        assert(r@[0]@ == "always"@ && r@[1]@ == "selection"@ && r@[2]@ == "never"@);
        r
    }
}

/// What to do when a multibuffer is double clicked in one of its excerpts.
#[derive(Copy, Clone, Debug, PartialEq, Eq, Structural)]
pub enum DoubleClickInMultibuffer {
    /// Behave as a regular buffer and select the whole word.
    Select,
    /// Open the clicked excerpt as a new buffer in a new tab, unless `alt` was held.
    Open,
}

impl DoubleClickInMultibuffer {
    /// The canonical spelling of each variant.
    pub open spec fn spec_from_name(s: Seq<char>) -> Option<Self> {
        if s == "select"@ {
            Some(DoubleClickInMultibuffer::Select)
        } else if s == "open"@ {
            Some(DoubleClickInMultibuffer::Open)
        } else {
            None
        }
    }

    /// Decodes a spelling; unknown spellings are rejected.
    pub fn from_name(s: &str) -> (r: Option<Self>)
        ensures
            r == Self::spec_from_name(s@),
    {
        if spelled(s, "select") {
            Some(DoubleClickInMultibuffer::Select)
        } else if spelled(s, "open") {
            Some(DoubleClickInMultibuffer::Open)
        } else {
            None
        }
    }

    /// Every spelling that decodes, canonical names first.
    pub fn spellings() -> (r: Vec<&'static str>)
        ensures
            forall|i: int| 0 <= i < r@.len() ==> Self::spec_from_name(#[trigger] r@[i]@) is Some,
            forall|s: Seq<char>| #[trigger] Self::spec_from_name(s) is Some ==> exists|i: int|
                0 <= i < r@.len() && r@[i]@ == s,
    {
        proof {
            reveal_strlit("select");
            reveal_strlit("open");

        }
        let r = vec!["select", "open"];
        assert(r@[0]@ == "select"@ && r@[1]@ == "open"@);
        r
    }
}

/// When to show the scrollbar in the editor.
#[derive(Copy, Clone, Debug, PartialEq, Eq, Structural)]
pub enum ShowScrollbar {
    /// Show the scrollbar if there is important information, or follow the system.
    Auto,
    /// Match the system's configured behavior.
    System,
    /// Always show the scrollbar.
    Always,
    /// Never show the scrollbar.
    Never,
}

impl ShowScrollbar {
    /// The canonical spelling of each variant.
    pub open spec fn spec_from_name(s: Seq<char>) -> Option<Self> {
        if s == "auto"@ {
            Some(ShowScrollbar::Auto)
        } else if s == "system"@ {
            Some(ShowScrollbar::System)
        } else if s == "always"@ {
            Some(ShowScrollbar::Always)
        } else if s == "never"@ {
            Some(ShowScrollbar::Never)
        } else {
            None
        }
    }

    /// Decodes a spelling; unknown spellings are rejected.
    pub fn from_name(s: &str) -> (r: Option<Self>)
        ensures
            r == Self::spec_from_name(s@),
    {
        if spelled(s, "auto") {
            Some(ShowScrollbar::Auto)
        } else if spelled(s, "system") {
            Some(ShowScrollbar::System)
        } else if spelled(s, "always") {
            Some(ShowScrollbar::Always)
        } else if spelled(s, "never") {
            Some(ShowScrollbar::Never)
        } else {
            None
        }
    }

    /// Every spelling that decodes, canonical names first.
    pub fn spellings() -> (r: Vec<&'static str>)
        ensures
            forall|i: int| 0 <= i < r@.len() ==> Self::spec_from_name(#[trigger] r@[i]@) is Some,
            forall|s: Seq<char>| #[trigger] Self::spec_from_name(s) is Some ==> exists|i: int|
                0 <= i < r@.len() && r@[i]@ == s,
    {
        proof {
            reveal_strlit("auto");
            reveal_strlit("system");
            reveal_strlit("always");
            reveal_strlit("never");
            assert("system"@[0] != "always"@[0]);
        }
        let r = vec!["auto", "system", "always", "never"];
        assert(r@[0]@ == "auto"@ && r@[1]@ == "system"@ && r@[2]@ == "always"@ && r@[3]@ == "never"@);
        r
    }
}

/// The key to use for adding multiple cursors.
#[derive(Copy, Clone, Debug, PartialEq, Eq, Structural)]
pub enum MultiCursorModifier {
    /// The `alt` key.
    Alt,
    /// `cmd` on macOS, `ctrl` elsewhere.
    CmdOrCtrl,
}

impl MultiCursorModifier {
    /// Canonical spellings first, then the legacy aliases that still decode.
    pub open spec fn spec_from_name(s: Seq<char>) -> Option<Self> {
        if s == "alt"@ {
            Some(MultiCursorModifier::Alt)
        } else if s == "cmd_or_ctrl"@ {
            Some(MultiCursorModifier::CmdOrCtrl)
        } else if s == "cmd"@ {
            Some(MultiCursorModifier::CmdOrCtrl)
        } else if s == "ctrl"@ {
            Some(MultiCursorModifier::CmdOrCtrl)
        } else {
            None
        }
    }

    /// Decodes a spelling; unknown spellings are rejected.
    pub fn from_name(s: &str) -> (r: Option<Self>)
        ensures
            r == Self::spec_from_name(s@),
    {
        if spelled(s, "alt") {
            Some(MultiCursorModifier::Alt)
        } else if spelled(s, "cmd_or_ctrl") {
            Some(MultiCursorModifier::CmdOrCtrl)
        } else if spelled(s, "cmd") {
            Some(MultiCursorModifier::CmdOrCtrl)
        } else if spelled(s, "ctrl") {
            Some(MultiCursorModifier::CmdOrCtrl)
        } else {
            None
        }
    }

    /// Every spelling that decodes, canonical names first.
    pub fn spellings() -> (r: Vec<&'static str>)
        ensures
            forall|i: int| 0 <= i < r@.len() ==> Self::spec_from_name(#[trigger] r@[i]@) is Some,
            forall|s: Seq<char>| #[trigger] Self::spec_from_name(s) is Some ==> exists|i: int|
                0 <= i < r@.len() && r@[i]@ == s,
    {
        proof {
            reveal_strlit("alt");
            reveal_strlit("cmd_or_ctrl");
            reveal_strlit("cmd");
            reveal_strlit("ctrl");
            assert("alt"@[0] != "cmd"@[0]);
        }
        let r = vec!["alt", "cmd_or_ctrl", "cmd", "ctrl"];
        assert(r@[0]@ == "alt"@ && r@[1]@ == "cmd_or_ctrl"@ && r@[2]@ == "cmd"@ && r@[3]@ == "ctrl"@);
        r
    }
}

/// Whether the editor will scroll beyond the last line.
#[derive(Copy, Clone, Debug, PartialEq, Eq, Structural)]
pub enum ScrollBeyondLastLine {
    /// The editor will not scroll beyond the last line.
    Off,
    /// The editor will scroll beyond the last line by one page.
    OnePage,
    /// The editor will scroll beyond the last line by `vertical_scroll_margin` lines.
    VerticalScrollMargin,
}

impl ScrollBeyondLastLine {
    /// The canonical spelling of each variant.
    pub open spec fn spec_from_name(s: Seq<char>) -> Option<Self> {
        if s == "off"@ {
            Some(ScrollBeyondLastLine::Off)
        } else if s == "one_page"@ {
            Some(ScrollBeyondLastLine::OnePage)
        } else if s == "vertical_scroll_margin"@ {
            Some(ScrollBeyondLastLine::VerticalScrollMargin)
        } else {
            None
        }
    }

    /// Decodes a spelling; unknown spellings are rejected.
    pub fn from_name(s: &str) -> (r: Option<Self>)
        ensures
            r == Self::spec_from_name(s@),
    {
        if spelled(s, "off") {
            Some(ScrollBeyondLastLine::Off)
        } else if spelled(s, "one_page") {
            Some(ScrollBeyondLastLine::OnePage)
        } else if spelled(s, "vertical_scroll_margin") {
            Some(ScrollBeyondLastLine::VerticalScrollMargin)
        } else {
            None
        }
    }

    /// Every spelling that decodes, canonical names first.
    pub fn spellings() -> (r: Vec<&'static str>)
        ensures
            forall|i: int| 0 <= i < r@.len() ==> Self::spec_from_name(#[trigger] r@[i]@) is Some,
            forall|s: Seq<char>| #[trigger] Self::spec_from_name(s) is Some ==> exists|i: int|
                0 <= i < r@.len() && r@[i]@ == s,
    {
        proof {
            reveal_strlit("off");
            reveal_strlit("one_page");
            reveal_strlit("vertical_scroll_margin");

        }
        let r = vec!["off", "one_page", "vertical_scroll_margin"];
        assert(r@[0]@ == "off"@ && r@[1]@ == "one_page"@ && r@[2]@ == "vertical_scroll_margin"@);
        r
    }
}

} // verus!
