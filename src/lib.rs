//! Layered editor settings: partial documents, their merge, and resolution
//! into one fully populated, validated configuration.
pub mod choices;
pub mod content;
pub mod settings;
pub mod store;
pub mod laws;

pub use choices::{
    CurrentLineHighlight, DoubleClickInMultibuffer, MultiCursorModifier, ScrollBeyondLastLine,
    SeedQuerySetting, ShowScrollbar,
};
pub use content::{
    merge_documents, EditorSettingsContent, FloatBits, GutterContent, JupyterContent,
    ScrollbarContent, ToolbarContent,
};
pub use settings::{
    EditorSettings, Gutter, Jupyter, ResolutionError, Scrollbar, SettingField, Toolbar,
};
pub use store::SettingsStore;
