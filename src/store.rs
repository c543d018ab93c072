//! The installed configuration: replaced wholesale on each successful reload,
//! kept as it was when a reload fails.
use vstd::prelude::*;
use crate::content::EditorSettingsContent;
use crate::settings::{layered_resolution, EditorSettings, ResolutionError};

verus! {

/// Holds at most one resolved configuration and hands out copies of it.
pub struct SettingsStore {
    current: Option<EditorSettings>,
}

impl SettingsStore {
    /// The configuration currently installed, if any.
    pub closed spec fn installed(&self) -> Option<EditorSettings> {
        self.current
    }

    /// A store with nothing installed yet.
    pub fn new() -> (r: Self)
        ensures
            r.installed() is None,
    {
        SettingsStore { current: None }
    }

    /// Resolves `sources` and installs the result; on failure the previous
    /// configuration stays installed and the error is returned.
    pub fn reload(
        &mut self,
        sources: &Vec<EditorSettingsContent>,
    ) -> (r: Result<(), ResolutionError>)
        ensures
            match layered_resolution(sources@) {
                Ok(s) => r is Ok && final(self).installed() == Some(s),
                Err(e) => r == Err::<(), ResolutionError>(e) && final(self).installed() == old(
                    self,
                ).installed(),
            },
    {
        match EditorSettings::load(sources) {
            Ok(s) => {
                self.current = Some(s);
                Ok(())
            },
            Err(e) => Err(e),
        }
    }

    /// A copy of the installed configuration.
    pub fn get(&self) -> (r: Option<EditorSettings>)
        ensures
            r == self.installed(),
    {
        self.current
    }
}

impl EditorSettings {
    /// Whether the Jupyter feature is enabled in the installed configuration.
    pub fn jupyter_enabled(store: &SettingsStore) -> (r: bool)
        requires
            store.installed() is Some,
        ensures
            r == store.installed()->Some_0.jupyter.enabled,
    {
        match store.get() {
            Some(s) => s.jupyter.enabled,
            None => false,
        }
    }
}

} // verus!
