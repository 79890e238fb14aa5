//! The persisted settings record: extension preference, storage location,
//! modal-editing toggle, splash toggle, spellcheck toggle, and the version
//! last seen by the splash screen.

use vstd::prelude::*;
use vstd::string::StringExecFns;

verus! {

/// The settings the application runs under. Loaded once at startup and
/// persisted on every toggle.
pub struct Settings {
    pub default_extension: String,
    pub storage_path: String,
    pub vim_mode: bool,
    pub show_splash_screen: bool,
    pub spellcheck_enabled: bool,
    pub last_seen_version: String,
}

/// Model of a settings record, strings as character sequences.
pub struct SettingsView {
    pub default_extension: Seq<char>,
    pub storage_path: Seq<char>,
    pub vim_mode: bool,
    pub show_splash_screen: bool,
    pub spellcheck_enabled: bool,
    pub last_seen_version: Seq<char>,
}

impl View for Settings {
    type V = SettingsView;

    open spec fn view(&self) -> SettingsView {
        SettingsView {
            default_extension: self.default_extension@,
            storage_path: self.storage_path@,
            vim_mode: self.vim_mode,
            show_splash_screen: self.show_splash_screen,
            spellcheck_enabled: self.spellcheck_enabled,
            last_seen_version: self.last_seen_version@,
        }
    }
}

impl DeepView for Settings {
    type V = SettingsView;

    open spec fn deep_view(&self) -> SettingsView {
        self.view()
    }
}

/// The model of the default settings: plain-text extension, a local
/// fallback storage directory (the caller replaces it with the user's
/// document directory where one is known), modal editing off, splash and
/// spellcheck on, and no version seen yet.
pub open spec fn spec_default_settings() -> SettingsView {
    SettingsView {
        default_extension: "txt"@,
        storage_path: "WriteApp"@,
        vim_mode: false,
        show_splash_screen: true,
        spellcheck_enabled: true,
        last_seen_version: Seq::empty(),
    }
}

impl Default for Settings {
    /// The default settings record; see `spec_default_settings`.
    fn default() -> (r: Settings)
        ensures
            r@ == spec_default_settings(),
    {
        let r = Settings {
            default_extension: String::from_str("txt"),
            storage_path: String::from_str("WriteApp"),
            vim_mode: false,
            show_splash_screen: true,
            spellcheck_enabled: true,
            last_seen_version: String::new(),
        };
        proof {
            assert(r@.last_seen_version =~= Seq::<char>::empty());
        }
        r
    }
}

impl Settings {
    /// A copy of the record, equal field by field.
    pub fn snapshot(&self) -> (r: Settings)
        ensures
            r@ == self@,
    {
        Settings {
            default_extension: self.default_extension.clone(),
            storage_path: self.storage_path.clone(),
            vim_mode: self.vim_mode,
            show_splash_screen: self.show_splash_screen,
            spellcheck_enabled: self.spellcheck_enabled,
            last_seen_version: self.last_seen_version.clone(),
        }
    }
}

} // verus!
