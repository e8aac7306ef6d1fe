//! The persisted settings that the library manages, and the values they hold.

use vstd::prelude::*;

verus! {

/// Subkey that holds the file manager's advanced settings.
pub const WINDOWS_EXPLORER_REGKEY_SUBPATH: &'static str =
    "Software\\Microsoft\\Windows\\CurrentVersion\\Explorer\\Advanced";

/// Value under [`WINDOWS_EXPLORER_REGKEY_SUBPATH`] that decides whether file
/// extensions are hidden.
pub const HIDE_FILE_EXT_VALUE_NAME: &'static str = "HideFileExt";

/// Subkey that lists the programs started at login.
pub const WINDOWS_STARTUP_REGKEY_SUBPATH: &'static str =
    "Software\\Microsoft\\Windows\\CurrentVersion\\Run";

/// Name under which this program is listed in [`WINDOWS_STARTUP_REGKEY_SUBPATH`].
/// It is fixed, so that at most one copy of the program is ever registered.
pub const WINDOWS_STARTUP_VALUE_NAME: &'static str = "NoHiddenExtensions";

/// The root under which a setting is stored.
#[derive(Clone, Copy, Debug, PartialEq, Eq, Structural)]
pub enum RootScope {
    CurrentUser,
}

/// One of the two persisted locations that the library reads and writes.
#[derive(Clone, Copy, Debug, PartialEq, Eq, Structural)]
pub enum ConfigKey {
    /// Whether the file manager hides file extensions: a 32-bit flag.
    HideFileExt,
    /// The program started at login: the absolute path of its executable.
    RunAtStartup,
}

impl ConfigKey {
    /// Whether `value` has the type that this setting is stored with: a flag
    /// for [`ConfigKey::HideFileExt`], a path for [`ConfigKey::RunAtStartup`].
    pub open spec fn holds(self, value: ConfigValueView) -> bool {
        match self {
            ConfigKey::HideFileExt => value is Flag,
            ConfigKey::RunAtStartup => value is Path,
        }
    }

    /// Whether `value` has the type that this setting is stored with.
    pub fn admits(&self, value: &ConfigValue) -> (fits: bool)
        ensures
            fits == self.holds(value@),
    {
        match (self, value) {
            (ConfigKey::HideFileExt, ConfigValue::Flag(_)) => true,
            (ConfigKey::RunAtStartup, ConfigValue::Path(_)) => true,
            _ => false,
        }
    }

    pub open spec fn spec_subkey_path(self) -> Seq<char> {
        match self {
            ConfigKey::HideFileExt => WINDOWS_EXPLORER_REGKEY_SUBPATH@,
            ConfigKey::RunAtStartup => WINDOWS_STARTUP_REGKEY_SUBPATH@,
        }
    }

    pub open spec fn spec_value_name(self) -> Seq<char> {
        match self {
            ConfigKey::HideFileExt => HIDE_FILE_EXT_VALUE_NAME@,
            ConfigKey::RunAtStartup => WINDOWS_STARTUP_VALUE_NAME@,
        }
    }

    /// The root scope of the setting: both live under the current user.
    pub fn root(&self) -> (root: RootScope)
        ensures
            root == RootScope::CurrentUser,
    {
        RootScope::CurrentUser
    }

    /// The path of the subkey that holds the setting.
    pub fn subkey_path(&self) -> (path: &'static str)
        ensures
            path@ == self.spec_subkey_path(),
    {
        match self {
            ConfigKey::HideFileExt => WINDOWS_EXPLORER_REGKEY_SUBPATH,
            ConfigKey::RunAtStartup => WINDOWS_STARTUP_REGKEY_SUBPATH,
        }
    }

    /// The name of the value that holds the setting.
    pub fn value_name(&self) -> (name: &'static str)
        ensures
            name@ == self.spec_value_name(),
    {
        match self {
            ConfigKey::HideFileExt => HIDE_FILE_EXT_VALUE_NAME,
            ConfigKey::RunAtStartup => WINDOWS_STARTUP_VALUE_NAME,
        }
    }
}

/// A value stored under a [`ConfigKey`].
#[derive(Debug, PartialEq, Eq)]
pub enum ConfigValue {
    /// A boolean kept as an integer: zero is false, anything else true.
    Flag(u32),
    /// A filesystem path.
    Path(String),
}

/// What a [`ConfigValue`] holds, as a mathematical value.
pub enum ConfigValueView {
    Flag(u32),
    Path(Seq<char>),
}

impl View for ConfigValue {
    type V = ConfigValueView;

    open spec fn view(&self) -> ConfigValueView {
        match self {
            ConfigValue::Flag(flag) => ConfigValueView::Flag(*flag),
            ConfigValue::Path(path) => ConfigValueView::Path(path@),
        }
    }
}

impl ConfigValue {
    /// Whether two values are equal. A write of a value equal to the one
    /// stored changes nothing and is skipped.
    pub fn same_as(&self, other: &ConfigValue) -> (same: bool)
        ensures
            same == (self@ == other@),
    {
        match (self, other) {
            (ConfigValue::Flag(a), ConfigValue::Flag(b)) => *a == *b,
            (ConfigValue::Path(a), ConfigValue::Path(b)) => *a == *b,
            _ => false,
        }
    }

}

impl Clone for ConfigValue {
    fn clone(&self) -> (copy: ConfigValue)
        ensures
            copy@ == self@,
    {
        match self {
            ConfigValue::Flag(flag) => ConfigValue::Flag(*flag),
            ConfigValue::Path(path) => ConfigValue::Path(path.clone()),
        }
    }
}


} // verus!
