//! The two settings that startup reads, and what each one yields.

use crate::error::{StartupError, StartupErrorView};
use vstd::prelude::*;

verus! {

/// The settings that startup reads.
#[derive(Debug, Clone, Copy, PartialEq, Eq, Structural)]
pub enum SettingKey {
    /// The path of the style sheet's source, relative to the base directory.
    SheetPath,
    /// The cache lifetime of the served sheet: a number of seconds, not
    /// below zero.
    MaxAge,
}

/// The name under which the configuration holds the setting `key`.
pub open spec fn key_name(key: SettingKey) -> Seq<char> {
    match key {
        SettingKey::SheetPath => "sheet_path"@,
        SettingKey::MaxAge => "assets_max_age"@,
    }
}

impl SettingKey {
    /// The name under which the configuration holds this setting.
    pub fn name(&self) -> (name: &'static str)
        ensures
            name@ == key_name(*self),
    {
        match self {
            SettingKey::SheetPath => "sheet_path",
            SettingKey::MaxAge => "assets_max_age",
        }
    }
}

/// What a configuration holds for one setting. A missing value and a value of
/// the wrong shape are kept apart: the first calls for the default, the second
/// is an error.
#[derive(Debug, PartialEq, Eq)]
pub enum Setting<T> {
    /// The configuration has no value for the setting.
    Missing,
    /// The configuration has a value, but not of the setting's shape. The text
    /// says what was found.
    Malformed(String),
    /// The configuration has this value.
    Present(T),
}

/// A `Setting` as plain values.
pub enum SettingView<V> {
    Missing,
    Malformed(Seq<char>),
    Present(V),
}

impl<T: View> View for Setting<T> {
    type V = SettingView<T::V>;

    open spec fn view(&self) -> SettingView<T::V> {
        match *self {
            Setting::Missing => SettingView::Missing,
            Setting::Malformed(detail) => SettingView::Malformed(detail@),
            Setting::Present(value) => SettingView::Present(value@),
        }
    }
}

/// The cache lifetime, in seconds, of a configuration that names none.
pub const DEFAULT_MAX_AGE: u32 = 86400;

/// The sheet's path of a configuration that names none.
pub open spec fn default_sheet_path() -> Seq<char> {
    "assets/style.scss"@
}

/// The relative path that a configuration yields: the one it holds, the
/// default where it holds none, an error where what it holds is no path.
pub open spec fn chosen_sheet_path(setting: SettingView<Seq<char>>) -> Result<
    Seq<char>,
    StartupErrorView,
> {
    match setting {
        SettingView::Missing => Ok(default_sheet_path()),
        SettingView::Present(path) => Ok(path),
        SettingView::Malformed(detail) => Err(
            StartupErrorView::ConfigShape { key: SettingKey::SheetPath, detail },
        ),
    }
}

/// The cache lifetime that a configuration yields: the one it holds, the
/// default where it holds none, an error where what it holds is no number of
/// seconds.
pub open spec fn chosen_max_age(setting: SettingView<u32>) -> Result<nat, StartupErrorView> {
    match setting {
        SettingView::Missing => Ok(DEFAULT_MAX_AGE as nat),
        SettingView::Present(seconds) => Ok(seconds as nat),
        SettingView::Malformed(detail) => Err(
            StartupErrorView::ConfigShape { key: SettingKey::MaxAge, detail },
        ),
    }
}

/// Chooses the sheet's relative path from what the configuration holds.
pub fn resolve_sheet_path(setting: Setting<String>) -> (chosen: Result<String, StartupError>)
    ensures
        match chosen {
            Ok(path) => chosen_sheet_path(setting@) == Ok::<Seq<char>, StartupErrorView>(path@),
            Err(error) => chosen_sheet_path(setting@) == Err::<Seq<char>, StartupErrorView>(
                error@,
            ),
        },
{
    match setting {
        Setting::Missing => Ok(String::from_str("assets/style.scss")),
        Setting::Present(path) => Ok(path),
        Setting::Malformed(detail) => Err(
            StartupError::ConfigShape { key: SettingKey::SheetPath, detail },
        ),
    }
}

/// Chooses the cache lifetime from what the configuration holds.
pub fn resolve_max_age(setting: Setting<u32>) -> (chosen: Result<u32, StartupError>)
    ensures
        match chosen {
            Ok(seconds) => chosen_max_age(setting@) == Ok::<nat, StartupErrorView>(
                seconds as nat,
            ),
            Err(error) => chosen_max_age(setting@) == Err::<nat, StartupErrorView>(error@),
        },
{
    match setting {
        Setting::Missing => Ok(DEFAULT_MAX_AGE),
        Setting::Present(seconds) => Ok(seconds),
        Setting::Malformed(detail) => Err(
            StartupError::ConfigShape { key: SettingKey::MaxAge, detail },
        ),
    }
}

} // verus!
