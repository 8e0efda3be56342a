//! The settings of a population.

use vstd::prelude::*;

verus! {

/// How inputs are resolved and how file contents are normalised.
///
/// A value is never changed in place: each setter takes the settings by value
/// and gives back the updated copy.
#[derive(Debug, Clone, Copy, PartialEq, Eq, Structural)]
pub struct EnvironmentPopulateSettings {
    /// When false, every input string is a literal path and nothing is expanded.
    pub allow_globs: bool,
    /// When true, leading and trailing whitespace is stripped from each file's text.
    pub trim_contents: bool,
}

impl EnvironmentPopulateSettings {
    /// The settings with `trim_contents` replaced.
    pub fn set_trim_contents(self, trim_contents: bool) -> (updated: Self)
        ensures
            updated.trim_contents == trim_contents,
            updated.allow_globs == self.allow_globs,
    {
        EnvironmentPopulateSettings { allow_globs: self.allow_globs, trim_contents }
    }

    /// The settings with `allow_globs` replaced.
    pub fn set_allow_globs(self, allow_globs: bool) -> (updated: Self)
        ensures
            updated.allow_globs == allow_globs,
            updated.trim_contents == self.trim_contents,
    {
        EnvironmentPopulateSettings { allow_globs, trim_contents: self.trim_contents }
    }
}

impl Default for EnvironmentPopulateSettings {
    /// Patterns are expanded and contents are trimmed unless asked otherwise.
    fn default() -> (settings: Self)
        ensures
            settings.allow_globs,
            settings.trim_contents,
    {
        EnvironmentPopulateSettings { allow_globs: true, trim_contents: true }
    }
}

} // verus!
