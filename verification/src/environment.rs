//! The records of the loaded files and the environment that holds them.

use vstd::prelude::*;

use crate::failure::{Failure, FailureView};
use crate::path::{file_name, final_component};
use crate::pattern::{
    is_glob_pattern, is_resolution, literal_paths, literal_resolution, resolve,
    resolve_entry_as_glob, resolve_file_path_patterns,
};
use crate::population::{Population, PopulationView};
use crate::read::{read_text, ReadOutcome, ReadOutcomeView};
use crate::settings::EnvironmentPopulateSettings;
use crate::text::{trim, trimmed};

verus! {

/// One loaded input file.
#[derive(Debug, PartialEq, Eq)]
pub struct File {
    /// The final component of the path: the file's name, without a directory.
    pub name: String,
    /// The path that the file was loaded from, as it was resolved.
    pub path: String,
    /// The text of the file, trimmed where the settings ask for it.
    pub contents: String,
}

/// A [`File`] as a mathematical value.
pub struct FileView {
    pub name: Seq<char>,
    pub path: Seq<char>,
    pub contents: Seq<char>,
}

impl View for File {
    type V = FileView;

    open spec fn view(&self) -> FileView {
        FileView { name: self.name@, path: self.path@, contents: self.contents@ }
    }
}

/// The loaded files, in the order in which their paths were resolved. The
/// same path may occur more than once.
#[derive(Debug, PartialEq, Eq)]
pub struct Environment {
    pub files: Vec<File>,
}

impl View for Environment {
    type V = Seq<FileView>;

    open spec fn view(&self) -> Seq<FileView> {
        self.files@.map_values(|file: File| file@)
    }
}

/// The text that a file's record holds, given the text that was read.
pub open spec fn normalized(text: Seq<char>, settings: EnvironmentPopulateSettings) -> Seq<char> {
    if settings.trim_contents {
        trimmed(text)
    } else {
        text
    }
}

/// The record of the file at `path`, given the final component of the path
/// and what reading the file gave.
///
/// A path without a final component names no file, whatever the read gave.
/// Otherwise the record comes with the text, and there is none where the read
/// failed or the bytes are not UTF-8.
pub open spec fn loaded_file(
    path: Seq<char>,
    name: Option<Seq<char>>,
    read: ReadOutcomeView,
    settings: EnvironmentPopulateSettings,
) -> Result<FileView, FailureView> {
    match name {
        None => Err(FailureView::InvalidPath { path }),
        Some(name) => match read_text(path, read) {
            Err(failure) => Err(failure),
            Ok(text) => Ok(FileView { name, path, contents: normalized(text, settings) }),
        },
    }
}

impl File {
    /// The record of the file at `path`, given its name, if the path has
    /// one, and what reading the file gave.
    pub fn from_parts(
        path: &str,
        name: Option<String>,
        read: ReadOutcome,
        settings: EnvironmentPopulateSettings,
    ) -> (result: Result<File, Failure>)
        ensures
            match loaded_file(
                path@,
                match name {
                    Some(name) => Some(name@),
                    None => None,
                },
                read@,
                settings,
            ) {
                Ok(file) => result matches Ok(loaded) && loaded@ == file,
                Err(failure) => result matches Err(f) && f@ == failure,
            },
    {
        match name {
            None => Err(Failure::InvalidPath { path: path.to_owned() }),
            Some(name) => match read.into_text(path) {
                Err(failure) => Err(failure),
                Ok(text) => {
                    let contents = if settings.trim_contents {
                        trim(text.as_str()).to_owned()
                    } else {
                        text
                    };
                    Ok(File { name, path: path.to_owned(), contents })
                },
            },
        }
    }

    /// The record of the file at `file_path`, given what reading the file
    /// gave. The file is named by the final component of its path.
    pub fn from_file(
        file_path: &str,
        read: ReadOutcome,
        settings: EnvironmentPopulateSettings,
    ) -> (result: Result<File, Failure>)
        ensures
            match loaded_file(file_path@, final_component(file_path@), read@, settings) {
                Ok(file) => result matches Ok(loaded) && loaded@ == file,
                Err(failure) => result matches Err(f) && f@ == failure,
            },
    {
        File::from_parts(file_path, file_name(file_path), read, settings)
    }
}

/// The paths that a population was started over, or the failure in its place,
/// as a mathematical value.
pub open spec fn started_paths(result: Result<Population, Failure>) -> Result<
    Seq<Seq<char>>,
    FailureView,
> {
    match result {
        Ok(population) => Ok(population@.paths),
        Err(failure) => Err(failure@),
    }
}

/// Whether `result` is a population with nothing loaded yet, under the given
/// settings, where it is one at all.
pub open spec fn is_fresh(
    result: Result<Population, Failure>,
    settings: EnvironmentPopulateSettings,
) -> bool {
    result matches Ok(population) ==> {
        &&& population@ == PopulationView::start(population@.paths, settings)
        &&& population@.well_formed()
    }
}

impl Environment {
    /// Starts an environment from input strings: literal paths where the
    /// settings switch patterns off, paths and glob patterns where they do
    /// not.
    ///
    /// The result holds the resolved paths and no file yet: the caller reads
    /// each path it names and hands back what the read gave.
    pub fn populate_from(input: &[String], settings: EnvironmentPopulateSettings) -> (result:
        Result<Population, Failure>)
        ensures
            is_fresh(result, settings),
            !settings.allow_globs ==> started_paths(result) == literal_resolution(
                input.deep_view(),
            ),
            settings.allow_globs ==> is_resolution(input.deep_view(), started_paths(result)),
    {
        match resolve(input, settings) {
            Ok(paths) => Ok(Population::new(paths, settings)),
            Err(failure) => Err(failure),
        }
    }

    /// Starts an environment from strings of which each is a glob pattern or
    /// a literal path: a pattern stands for its matches, any other string for
    /// itself.
    pub fn populate_from_dynamic(
        patterns: &[String],
        settings: EnvironmentPopulateSettings,
    ) -> (result: Result<Population, Failure>)
        ensures
            is_fresh(result, settings),
            is_resolution(patterns.deep_view(), started_paths(result)),
    {
        match resolve_file_path_patterns(patterns) {
            Ok(paths) => Ok(Population::new(paths, settings)),
            Err(failure) => Err(failure),
        }
    }

    /// Starts an environment from literal paths. Nothing is looked up: a
    /// path that leads nowhere fails when it is read.
    pub fn populate_from_files(files: &[String], settings: EnvironmentPopulateSettings) -> (result:
        Result<Population, Failure>)
        ensures
            is_fresh(result, settings),
            started_paths(result) == literal_resolution(files.deep_view()),
    {
        Ok(Population::new(literal_paths(files), settings))
    }

    /// Starts an environment from the matches of one glob pattern. A string
    /// that is no pattern is a failure here, and so is a walk that fails.
    pub fn populate_from_glob(glob_pattern: &str, settings: EnvironmentPopulateSettings) -> (result:
        Result<Population, Failure>)
        ensures
            is_fresh(result, settings),
            !is_glob_pattern(glob_pattern@) ==> (result matches Err(failure) && failure@ == (
                FailureView::InvalidPattern { pattern: glob_pattern@ })),
            is_glob_pattern(glob_pattern@) ==> (result matches Err(failure) ==> failure@ is Pattern),
    {
        match resolve_entry_as_glob(glob_pattern).into_matches(glob_pattern) {
            Ok(paths) => Ok(Population::new(paths, settings)),
            Err(failure) => Err(failure),
        }
    }
}

} // verus!
