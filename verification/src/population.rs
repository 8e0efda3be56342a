//! Loading the files of an environment, one read at a time.
//!
//! The library reads no file. A [`Population`] holds the paths to load and
//! the files loaded so far; it names the next path to read, and takes what
//! the read gave. The caller does the reading:
//!
//! ```text
//! while let Some(path) = population.next_path() {
//!     let read = /* read the bytes at `path` */;
//!     population = population.accept(read)?;
//! }
//! let environment = population.finish();
//! ```

use vstd::prelude::*;

use crate::environment::{loaded_file, Environment, File, FileView};
use crate::failure::{Failure, FailureView};
use crate::path::final_component;
use crate::read::{ReadOutcome, ReadOutcomeView};
use crate::settings::EnvironmentPopulateSettings;

verus! {

/// A [`Population`] as a mathematical value: the settings, the paths to
/// load, and the records of the files loaded so far.
pub struct PopulationView {
    pub settings: EnvironmentPopulateSettings,
    pub paths: Seq<Seq<char>>,
    pub files: Seq<FileView>,
}

impl PopulationView {
    /// The population over `paths` before anything is loaded.
    pub open spec fn start(
        paths: Seq<Seq<char>>,
        settings: EnvironmentPopulateSettings,
    ) -> PopulationView {
        PopulationView { settings, paths, files: Seq::empty() }
    }

    /// The files loaded so far are those of the first paths, one for one and
    /// in order, each under its path and named by that path's final component.
    pub open spec fn well_formed(self) -> bool {
        &&& self.files.len() <= self.paths.len()
        &&& forall|i: int|
            0 <= i < self.files.len() ==> {
                &&& (#[trigger] self.files[i]).path == self.paths[i]
                &&& final_component(self.paths[i]) == Some(self.files[i].name)
            }
    }

    /// Every path has its file.
    pub open spec fn is_complete(self) -> bool {
        self.files.len() >= self.paths.len()
    }

    /// The path to read next: the first one that has no file yet.
    pub open spec fn next_path(self) -> Option<Seq<char>> {
        if self.files.len() < self.paths.len() {
            Some(self.paths[self.files.len() as int])
        } else {
            None
        }
    }

    /// The population after it is handed what reading its next path gave:
    /// one file more, or the failure that ends the loading. A population that
    /// is complete stays as it is.
    pub open spec fn accept(self, read: ReadOutcomeView) -> Result<PopulationView, FailureView> {
        match self.next_path() {
            None => Ok(self),
            Some(path) => match loaded_file(path, final_component(path), read, self.settings) {
                Ok(file) => Ok(PopulationView { files: self.files.push(file), ..self }),
                Err(failure) => Err(failure),
            },
        }
    }

    /// The record of the file at the path with the given index, given what
    /// reading it gave.
    pub open spec fn loaded(self, index: int, read: ReadOutcomeView) -> Result<
        FileView,
        FailureView,
    > {
        loaded_file(self.paths[index], final_component(self.paths[index]), read, self.settings)
    }

    /// The population after it is handed the reads one after the other, or
    /// the first failure on the way.
    pub open spec fn run(self, reads: Seq<ReadOutcomeView>) -> Result<PopulationView, FailureView>
        decreases reads.len(),
    {
        if reads.len() == 0 {
            Ok(self)
        } else {
            match self.accept(reads.first()) {
                Ok(next) => next.run(reads.drop_first()),
                Err(failure) => Err(failure),
            }
        }
    }
}

/// An environment in the making: the paths to load, in order, and the files
/// loaded so far.
///
/// Loading is all or nothing. The first read that fails, in the order of the
/// paths, ends it: [`Population::accept`] then gives the failure and nothing
/// else, and the files loaded before are gone with the population. An
/// [`Environment`] comes out only when every path has its file.
#[derive(Debug)]
pub struct Population {
    settings: EnvironmentPopulateSettings,
    paths: Vec<String>,
    files: Vec<File>,
}

impl View for Population {
    type V = PopulationView;

    closed spec fn view(&self) -> PopulationView {
        PopulationView {
            settings: self.settings,
            paths: self.paths.deep_view(),
            files: self.files@.map_values(|file: File| file@),
        }
    }
}

impl Population {
    /// Every population is well formed.
    #[verifier::type_invariant]
    spec fn holds_together(self) -> bool {
        self@.well_formed()
    }

    /// The population over `paths`, with nothing loaded yet.
    pub fn new(paths: Vec<String>, settings: EnvironmentPopulateSettings) -> (population: Self)
        ensures
            population@ == PopulationView::start(paths.deep_view(), settings),
            population@.well_formed(),
    {
        let population = Population { settings, paths, files: Vec::new() };
        assert(population@.files =~= Seq::empty());
        population
    }

    /// The settings that the files are loaded under.
    pub fn settings(&self) -> (settings: EnvironmentPopulateSettings)
        ensures
            settings == self@.settings,
    {
        self.settings
    }

    /// Whether every path has its file.
    pub fn is_complete(&self) -> (complete: bool)
        ensures
            complete == self@.is_complete(),
    {
        self.files.len() >= self.paths.len()
    }

    /// The path whose bytes are to be read next, or nothing once every path
    /// has its file.
    pub fn next_path(&self) -> (path: Option<&str>)
        ensures
            match self@.next_path() {
                Some(next) => path matches Some(found) && found@ == next,
                None => path is None,
            },
    {
        if self.files.len() < self.paths.len() {
            Some(self.paths[self.files.len()].as_str())
        } else {
            None
        }
    }

    /// Takes what reading the next path gave.
    ///
    /// On success the population holds one file more. On failure there is
    /// the failure and nothing else: the population is used up, and with it
    /// every file loaded before.
    pub fn accept(self, read: ReadOutcome) -> (result: Result<Population, Failure>)
        ensures
            match self@.accept(read@) {
                Ok(next) => result matches Ok(population) && population@ == next
                    && population@.well_formed(),
                Err(failure) => result matches Err(f) && f@ == failure,
            },
    {
        proof {
            use_type_invariant(&self);
        }
        if self.files.len() < self.paths.len() {
            let ghost before = self@;
            let Population { settings, paths, mut files } = self;
            match File::from_file(paths[files.len()].as_str(), read, settings) {
                Ok(file) => {
                    let ghost added = file@;
                    files.push(file);
                    proof {
                        let loaded = files@.map_values(|file: File| file@);
                        assert(loaded =~= before.files.push(added));
                        assert(before.paths == paths.deep_view());
                        assert forall|i: int| 0 <= i < loaded.len() implies {
                            &&& (#[trigger] loaded[i]).path == before.paths[i]
                            &&& final_component(before.paths[i]) == Some(loaded[i].name)
                        } by {
                            if i < before.files.len() {
                                assert(loaded[i] == before.files[i]);
                            }
                        }
                    }
                    Ok(Population { settings, paths, files })
                },
                Err(failure) => Err(failure),
            }
        } else {
            Ok(self)
        }
    }

    /// The environment of the loaded files, once every path has its file;
    /// nothing before that.
    pub fn finish(self) -> (environment: Option<Environment>)
        ensures
            self@.is_complete() ==> (environment matches Some(built) && built@ == self@.files),
            !self@.is_complete() ==> environment is None,
    {
        if self.files.len() >= self.paths.len() {
            Some(Environment { files: self.files })
        } else {
            None
        }
    }
}

/// A run goes through the paths in order and stops at the first file that
/// fails to load. Where `count` reads load their files, the run of those
/// reads holds one file for each of them, in the order of the paths, loaded
/// from the read at the same place.
pub proof fn lemma_run_loads(population: PopulationView, reads: Seq<ReadOutcomeView>)
    requires
        population.files.len() + reads.len() <= population.paths.len(),
        forall|j: int|
            0 <= j < reads.len() ==> (#[trigger] population.loaded(
                population.files.len() + j,
                reads[j],
            )) is Ok,
    ensures
        population.run(reads) matches Ok(after) && {
            &&& after.settings == population.settings
            &&& after.paths == population.paths
            &&& after.files.len() == population.files.len() + reads.len()
            &&& after.files.take(population.files.len() as int) == population.files
            &&& forall|j: int|
                0 <= j < reads.len() ==> population.loaded(population.files.len() + j, reads[j])
                    == Ok::<FileView, FailureView>(#[trigger] after.files[population.files.len() + j])
        },
    decreases reads.len(),
{
    let done = population.files.len() as int;
    if reads.len() == 0 {
        assert(population.files.take(done) =~= population.files);
    } else {
        assert(population.loaded(done + 0, reads[0]) is Ok);
        let next = population.accept(reads.first())->Ok_0;
        let rest = reads.drop_first();
        assert forall|j: int| 0 <= j < rest.len() implies (#[trigger] next.loaded(
            next.files.len() + j,
            rest[j],
        )) is Ok by {
            assert(population.loaded(done + (j + 1), reads[j + 1]) is Ok);
        }
        lemma_run_loads(next, rest);
        let after = population.run(reads)->Ok_0;
        assert(after.files.take(done) =~= next.files.take(done + 1).take(done));
        assert(next.files.take(done) =~= population.files);
        assert forall|j: int| 0 <= j < reads.len() implies population.loaded(done + j, reads[j])
            == Ok::<FileView, FailureView>(#[trigger] after.files[done + j]) by {
            if j == 0 {
                assert(after.files[done] == next.files.take(done + 1)[done]);
            } else {
                assert(next.loaded(next.files.len() + (j - 1), rest[j - 1]) == Ok::<
                    FileView,
                    FailureView,
                >(after.files[next.files.len() + (j - 1)]));
            }
        }
    }
}

/// Loading is all or nothing, and fails fast. Where the read at `bad` is the
/// first whose file fails to load, the run ends with that file's failure,
/// whatever the reads after it hold: there is no population left, and so no
/// environment with some of the files.
pub proof fn lemma_first_failure_ends_run(
    paths: Seq<Seq<char>>,
    settings: EnvironmentPopulateSettings,
    reads: Seq<ReadOutcomeView>,
    bad: int,
)
    requires
        reads.len() <= paths.len(),
        0 <= bad < reads.len(),
        forall|j: int|
            0 <= j < bad ==> (#[trigger] PopulationView::start(paths, settings).loaded(
                j,
                reads[j],
            )) is Ok,
        PopulationView::start(paths, settings).loaded(bad, reads[bad]) is Err,
    ensures
        PopulationView::start(paths, settings).run(reads) == Err::<PopulationView, FailureView>(
            PopulationView::start(paths, settings).loaded(bad, reads[bad])->Err_0,
        ),
{
    lemma_failure_ends_run(PopulationView::start(paths, settings), reads, bad);
}

/// The same from any population: the first read whose file fails to load
/// ends the run with that failure.
pub proof fn lemma_failure_ends_run(
    population: PopulationView,
    reads: Seq<ReadOutcomeView>,
    bad: int,
)
    requires
        population.files.len() + reads.len() <= population.paths.len(),
        0 <= bad < reads.len(),
        forall|j: int|
            0 <= j < bad ==> (#[trigger] population.loaded(population.files.len() + j, reads[j]))
                is Ok,
        population.loaded(population.files.len() + bad, reads[bad]) is Err,
    ensures
        population.run(reads) == Err::<PopulationView, FailureView>(
            population.loaded(population.files.len() + bad, reads[bad])->Err_0,
        ),
    decreases bad,
{
    let done = population.files.len() as int;
    if bad == 0 {
    } else {
        assert(population.loaded(done + 0, reads[0]) is Ok);
        let next = population.accept(reads.first())->Ok_0;
        let rest = reads.drop_first();
        assert forall|j: int| 0 <= j < bad - 1 implies (#[trigger] next.loaded(
            next.files.len() + j,
            rest[j],
        )) is Ok by {
            assert(population.loaded(done + (j + 1), reads[j + 1]) is Ok);
        }
        assert(next.loaded(next.files.len() + (bad - 1), rest[bad - 1]) == population.loaded(
            done + bad,
            reads[bad],
        ));
        lemma_failure_ends_run(next, rest, bad - 1);
    }
}

/// A failure tells nothing of the files that were loaded before it: it is
/// the same whatever those files hold.
pub proof fn lemma_failure_holds_no_contents(
    population: PopulationView,
    other: PopulationView,
    read: ReadOutcomeView,
)
    requires
        population.accept(read) is Err,
        other.paths == population.paths,
        other.settings == population.settings,
        other.files.len() == population.files.len(),
    ensures
        other.accept(read) == population.accept(read),
{
}

/// Nothing to load is no failure: a population over no paths is complete
/// from the start, and its environment holds no file.
pub proof fn lemma_nothing_to_load(settings: EnvironmentPopulateSettings)
    ensures
        PopulationView::start(Seq::empty(), settings).well_formed(),
        PopulationView::start(Seq::empty(), settings).is_complete(),
        PopulationView::start(Seq::empty(), settings).next_path() is None,
        PopulationView::start(Seq::empty(), settings).files.len() == 0,
{
}

/// Where every file loads, the run from the start ends complete, with one
/// file for each path, in the order of the paths.
pub proof fn lemma_full_run_is_complete(
    paths: Seq<Seq<char>>,
    settings: EnvironmentPopulateSettings,
    reads: Seq<ReadOutcomeView>,
)
    requires
        reads.len() == paths.len(),
        forall|j: int|
            0 <= j < reads.len() ==> (#[trigger] PopulationView::start(paths, settings).loaded(
                j,
                reads[j],
            )) is Ok,
    ensures
        PopulationView::start(paths, settings).run(reads) matches Ok(after) && {
            &&& after.is_complete()
            &&& after.well_formed()
            &&& after.files.len() == paths.len()
            &&& forall|j: int|
                0 <= j < paths.len() ==> PopulationView::start(paths, settings).loaded(j, reads[j])
                    == Ok::<FileView, FailureView>(#[trigger] after.files[j])
        },
{
    let start = PopulationView::start(paths, settings);
    lemma_run_loads(start, reads);
    let after = start.run(reads)->Ok_0;
    assert forall|j: int| 0 <= j < paths.len() implies start.loaded(j, reads[j]) == Ok::<
        FileView,
        FailureView,
    >(#[trigger] after.files[j]) by {
        assert(start.loaded(0 + j, reads[j]) == Ok::<FileView, FailureView>(after.files[0 + j]));
    }
}

} // verus!
