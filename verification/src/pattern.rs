//! From input strings to paths: which strings are glob patterns, and which
//! paths they stand for.

use vstd::prelude::*;

use crate::failure::{Failure, FailureView};
use crate::settings::EnvironmentPopulateSettings;

verus! {

/// The walk over the matches of a pattern, `glob::Paths`. Nothing is known of
/// what it holds.
#[verifier::external_type_specification]
#[verifier::external_body]
pub struct ExPaths(glob::Paths);

/// Why `glob::glob` rejected a string, `glob::PatternError`.
#[verifier::external_type_specification]
#[verifier::external_body]
pub struct ExPatternError(glob::PatternError);

/// Why a step of a walk failed, `glob::GlobError`.
#[verifier::external_type_specification]
#[verifier::external_body]
pub struct ExGlobError(glob::GlobError);

/// A path as a walk yields it, `std::path::PathBuf`.
#[verifier::external_type_specification]
#[verifier::external_body]
pub struct ExPathBuf(std::path::PathBuf);

/// Whether the text is a valid glob pattern, as `glob::glob` judges it.
pub uninterp spec fn is_glob_pattern(pattern: Seq<char>) -> bool;

/// `glob::glob` compiles the pattern, whole and component by component, and
/// fails exactly when one of them is not valid pattern syntax. That decision
/// reads the text alone, so it has a name, [`is_glob_pattern`]. Nothing is
/// claimed of the walk that is returned: what it yields depends on the file
/// system.
pub assume_specification[ glob::glob ](pattern: &str) -> (walk: Result<
    glob::Paths,
    glob::PatternError,
>)
    ensures
        walk is Ok <==> is_glob_pattern(pattern@),
;

/// `glob::Paths::next` yields the next match, the failure to read a directory,
/// or the end of the walk. Which of them depends on the file system, so
/// nothing is claimed of the result.
pub assume_specification[ <glob::Paths as Iterator>::next ](walk: &mut glob::Paths) -> (found:
    Option<Result<std::path::PathBuf, glob::GlobError>>)
;

/// `std::path::Path::to_string_lossy`: the path as text. A path that is not
/// valid Unicode comes out with U+FFFD in place of what has no text form.
/// Nothing is claimed of the result.
#[verifier::external_body]
fn path_text(path: &std::path::PathBuf) -> (text: String) {
    path.to_string_lossy().into_owned()
}

/// What came of taking one input string as a glob pattern.
#[derive(Debug, PartialEq, Eq)]
pub enum Expansion {
    /// The string is not a valid pattern.
    Invalid,
    /// The string is a pattern; these are its matches, in the order of the walk.
    Matched(Vec<String>),
    /// The string is a pattern, and the walk for its matches failed.
    Failed(String),
}

/// An [`Expansion`] as a mathematical value.
pub enum ExpansionView {
    Invalid,
    Matched(Seq<Seq<char>>),
    Failed(Seq<char>),
}

impl View for Expansion {
    type V = ExpansionView;

    open spec fn view(&self) -> ExpansionView {
        match *self {
            Expansion::Invalid => ExpansionView::Invalid,
            Expansion::Matched(paths) => ExpansionView::Matched(paths.deep_view()),
            Expansion::Failed(message) => ExpansionView::Failed(message@),
        }
    }
}

/// One step of a walk, as plain values.
#[derive(Debug, PartialEq, Eq)]
pub enum WalkItem {
    /// The walk has ended.
    End,
    /// The walk found a match; this is its path.
    Found(String),
    /// The walk met a directory that it could not read, for the reason
    /// given.
    Unreadable(String),
}

/// A [`WalkItem`] as a mathematical value.
pub enum WalkItemView {
    End,
    Found(Seq<char>),
    Unreadable(Seq<char>),
}

impl View for WalkItem {
    type V = WalkItemView;

    open spec fn view(&self) -> WalkItemView {
        match *self {
            WalkItem::End => WalkItemView::End,
            WalkItem::Found(path) => WalkItemView::Found(path@),
            WalkItem::Unreadable(message) => WalkItemView::Unreadable(message@),
        }
    }
}

/// What one step makes of a walk that has found `found` so far: a match is
/// added at the end and the walk goes on; the end of the walk ends it with
/// the matches; a directory that cannot be read ends it with a failure, and
/// the matches found before are dropped.
pub open spec fn after_item(found: Seq<Seq<char>>, item: WalkItemView) -> Result<
    Seq<Seq<char>>,
    ExpansionView,
> {
    match item {
        WalkItemView::Found(path) => Ok(found.push(path)),
        WalkItemView::End => Err(ExpansionView::Matched(found)),
        WalkItemView::Unreadable(message) => Err(ExpansionView::Failed(message)),
    }
}

/// What the steps make of a walk, taken one after the other from the start:
/// the matches found so far while the walk goes on, or what the walk came to
/// at the first step that ended it. Steps after that one count for nothing.
pub open spec fn after_items(items: Seq<WalkItemView>) -> Result<Seq<Seq<char>>, ExpansionView>
    decreases items.len(),
{
    if items.len() == 0 {
        Ok(Seq::empty())
    } else {
        match after_items(items.drop_last()) {
            Ok(found) => after_item(found, items.last()),
            Err(outcome) => Err(outcome),
        }
    }
}

/// What a walk comes to, given its steps. A walk whose steps do not end it
/// comes to the matches that the steps found.
pub open spec fn walk_outcome(items: Seq<WalkItemView>) -> ExpansionView {
    match after_items(items) {
        Ok(found) => ExpansionView::Matched(found),
        Err(outcome) => outcome,
    }
}

/// Takes one step of a walk that has found `found` so far: the matches with
/// one more, where the walk goes on, or what the walk came to, where the step
/// ended it.
pub fn take_item(found: Vec<String>, item: WalkItem) -> (next: Result<Vec<String>, Expansion>)
    ensures
        match after_item(found.deep_view(), item@) {
            Ok(more) => next matches Ok(paths) && paths.deep_view() == more,
            Err(outcome) => next matches Err(end) && end@ == outcome,
        },
{
    match item {
        WalkItem::Found(path) => {
            let mut paths = found;
            let ghost before = paths.deep_view();
            paths.push(path);
            assert(paths.deep_view() =~= before.push(path@));
            Ok(paths)
        },
        WalkItem::End => Err(Expansion::Matched(found)),
        WalkItem::Unreadable(message) => Err(Expansion::Failed(message)),
    }
}

/// The paths that one input string contributes, given what came of taking it
/// as a pattern: itself where it is no pattern, its matches where it is one,
/// and a pattern failure where the walk failed.
pub open spec fn entry_paths(pattern: Seq<char>, outcome: ExpansionView) -> Result<
    Seq<Seq<char>>,
    FailureView,
> {
    match outcome {
        ExpansionView::Invalid => Ok(seq![pattern]),
        ExpansionView::Matched(paths) => Ok(paths),
        ExpansionView::Failed(message) => Err(FailureView::Pattern { message }),
    }
}

/// The matches of a string that has to be a glob pattern, given what came
/// of taking it as one. Here a string that is no pattern is a failure.
pub open spec fn pattern_matches(pattern: Seq<char>, outcome: ExpansionView) -> Result<
    Seq<Seq<char>>,
    FailureView,
> {
    match outcome {
        ExpansionView::Invalid => Err(FailureView::InvalidPattern { pattern }),
        ExpansionView::Matched(paths) => Ok(paths),
        ExpansionView::Failed(message) => Err(FailureView::Pattern { message }),
    }
}

/// A list of paths, or the failure in its place, as a mathematical value.
pub open spec fn paths_view(result: Result<Vec<String>, Failure>) -> Result<
    Seq<Seq<char>>,
    FailureView,
> {
    match result {
        Ok(paths) => Ok(paths.deep_view()),
        Err(failure) => Err(failure@),
    }
}

/// What resolving gives where every string is a literal path: the strings
/// as they are.
pub open spec fn literal_resolution(patterns: Seq<Seq<char>>) -> Result<
    Seq<Seq<char>>,
    FailureView,
> {
    Ok(patterns)
}

/// Whether `outcome` can be what comes of taking `pattern` as a glob
/// pattern: it is `Invalid` exactly where the string is no pattern, and
/// otherwise it is what some walk came to.
pub open spec fn is_outcome_of(pattern: Seq<char>, outcome: ExpansionView) -> bool {
    &&& outcome is Invalid <==> !is_glob_pattern(pattern)
    &&& is_glob_pattern(pattern) ==> exists|items: Seq<WalkItemView>|
        outcome == walk_outcome(items)
}

/// The paths so far with those of one more input string, or the failure of
/// that string's walk. A failure drops the paths so far.
pub open spec fn after_entry(
    paths: Seq<Seq<char>>,
    pattern: Seq<char>,
    outcome: ExpansionView,
) -> Result<Seq<Seq<char>>, FailureView> {
    match entry_paths(pattern, outcome) {
        Ok(more) => Ok(paths + more),
        Err(failure) => Err(failure),
    }
}

/// The paths that the input strings stand for, given what came of taking
/// each as a pattern: what the strings contribute, put together in input
/// order, or the failure of the first walk that failed. `outcomes` holds the
/// outcome of the string at the same place; strings past the end of
/// `outcomes` are left out, and so are outcomes after the first failure.
pub open spec fn resolved(patterns: Seq<Seq<char>>, outcomes: Seq<ExpansionView>) -> Result<
    Seq<Seq<char>>,
    FailureView,
>
    decreases outcomes.len(),
{
    if outcomes.len() == 0 {
        Ok(Seq::empty())
    } else {
        match resolved(patterns, outcomes.drop_last()) {
            Ok(paths) => after_entry(paths, patterns[outcomes.len() - 1], outcomes.last()),
            Err(failure) => Err(failure),
        }
    }
}

/// Whether `result` can be what expanding `patterns` gives, whatever the file
/// system holds.
///
/// There is an outcome for each string, `Invalid` exactly where the string
/// is no glob pattern and otherwise what some walk came to, and the result
/// is what [`resolved`] makes of them. So a string that is no pattern
/// contributes itself, a pattern contributes the matches of its walk in the
/// walk's order, be they many or none, and a failure is that of the first
/// walk that met a directory it could not read. Where no string is a
/// pattern, the result is the input, string for string.
pub open spec fn is_resolution(
    patterns: Seq<Seq<char>>,
    result: Result<Seq<Seq<char>>, FailureView>,
) -> bool {
    &&& exists|outcomes: Seq<ExpansionView>|
        {
            &&& outcomes.len() == patterns.len()
            &&& forall|i: int|
                0 <= i < patterns.len() ==> is_outcome_of(patterns[i], #[trigger] outcomes[i])
            &&& result == resolved(patterns, outcomes)
        }
    &&& (forall|i: int| 0 <= i < patterns.len() ==> !is_glob_pattern(#[trigger] patterns[i]))
        ==> result == literal_resolution(patterns)
}

/// The outcome that stands for a string whose walk was never made: no match
/// for a pattern, `Invalid` for any other string.
pub open spec fn idle_outcome(pattern: Seq<char>) -> ExpansionView {
    if is_glob_pattern(pattern) {
        ExpansionView::Matched(Seq::empty())
    } else {
        ExpansionView::Invalid
    }
}

/// Once a walk has failed, the outcomes of the strings after it count for
/// nothing: the failure stays.
pub proof fn lemma_failure_stays(
    patterns: Seq<Seq<char>>,
    outcomes: Seq<ExpansionView>,
    later: Seq<ExpansionView>,
)
    requires
        resolved(patterns, outcomes) is Err,
    ensures
        resolved(patterns, outcomes + later) == resolved(patterns, outcomes),
    decreases later.len(),
{
    if later.len() == 0 {
        assert(outcomes + later =~= outcomes);
    } else {
        lemma_failure_stays(patterns, outcomes, later.drop_last());
        assert((outcomes + later).drop_last() =~= outcomes + later.drop_last());
    }
}

/// A failure is that of a walk: it is a pattern failure, and some string is
/// a glob pattern whose walk met a directory that it could not read.
pub proof fn lemma_failure_is_of_a_walk(patterns: Seq<Seq<char>>, outcomes: Seq<ExpansionView>)
    requires
        outcomes.len() <= patterns.len(),
        resolved(patterns, outcomes) is Err,
    ensures
        exists|i: int|
            0 <= i < outcomes.len() && outcomes[i] is Failed && resolved(patterns, outcomes) == Err::<
                Seq<Seq<char>>,
                FailureView,
            >(FailureView::Pattern { message: (#[trigger] outcomes[i])->Failed_0 }),
    decreases outcomes.len(),
{
    if outcomes.len() > 0 {
        let front = outcomes.drop_last();
        if resolved(patterns, front) is Err {
            lemma_failure_is_of_a_walk(patterns, front);
            let i = choose|i: int|
                0 <= i < front.len() && front[i] is Failed && resolved(patterns, front) == Err::<
                    Seq<Seq<char>>,
                    FailureView,
                >(FailureView::Pattern { message: (#[trigger] front[i])->Failed_0 });
            assert(outcomes[i] == front[i]);
        } else {
            assert(outcomes[outcomes.len() - 1] is Failed);
        }
    }
}

/// Where no walk fails, the result is the strings' contributions put
/// together: there is no failure.
pub proof fn lemma_no_failed_walk_is_no_failure(
    patterns: Seq<Seq<char>>,
    outcomes: Seq<ExpansionView>,
)
    requires
        outcomes.len() <= patterns.len(),
        forall|i: int| 0 <= i < outcomes.len() ==> !(#[trigger] outcomes[i] is Failed),
    ensures
        resolved(patterns, outcomes) is Ok,
    decreases outcomes.len(),
{
    if outcomes.len() > 0 {
        let front = outcomes.drop_last();
        assert forall|i: int| 0 <= i < front.len() implies !(#[trigger] front[i] is Failed) by {
            assert(front[i] == outcomes[i]);
        }
        lemma_no_failed_walk_is_no_failure(patterns, front);
        assert(!(outcomes[outcomes.len() - 1] is Failed));
    }
}

/// A walk fails only where it meets a directory that it cannot read: where
/// no step is of that kind the walk comes to its matches, and where the walk
/// ends at once there is none.
pub proof fn lemma_walk_fails_only_unreadable(items: Seq<WalkItemView>)
    requires
        forall|i: int| 0 <= i < items.len() ==> !(#[trigger] items[i] is Unreadable),
    ensures
        walk_outcome(items) is Matched,
    decreases items.len(),
{
    if items.len() > 0 {
        let front = items.drop_last();
        assert forall|i: int| 0 <= i < front.len() implies !(#[trigger] front[i] is Unreadable) by {
            assert(front[i] == items[i]);
        }
        lemma_walk_fails_only_unreadable(front);
        assert(!(items[items.len() - 1] is Unreadable));
    }
}

/// A walk that ends at once has no match, and a walk that finds its matches
/// and then ends comes to those matches, in their order.
pub proof fn lemma_walk_gives_its_matches(paths: Seq<Seq<char>>)
    ensures
        walk_outcome(seq![WalkItemView::End]) == ExpansionView::Matched(Seq::empty()),
        after_items(paths.map_values(|path: Seq<char>| WalkItemView::Found(path))) == Ok::<
            Seq<Seq<char>>,
            ExpansionView,
        >(paths),
        walk_outcome(
            paths.map_values(|path: Seq<char>| WalkItemView::Found(path)).push(WalkItemView::End),
        ) == ExpansionView::Matched(paths),
    decreases paths.len(),
{
    let found = paths.map_values(|path: Seq<char>| WalkItemView::Found(path));
    let end = seq![WalkItemView::End];
    assert(end.drop_last() =~= Seq::<WalkItemView>::empty());
    assert(after_items(Seq::<WalkItemView>::empty()) == Ok::<Seq<Seq<char>>, ExpansionView>(
        Seq::empty(),
    ));
    assert(after_items(end) == after_item(Seq::empty(), end.last()));
    if paths.len() == 0 {
        assert(paths =~= Seq::empty());
    } else {
        lemma_walk_gives_its_matches(paths.drop_last());
        assert(found.drop_last() =~= paths.drop_last().map_values(
            |path: Seq<char>| WalkItemView::Found(path),
        ));
        assert(paths.drop_last().push(paths.last()) =~= paths);
    }
    assert(found.push(WalkItemView::End).drop_last() =~= found);
}

/// The first directory that a walk cannot read ends it with that failure,
/// whatever the walk found before and whatever its steps are after.
pub proof fn lemma_unreadable_fails_walk(items: Seq<WalkItemView>, bad: int)
    requires
        0 <= bad < items.len(),
        forall|i: int| 0 <= i < bad ==> (#[trigger] items[i]) is Found,
        items[bad] is Unreadable,
    ensures
        walk_outcome(items) == ExpansionView::Failed(items[bad]->Unreadable_0),
    decreases items.len(),
{
    let front = items.drop_last();
    if bad == items.len() - 1 {
        lemma_found_items_go_on(front);
    } else {
        assert(front[bad] == items[bad]);
        assert forall|i: int| 0 <= i < bad implies (#[trigger] front[i]) is Found by {
            assert(front[i] == items[i]);
        }
        lemma_unreadable_fails_walk(front, bad);
    }
}

/// A walk goes on while it finds matches.
pub proof fn lemma_found_items_go_on(items: Seq<WalkItemView>)
    requires
        forall|i: int| 0 <= i < items.len() ==> (#[trigger] items[i]) is Found,
    ensures
        after_items(items) is Ok,
    decreases items.len(),
{
    if items.len() > 0 {
        let front = items.drop_last();
        assert forall|i: int| 0 <= i < front.len() implies (#[trigger] front[i]) is Found by {
            assert(front[i] == items[i]);
        }
        lemma_found_items_go_on(front);
        assert(items[items.len() - 1] is Found);
    }
}

/// The first walk that fails ends the resolving with its failure: no list of
/// paths is given, and the string is not taken as a literal path instead.
pub proof fn lemma_failed_walk_fails(
    patterns: Seq<Seq<char>>,
    outcomes: Seq<ExpansionView>,
    bad: int,
)
    requires
        outcomes.len() <= patterns.len(),
        0 <= bad < outcomes.len(),
        forall|i: int| 0 <= i < bad ==> !(#[trigger] outcomes[i] is Failed),
        outcomes[bad] is Failed,
    ensures
        resolved(patterns, outcomes) == Err::<Seq<Seq<char>>, FailureView>(
            FailureView::Pattern { message: outcomes[bad]->Failed_0 },
        ),
    decreases outcomes.len(),
{
    let front = outcomes.drop_last();
    if bad == outcomes.len() - 1 {
        assert forall|i: int| 0 <= i < front.len() implies !(#[trigger] front[i] is Failed) by {
            assert(front[i] == outcomes[i]);
        }
        lemma_no_failed_walk_is_no_failure(patterns, front);
    } else {
        assert(front[bad] == outcomes[bad]);
        assert forall|i: int| 0 <= i < bad implies !(#[trigger] front[i] is Failed) by {
            assert(front[i] == outcomes[i]);
        }
        lemma_failed_walk_fails(patterns, front, bad);
    }
}

/// A pattern whose walk finds nothing resolves to no path: it is no failure,
/// and the string is not taken as a literal path instead.
pub proof fn lemma_empty_walk_resolves_to_nothing(pattern: Seq<char>)
    ensures
        resolved(seq![pattern], seq![walk_outcome(seq![WalkItemView::End])]) == Ok::<
            Seq<Seq<char>>,
            FailureView,
        >(Seq::empty()),
{
    lemma_walk_gives_its_matches(Seq::empty());
    let outcomes = seq![walk_outcome(seq![WalkItemView::End])];
    assert(outcomes.drop_last() =~= Seq::<ExpansionView>::empty());
    assert(resolved(seq![pattern], Seq::<ExpansionView>::empty()) == Ok::<
        Seq<Seq<char>>,
        FailureView,
    >(Seq::empty()));
    assert(Seq::<Seq<char>>::empty() + Seq::<Seq<char>>::empty() =~= Seq::<Seq<char>>::empty());
}

/// A pattern without a match is no failure: it contributes no path.
pub proof fn lemma_no_match_is_no_failure(pattern: Seq<char>)
    ensures
        entry_paths(pattern, ExpansionView::Matched(Seq::empty())) == Ok::<
            Seq<Seq<char>>,
            FailureView,
        >(Seq::empty()),
{
}

/// A string that is no pattern stands for itself and for nothing else, and is
/// no failure.
pub proof fn lemma_fallback_is_literal(pattern: Seq<char>)
    ensures
        entry_paths(pattern, ExpansionView::Invalid) == Ok::<Seq<Seq<char>>, FailureView>(
            seq![pattern],
        ),
{
}

impl Expansion {
    /// The matches of `pattern`, which has to be a glob pattern, given that
    /// `self` came of taking it as one.
    pub fn into_matches(self, pattern: &str) -> (result: Result<Vec<String>, Failure>)
        ensures
            paths_view(result) == pattern_matches(pattern@, self@),
    {
        match self {
            Expansion::Invalid => Err(Failure::InvalidPattern { pattern: pattern.to_owned() }),
            Expansion::Matched(paths) => Ok(paths),
            Expansion::Failed(message) => Err(Failure::Pattern { message }),
        }
    }

    /// The paths that `pattern` contributes, given that `self` came of taking
    /// it as a pattern.
    ///
    /// A string that is no pattern stands for itself, as a literal path. A
    /// pattern stands for its matches, be they many or none. Only a failed
    /// walk is a failure.
    pub fn into_paths(self, pattern: &str) -> (result: Result<Vec<String>, Failure>)
        ensures
            paths_view(result) == entry_paths(pattern@, self@),
    {
        match self {
            Expansion::Invalid => {
                let mut paths: Vec<String> = Vec::new();
                paths.push(pattern.to_owned());
                assert(paths.deep_view() =~= seq![pattern@]);
                Ok(paths)
            },
            Expansion::Matched(paths) => Ok(paths),
            Expansion::Failed(message) => Err(Failure::Pattern { message }),
        }
    }
}

/// Adds what one input string contributes to the paths so far, given what
/// came of taking the string as a pattern.
pub fn take_entry(paths: Vec<String>, pattern: &str, outcome: Expansion) -> (result: Result<
    Vec<String>,
    Failure,
>)
    ensures
        paths_view(result) == after_entry(paths.deep_view(), pattern@, outcome@),
{
    match outcome.into_paths(pattern) {
        Ok(mut more) => {
            let mut paths = paths;
            let ghost before = paths.deep_view();
            let ghost added = more.deep_view();
            paths.append(&mut more);
            assert(paths.deep_view() =~= before + added);
            Ok(paths)
        },
        Err(failure) => Err(failure),
    }
}

/// Takes the string as a glob pattern and walks the file system for its
/// matches.
///
/// Each step of the walk is handed to [`take_item`], which decides: matches
/// are collected in the order in which the walk yields them, the end of the
/// walk gives them back, and the first directory that cannot be read ends the
/// walk with a failure. No other step ends a walk. What the steps are is for
/// the file system to say.
///
/// Paths are held as text. A match whose path is not valid Unicode is held
/// as the text that shows it, with U+FFFD in place of what has no text form;
/// no file is found under such a text when it is read.
pub fn resolve_entry_as_glob(pattern: &str) -> (outcome: Expansion)
    ensures
        is_outcome_of(pattern@, outcome@),
{
    match glob::glob(pattern) {
        Err(_) => Expansion::Invalid,
        Ok(mut walk) => {
            let mut found: Vec<String> = Vec::new();
            let ghost mut items: Seq<WalkItemView> = Seq::empty();
            assert(found.deep_view() =~= Seq::empty());
            // A vector holds fewer than `usize::MAX` paths, so the walk ends
            // within that many steps.
            for _step in 0..usize::MAX
                invariant
                    is_glob_pattern(pattern@),
                    after_items(items) == Ok::<Seq<Seq<char>>, ExpansionView>(found.deep_view()),
            {
                let item = match walk.next() {
                    None => WalkItem::End,
                    Some(Ok(path)) => WalkItem::Found(path_text(&path)),
                    Some(Err(unreadable)) => WalkItem::Unreadable(unreadable.to_string()),
                };
                proof {
                    assert(items.push(item@).drop_last() =~= items);
                    items = items.push(item@);
                }
                match take_item(found, item) {
                    Ok(more) => {
                        found = more;
                    },
                    Err(end) => {
                        assert(end@ == walk_outcome(items));
                        return end;
                    },
                }
            }
            assert(Expansion::Matched(found)@ == walk_outcome(items));
            Expansion::Matched(found)
        },
    }
}

/// The paths that one input string stands for: its matches where it is a
/// glob pattern, itself where it is not.
pub fn resolve_entry(pattern: &str) -> (result: Result<Vec<String>, Failure>)
    ensures
        exists|outcome: ExpansionView|
            is_outcome_of(pattern@, outcome) && paths_view(result) == entry_paths(
                pattern@,
                outcome,
            ),
        !is_glob_pattern(pattern@) ==> (result matches Ok(paths) && paths.deep_view() == seq![
            pattern@,
        ]),
        result matches Err(failure) ==> failure@ is Pattern && is_glob_pattern(pattern@),
{
    resolve_entry_as_glob(pattern).into_paths(pattern)
}

/// The paths that the input strings stand for, with glob patterns expanded.
///
/// Each string is taken by itself, in the order given: a glob pattern
/// contributes its matches, in the order of the walk, and any other string
/// contributes itself as a literal path. Nothing is sorted and nothing is
/// dropped as a duplicate. The first walk that fails ends the operation with
/// its failure, and the strings after it are not looked at.
pub fn resolve_file_path_patterns(patterns: &[String]) -> (result: Result<Vec<String>, Failure>)
    ensures
        is_resolution(patterns.deep_view(), paths_view(result)),
{
    let ghost texts = patterns.deep_view();
    let mut results: Vec<String> = Vec::new();
    let ghost mut outcomes: Seq<ExpansionView> = Seq::empty();
    let mut index: usize = 0;
    assert(results.deep_view() =~= Seq::empty());
    assert(texts.take(0) =~= Seq::empty());
    while index < patterns.len()
        invariant
            texts == patterns.deep_view(),
            index <= patterns.len(),
            outcomes.len() == index,
            forall|i: int| 0 <= i < index ==> is_outcome_of(texts[i], #[trigger] outcomes[i]),
            resolved(texts, outcomes) == Ok::<Seq<Seq<char>>, FailureView>(results.deep_view()),
            (forall|i: int| 0 <= i < index ==> !is_glob_pattern(#[trigger] texts[i]))
                ==> results.deep_view() == texts.take(index as int),
        decreases patterns.len() - index,
    {
        let pattern: &str = patterns[index].as_str();
        let outcome = resolve_entry_as_glob(pattern);
        let ghost before = results.deep_view();
        let ghost seen = outcomes;
        proof {
            assert(texts[index as int] == pattern@);
            outcomes = seen.push(outcome@);
            assert(outcomes.drop_last() =~= seen);
        }
        match take_entry(results, pattern, outcome) {
            Ok(more) => {
                results = more;
                proof {
                    if forall|i: int| 0 <= i < index + 1 ==> !is_glob_pattern(#[trigger] texts[i]) {
                        assert(!is_glob_pattern(texts[index as int]));
                        assert(results.deep_view() =~= texts.take(index + 1));
                    }
                }
            },
            Err(failure) => {
                proof {
                    let later = Seq::new(
                        (patterns.len() - index - 1) as nat,
                        |j: int| idle_outcome(texts[index + 1 + j]),
                    );
                    let all = outcomes + later;
                    lemma_failure_stays(texts, outcomes, later);
                    assert(walk_outcome(Seq::empty()) == ExpansionView::Matched(Seq::empty()));
                    assert forall|i: int| 0 <= i < texts.len() implies is_outcome_of(
                        texts[i],
                        #[trigger] all[i],
                    ) by {
                        if i < index {
                            assert(all[i] == seen[i]);
                        } else if i == index {
                            assert(all[i] == outcome@);
                        } else {
                            assert(all[i] == idle_outcome(texts[i]));
                        }
                    }
                    assert(is_glob_pattern(texts[index as int]));
                }
                return Err(failure);
            },
        }
        index = index + 1;
    }
    proof {
        assert(texts.take(index as int) =~= texts);
    }
    Ok(results)
}

/// The strings as they are, each a literal path.
pub fn literal_paths(patterns: &[String]) -> (paths: Vec<String>)
    ensures
        paths.deep_view() == patterns.deep_view(),
{
    let mut paths: Vec<String> = Vec::new();
    let mut index: usize = 0;
    while index < patterns.len()
        invariant
            index <= patterns.len(),
            paths.len() == index,
            forall|i: int| 0 <= i < index ==> #[trigger] paths[i]@ == patterns[i]@,
        decreases patterns.len() - index,
    {
        paths.push(patterns[index].clone());
        index = index + 1;
    }
    assert(paths.deep_view() =~= patterns.deep_view());
    paths
}

/// The ordered list of paths that the input strings stand for.
///
/// With `allow_globs` off, every string is a literal path: the result is the
/// input, string for string, and nothing is looked up. With it on, each
/// string is expanded as [`resolve_file_path_patterns`] says.
pub fn resolve(patterns: &[String], settings: EnvironmentPopulateSettings) -> (result: Result<
    Vec<String>,
    Failure,
>)
    ensures
        !settings.allow_globs ==> paths_view(result) == literal_resolution(patterns.deep_view()),
        settings.allow_globs ==> is_resolution(patterns.deep_view(), paths_view(result)),
{
    if settings.allow_globs {
        resolve_file_path_patterns(patterns)
    } else {
        Ok(literal_paths(patterns))
    }
}

} // verus!
