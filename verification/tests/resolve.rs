use file_context::pattern::{
    literal_paths, resolve, resolve_entry, resolve_entry_as_glob, resolve_file_path_patterns,
    take_entry, take_item,
};
use file_context::{EnvironmentPopulateSettings, Expansion, Failure, WalkItem};

fn strings(texts: &[&str]) -> Vec<String> {
    texts.iter().map(|text| text.to_string()).collect()
}

/// Takes the steps of a walk one after the other, as the walk of a pattern
/// does.
fn walk(items: Vec<WalkItem>) -> Expansion {
    let mut found = Vec::new();
    for item in items {
        match take_item(found, item) {
            Ok(more) => found = more,
            Err(end) => return end,
        }
    }
    Expansion::Matched(found)
}

/// Resolves the strings, given what came of taking each as a pattern.
fn resolve_with(entries: Vec<(&str, Expansion)>) -> Result<Vec<String>, Failure> {
    let mut paths = Vec::new();
    for (pattern, outcome) in entries {
        paths = take_entry(paths, pattern, outcome)?;
    }
    Ok(paths)
}

fn found(path: &str) -> WalkItem {
    WalkItem::Found(path.to_string())
}

fn literal() -> EnvironmentPopulateSettings {
    EnvironmentPopulateSettings::default().set_allow_globs(false)
}

#[test]
fn literal_mode_keeps_every_string_in_order() {
    let input = strings(&["b.txt", "a.txt", "docs/*.md", "a.txt", "", "[abc", "no/such/file"]);
    assert_eq!(resolve(&input, literal()), Ok(input.clone()));
}

#[test]
fn literal_mode_of_nothing_is_nothing() {
    assert_eq!(resolve(&[], literal()), Ok(vec![]));
}

#[test]
fn literal_paths_copies_the_strings() {
    let input = strings(&["x", "tests/*.rs", "x"]);
    assert_eq!(literal_paths(&input), input);
}

#[test]
fn unterminated_class_falls_back_to_itself() {
    assert_eq!(resolve_entry("[abc"), Ok(strings(&["[abc"])));
    assert_eq!(resolve_entry("docs/[abc"), Ok(strings(&["docs/[abc"])));
}

#[test]
fn misplaced_recursive_wildcard_falls_back_to_itself() {
    assert_eq!(resolve_entry("a**"), Ok(strings(&["a**"])));
    assert_eq!(resolve_entry("**a"), Ok(strings(&["**a"])));
    assert_eq!(resolve_entry("***"), Ok(strings(&["***"])));
}

#[test]
fn class_split_by_a_separator_falls_back_to_itself() {
    // The whole string is a valid pattern, its components are not.
    assert_eq!(resolve_entry("[a/b]"), Ok(strings(&["[a/b]"])));
}

#[test]
fn invalid_pattern_is_reported_as_invalid() {
    assert_eq!(resolve_entry_as_glob("[abc"), Expansion::Invalid);
    assert_eq!(resolve_entry_as_glob("a**"), Expansion::Invalid);
}

#[test]
fn valid_pattern_without_a_match_gives_nothing() {
    assert_eq!(resolve_entry_as_glob("no_such_directory_zz9/*.nothing"), Expansion::Matched(vec![]));
    assert_eq!(resolve_entry("no_such_directory_zz9/*.nothing"), Ok(vec![]));
    assert_eq!(resolve_entry("tests/*.no_such_extension"), Ok(vec![]));
}

#[test]
fn plain_path_that_leads_nowhere_gives_nothing_when_globs_are_on() {
    assert_eq!(resolve_entry("no_such_directory_zz9/file.txt"), Ok(vec![]));
}

#[test]
fn plain_path_that_exists_gives_itself() {
    assert_eq!(resolve_entry("tests/resolve.rs"), Ok(strings(&["tests/resolve.rs"])));
}

#[test]
fn question_mark_matches_one_character() {
    assert_eq!(resolve_entry("tests/resolve.r?"), Ok(strings(&["tests/resolve.rs"])));
    assert_eq!(resolve_entry("tests/resolve.?"), Ok(vec![]));
}

#[test]
fn class_matches_one_of_its_characters() {
    assert_eq!(resolve_entry("tests/[r]esolve.rs"), Ok(strings(&["tests/resolve.rs"])));
    assert_eq!(resolve_entry("tests/[!r]esolve.rs"), Ok(vec![]));
}

#[test]
fn star_matches_in_the_order_of_the_walk() {
    let found = resolve_entry("tests/*.rs").unwrap();
    assert!(found.contains(&"tests/resolve.rs".to_string()));
    assert!(found.len() >= 2);
    let mut sorted = found.clone();
    sorted.sort();
    assert_eq!(found, sorted);
}

#[test]
fn recursive_wildcard_reaches_below() {
    let found = resolve_entry("**/resolve.rs").unwrap();
    assert_eq!(found, strings(&["tests/resolve.rs"]));
}

#[test]
fn expansions_are_put_together_in_input_order() {
    let input = strings(&["tests/resolve.r?", "[abc", "tests/*.nothing", "tests/resolve.rs"]);
    assert_eq!(
        resolve_file_path_patterns(&input),
        Ok(strings(&["tests/resolve.rs", "[abc", "tests/resolve.rs"]))
    );
}

#[test]
fn nothing_is_sorted_or_dropped_as_a_duplicate() {
    let input = strings(&["tests/resolve.rs", "tests/load.rs", "tests/resolve.rs"]);
    assert_eq!(
        resolve(&input, EnvironmentPopulateSettings::default()),
        Ok(strings(&["tests/resolve.rs", "tests/load.rs", "tests/resolve.rs"]))
    );
}

#[test]
fn strings_that_are_no_patterns_resolve_to_themselves() {
    let input = strings(&["[abc", "x/[", "a**b"]);
    assert_eq!(resolve(&input, EnvironmentPopulateSettings::default()), Ok(input.clone()));
    assert_eq!(resolve_file_path_patterns(&input), Ok(input.clone()));
}

#[test]
fn the_same_pattern_is_literal_when_globs_are_off() {
    let input = strings(&["tests/*.rs"]);
    assert_eq!(resolve(&input, literal()), Ok(strings(&["tests/*.rs"])));
    assert!(resolve(&input, EnvironmentPopulateSettings::default()).unwrap().len() >= 2);
}

#[test]
fn into_paths_of_an_invalid_pattern_is_the_string() {
    assert_eq!(Expansion::Invalid.into_paths("[abc"), Ok(strings(&["[abc"])));
}

#[test]
fn into_paths_of_matches_is_the_matches() {
    let matches = strings(&["docs/a.md", "docs/b.md"]);
    assert_eq!(Expansion::Matched(matches.clone()).into_paths("docs/*.md"), Ok(matches));
    assert_eq!(Expansion::Matched(vec![]).into_paths("docs/*.md"), Ok(vec![]));
}

#[test]
fn into_paths_of_a_failed_walk_is_a_pattern_failure() {
    assert_eq!(
        Expansion::Failed("denied".to_string()).into_paths("docs/*.md"),
        Err(Failure::Pattern { message: "denied".to_string() })
    );
}

#[test]
fn into_matches_rejects_what_is_no_pattern() {
    assert_eq!(
        Expansion::Invalid.into_matches("[abc"),
        Err(Failure::InvalidPattern { pattern: "[abc".to_string() })
    );
    assert_eq!(Expansion::Matched(vec![]).into_matches("*.md"), Ok(vec![]));
    assert_eq!(
        Expansion::Failed("denied".to_string()).into_matches("*.md"),
        Err(Failure::Pattern { message: "denied".to_string() })
    );
}

#[test]
fn walk_item_found_is_added_at_the_end() {
    assert_eq!(take_item(vec![], found("docs/a.md")), Ok(strings(&["docs/a.md"])));
    assert_eq!(
        take_item(strings(&["docs/b.md", "docs/a.md"]), found("docs/a.md")),
        Ok(strings(&["docs/b.md", "docs/a.md", "docs/a.md"]))
    );
}

#[test]
fn walk_item_end_gives_the_matches() {
    assert_eq!(take_item(vec![], WalkItem::End), Err(Expansion::Matched(vec![])));
    assert_eq!(
        take_item(strings(&["docs/a.md"]), WalkItem::End),
        Err(Expansion::Matched(strings(&["docs/a.md"])))
    );
}

#[test]
fn walk_item_unreadable_fails_and_drops_the_matches() {
    assert_eq!(
        take_item(strings(&["docs/a.md"]), WalkItem::Unreadable("permission denied".to_string())),
        Err(Expansion::Failed("permission denied".to_string()))
    );
}

#[test]
fn walk_over_nothing_matches_nothing() {
    assert_eq!(walk(vec![WalkItem::End]), Expansion::Matched(vec![]));
    assert_eq!(walk(vec![WalkItem::End]).into_paths("docs/*.md"), Ok(vec![]));
    assert_eq!(walk(vec![WalkItem::End]).into_paths("missing.txt"), Ok(vec![]));
}

#[test]
fn walk_gives_its_matches_in_its_order() {
    assert_eq!(
        walk(vec![found("docs/b.md"), found("docs/a.md"), found("docs/b.md"), WalkItem::End]),
        Expansion::Matched(strings(&["docs/b.md", "docs/a.md", "docs/b.md"]))
    );
}

#[test]
fn walk_stops_at_its_end() {
    assert_eq!(
        walk(vec![found("a"), WalkItem::End, found("b"), WalkItem::Unreadable("late".to_string())]),
        Expansion::Matched(strings(&["a"]))
    );
}

#[test]
fn walk_that_meets_an_unreadable_directory_fails() {
    assert_eq!(
        walk(vec![found("a"), WalkItem::Unreadable("denied".to_string()), found("b"), WalkItem::End]),
        Expansion::Failed("denied".to_string())
    );
    assert_eq!(
        walk(vec![WalkItem::Unreadable("denied".to_string())]).into_paths("locked/*"),
        Err(Failure::Pattern { message: "denied".to_string() })
    );
}

#[test]
fn entries_are_put_together_in_input_order() {
    assert_eq!(
        resolve_with(vec![
            ("docs/*.md", walk(vec![found("docs/a.md"), found("docs/b.md"), WalkItem::End])),
            ("[abc", Expansion::Invalid),
            ("none/*", walk(vec![WalkItem::End])),
            ("docs/a.*", walk(vec![found("docs/a.md"), WalkItem::End])),
        ]),
        Ok(strings(&["docs/a.md", "docs/b.md", "[abc", "docs/a.md"]))
    );
}

#[test]
fn entry_whose_walk_fails_fails_the_resolving() {
    assert_eq!(
        resolve_with(vec![
            ("docs/*.md", walk(vec![found("docs/a.md"), WalkItem::End])),
            ("locked/*", walk(vec![found("locked/x"), WalkItem::Unreadable("denied".to_string())])),
            ("[abc", Expansion::Invalid),
        ]),
        Err(Failure::Pattern { message: "denied".to_string() })
    );
}

#[test]
fn entry_is_added_to_the_paths_so_far() {
    assert_eq!(
        take_entry(strings(&["x"]), "[abc", Expansion::Invalid),
        Ok(strings(&["x", "[abc"]))
    );
    assert_eq!(
        take_entry(strings(&["x"]), "*.md", Expansion::Matched(strings(&["b.md", "a.md"]))),
        Ok(strings(&["x", "b.md", "a.md"]))
    );
    assert_eq!(take_entry(strings(&["x"]), "*.md", Expansion::Matched(vec![])), Ok(strings(&["x"])));
    assert_eq!(
        take_entry(strings(&["x"]), "*.md", Expansion::Failed("denied".to_string())),
        Err(Failure::Pattern { message: "denied".to_string() })
    );
}
