use file_context::{Environment, EnvironmentPopulateSettings, Failure, File, ReadOutcome};

fn strings(texts: &[&str]) -> Vec<String> {
    texts.iter().map(|text| text.to_string()).collect()
}

fn bytes(text: &str) -> ReadOutcome {
    ReadOutcome::Bytes(text.as_bytes().to_vec())
}

fn file(name: &str, path: &str, contents: &str) -> File {
    File { name: name.to_string(), path: path.to_string(), contents: contents.to_string() }
}

fn trimming() -> EnvironmentPopulateSettings {
    EnvironmentPopulateSettings::default()
}

fn keeping() -> EnvironmentPopulateSettings {
    EnvironmentPopulateSettings::default().set_trim_contents(false)
}

#[test]
fn default_settings_expand_and_trim() {
    let settings = EnvironmentPopulateSettings::default();
    assert!(settings.allow_globs);
    assert!(settings.trim_contents);
}

#[test]
fn setters_change_one_setting_and_keep_the_other() {
    let settings = EnvironmentPopulateSettings::default();
    let literal = settings.set_allow_globs(false);
    assert_eq!(literal, EnvironmentPopulateSettings { allow_globs: false, trim_contents: true });
    let raw = literal.set_trim_contents(false);
    assert_eq!(raw, EnvironmentPopulateSettings { allow_globs: false, trim_contents: false });
    assert_eq!(raw.set_allow_globs(true).set_trim_contents(true), settings);
    // The value that a setter was called on is as it was.
    assert_eq!(settings, EnvironmentPopulateSettings { allow_globs: true, trim_contents: true });
}

#[test]
fn contents_are_trimmed_when_asked() {
    assert_eq!(
        File::from_file("hello.txt", bytes("  hello\n"), trimming()),
        Ok(file("hello.txt", "hello.txt", "hello"))
    );
}

#[test]
fn contents_are_kept_when_trimming_is_off() {
    assert_eq!(
        File::from_file("hello.txt", bytes("  hello\n"), keeping()),
        Ok(file("hello.txt", "hello.txt", "  hello\n"))
    );
}

#[test]
fn name_is_the_final_component() {
    let loaded = File::from_file("a/b/report.txt", bytes("x"), trimming()).unwrap();
    assert_eq!(loaded.name, "report.txt");
    assert_eq!(loaded.path, "a/b/report.txt");
}

#[test]
fn name_skips_trailing_separators_and_dots() {
    assert_eq!(File::from_file("a/b/", bytes(""), trimming()).unwrap().name, "b");
    assert_eq!(File::from_file("a/b/.", bytes(""), trimming()).unwrap().name, "b");
    assert_eq!(File::from_file("/report.txt", bytes(""), trimming()).unwrap().name, "report.txt");
}

#[test]
fn path_without_a_final_component_is_invalid() {
    for path in ["", "/", "..", "a/..", "."] {
        assert_eq!(
            File::from_file(path, bytes("text"), trimming()),
            Err(Failure::InvalidPath { path: path.to_string() })
        );
    }
}

#[test]
fn path_without_a_name_is_invalid_whatever_the_read_gave() {
    assert_eq!(
        File::from_file("/", ReadOutcome::NotFound, trimming()),
        Err(Failure::InvalidPath { path: "/".to_string() })
    );
}

#[test]
fn missing_file_fails_as_not_found() {
    assert_eq!(
        File::from_file("docs/gone.md", ReadOutcome::NotFound, trimming()),
        Err(Failure::NotFound { path: "docs/gone.md".to_string() })
    );
}

#[test]
fn unreadable_file_fails_as_io() {
    assert_eq!(
        File::from_file("docs/a.md", ReadOutcome::Failed("is a directory".to_string()), trimming()),
        Err(Failure::Io { path: "docs/a.md".to_string(), message: "is a directory".to_string() })
    );
}

#[test]
fn file_that_is_no_text_fails_to_decode() {
    assert_eq!(
        File::from_file("docs/a.bin", ReadOutcome::Bytes(vec![0x66, 0xff]), keeping()),
        Err(Failure::Decode { path: "docs/a.bin".to_string() })
    );
}

#[test]
fn from_parts_takes_the_name_it_is_given() {
    assert_eq!(
        File::from_parts("a/b", Some("given".to_string()), bytes(" x "), trimming()),
        Ok(file("given", "a/b", "x"))
    );
    assert_eq!(
        File::from_parts("a/b", None, bytes(" x "), trimming()),
        Err(Failure::InvalidPath { path: "a/b".to_string() })
    );
}

#[test]
fn population_asks_for_the_paths_in_order() {
    let paths = strings(&["b.txt", "a.txt", "b.txt"]);
    let mut population = Environment::populate_from_files(&paths, trimming()).unwrap();
    let mut asked = Vec::new();
    while let Some(path) = population.next_path() {
        asked.push(path.to_string());
        let read = bytes(&format!(" from {path} {} ", asked.len()));
        population = population.accept(read).unwrap();
    }
    assert_eq!(asked, paths);
    assert!(population.is_complete());
    assert_eq!(
        population.finish(),
        Some(Environment {
            files: vec![
                file("b.txt", "b.txt", "from b.txt 1"),
                file("a.txt", "a.txt", "from a.txt 2"),
                file("b.txt", "b.txt", "from b.txt 3"),
            ]
        })
    );
}

#[test]
fn population_keeps_its_settings() {
    let population = Environment::populate_from_files(&strings(&["a"]), keeping()).unwrap();
    assert_eq!(population.settings(), keeping());
    let loaded = population.accept(bytes(" a ")).unwrap().finish().unwrap();
    assert_eq!(loaded.files[0].contents, " a ");
}

#[test]
fn population_over_nothing_is_complete_at_once() {
    let population = Environment::populate_from_files(&[], trimming()).unwrap();
    assert_eq!(population.next_path(), None);
    assert!(population.is_complete());
    assert_eq!(population.finish(), Some(Environment { files: vec![] }));
}

#[test]
fn no_environment_before_every_path_is_loaded() {
    let paths = strings(&["a.txt", "b.txt"]);
    let population = Environment::populate_from_files(&paths, trimming()).unwrap();
    assert!(!population.is_complete());
    let population = population.accept(bytes("a")).unwrap();
    assert!(!population.is_complete());
    assert_eq!(population.next_path(), Some("b.txt"));
    assert_eq!(population.finish(), None);
}

#[test]
fn complete_population_ignores_a_further_read() {
    let population = Environment::populate_from_files(&strings(&["a.txt"]), trimming()).unwrap();
    let population = population.accept(bytes("a")).unwrap();
    let population = population.accept(ReadOutcome::NotFound).unwrap();
    assert_eq!(population.finish(), Some(Environment { files: vec![file("a.txt", "a.txt", "a")] }));
}

#[test]
fn one_bad_file_fails_the_whole_load_wherever_it_stands() {
    let paths = strings(&["one.txt", "two.txt", "three.txt", "four.txt"]);
    for bad in 0..paths.len() {
        let mut population = Environment::populate_from_files(&paths, trimming()).unwrap();
        let mut failure = None;
        let mut reads = 0;
        while let Some(_) = population.next_path() {
            let read = if reads == bad { ReadOutcome::NotFound } else { bytes("secret") };
            reads += 1;
            match population.accept(read) {
                Ok(next) => population = next,
                Err(found) => {
                    failure = Some(found);
                    break;
                }
            }
        }
        // The load stops at the bad file, and the failure names it and holds
        // nothing of what was read before.
        assert_eq!(reads, bad + 1);
        assert_eq!(failure, Some(Failure::NotFound { path: paths[bad].clone() }));
        assert!(!format!("{:?}", failure).contains("secret"));
    }
}

#[test]
fn first_failure_wins() {
    let paths = strings(&["one.txt", "", "three.txt"]);
    let population = Environment::populate_from_files(&paths, trimming()).unwrap();
    let population = population.accept(bytes("1")).unwrap();
    assert_eq!(
        population.accept(ReadOutcome::NotFound).unwrap_err(),
        Failure::InvalidPath { path: String::new() }
    );
}

#[test]
fn literal_mode_reads_a_pattern_as_a_path() {
    let input = strings(&["docs/*.md"]);
    let settings = EnvironmentPopulateSettings::default().set_allow_globs(false);
    let population = Environment::populate_from(&input, settings).unwrap();
    assert_eq!(population.next_path(), Some("docs/*.md"));
    // No file is literally named `*.md`.
    assert_eq!(
        population.accept(ReadOutcome::NotFound).unwrap_err(),
        Failure::NotFound { path: "docs/*.md".to_string() }
    );
}

#[test]
fn populate_from_expands_patterns_when_globs_are_on() {
    let input = strings(&["tests/load.r?", "[abc"]);
    let population = Environment::populate_from(&input, trimming()).unwrap();
    assert_eq!(population.next_path(), Some("tests/load.rs"));
    let population = population.accept(bytes("x")).unwrap();
    assert_eq!(population.next_path(), Some("[abc"));
}

#[test]
fn populate_from_dynamic_expands_whatever_the_settings_say() {
    let input = strings(&["tests/load.r?"]);
    let settings = EnvironmentPopulateSettings::default().set_allow_globs(false);
    let population = Environment::populate_from_dynamic(&input, settings).unwrap();
    assert_eq!(population.next_path(), Some("tests/load.rs"));
    assert_eq!(population.settings(), settings);
}

#[test]
fn populate_from_files_expands_nothing() {
    let input = strings(&["tests/load.r?"]);
    let population = Environment::populate_from_files(&input, trimming()).unwrap();
    assert_eq!(population.next_path(), Some("tests/load.r?"));
}

#[test]
fn pattern_without_a_match_loads_an_empty_environment() {
    let input = strings(&["tests/*.no_such_extension"]);
    let population = Environment::populate_from(&input, trimming()).unwrap();
    assert_eq!(population.next_path(), None);
    assert_eq!(population.finish(), Some(Environment { files: vec![] }));
}

#[test]
fn pattern_without_a_match_loads_an_empty_environment_whatever_the_settings() {
    let input = strings(&["no_such_directory_zz9/*.md"]);
    let population = Environment::populate_from_dynamic(&input, keeping()).unwrap();
    assert!(population.is_complete());
    assert_eq!(population.finish(), Some(Environment { files: vec![] }));
}

#[test]
fn populate_from_glob_takes_the_matches() {
    let population = Environment::populate_from_glob("tests/load.r?", trimming()).unwrap();
    assert_eq!(population.next_path(), Some("tests/load.rs"));
    let none = Environment::populate_from_glob("tests/*.no_such_extension", trimming()).unwrap();
    assert_eq!(none.next_path(), None);
}

#[test]
fn populate_from_glob_rejects_what_is_no_pattern() {
    assert_eq!(
        Environment::populate_from_glob("[abc", trimming()).unwrap_err(),
        Failure::InvalidPattern { pattern: "[abc".to_string() }
    );
}
