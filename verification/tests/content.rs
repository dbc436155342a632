use aocsuite::client::AocPage;
use aocsuite::content::{
    cache_is_valid, clean_cache, fetch_aocfile, missing_dir, page_from_file, update_cache,
    update_cache_status, AocContentDir, AocContentFile, AocFileError, AocFileType,
};
use aocsuite::paths::{resolve_aocsuite_dir, WorkPath};
use aocsuite::submission::AocSubmissionResult;

fn dir() -> AocContentDir {
    AocContentDir::new(&WorkPath::new("/data/aocsuite"))
}

#[test]
fn data_directory_is_resolved() {
    let from_xdg = resolve_aocsuite_dir(Some("/xdg".to_string()), Some("/home/u".to_string()));
    assert_eq!(from_xdg.display(), "/xdg/aocsuite");
    let from_home = resolve_aocsuite_dir(None, Some("/home/u".to_string()));
    assert_eq!(from_home.display(), "/home/u/.local/share/aocsuite");
}

#[test]
fn content_directories() {
    let d = dir();
    assert_eq!(d.root().display(), "/data/aocsuite/data");
    assert_eq!(d.yearly_data_dir(2024).display(), "/data/aocsuite/data/year2024");
    assert_eq!(d.daily_data_dir(3, 2024).display(), "/data/aocsuite/data/year2024/day3");
}

#[test]
fn content_files() {
    let d = dir();
    let puzzle = AocContentFile::puzzle(3, 2024);
    assert_eq!(puzzle, AocContentFile { file_type: AocFileType::Puzzle, day: Some(3), year: 2024 });
    assert_eq!(puzzle.local_path(&d).display(), "/data/aocsuite/data/year2024/day3/puzzle.md");
    let calendar = AocContentFile::calendar(2024);
    assert_eq!(calendar.day, None);
    assert_eq!(calendar.local_path(&d).display(), "/data/aocsuite/data/year2024/calendar.html");
    assert_eq!(calendar.cache_path(&d).display(), "/data/aocsuite/data/year2024/.aoccache.json");
    let input = AocContentFile::input(3, 2024);
    assert_eq!(input.local_path(&d).display(), "/data/aocsuite/data/year2024/day3/input.txt");
    let example = AocContentFile::example(3, 2024);
    assert_eq!(example.local_path(&d).display(), "/data/aocsuite/data/year2024/day3/example.txt");
    assert_eq!(example.to_string(), "example.txt");
    assert_eq!(puzzle.filename(), "puzzle.md");
    assert!(puzzle.updateable() && calendar.updateable());
    assert!(!input.updateable() && !example.updateable());
    assert!(puzzle.fetchable() && calendar.fetchable() && input.fetchable());
    assert!(!example.fetchable());
}

#[test]
fn files_are_fetched_when_not_up_to_date() {
    let d = dir();
    let input = AocContentFile::input(3, 2024);
    assert_eq!(input.to_path(&d, false).fetch, Some(AocPage::Input(3, 2024)));
    assert_eq!(input.to_path(&d, true).fetch, None);
    let example = AocContentFile::example(3, 2024);
    assert_eq!(example.to_path(&d, false).fetch, None);
    assert_eq!(
        example.to_path(&d, false).path.display(),
        "/data/aocsuite/data/year2024/day3/example.txt"
    );
    assert_eq!(page_from_file(&AocContentFile::puzzle(1, 2020)), Ok(AocPage::Puzzle(1, 2020)));
    assert_eq!(page_from_file(&AocContentFile::calendar(2020)), Ok(AocPage::Calendar(2020)));
    assert_eq!(
        page_from_file(&example),
        Err(AocFileError::InvalidFile("Example files cannot be downloaded".to_string()))
    );
    let plan = fetch_aocfile(&AocContentFile::puzzle(1, 2020), &d).unwrap();
    assert_eq!(plan.page, AocPage::Puzzle(1, 2020));
    assert!(plan.as_markdown);
    assert_eq!(plan.save_to.display(), "/data/aocsuite/data/year2020/day1/puzzle.md");
    let mark = plan.mark.unwrap();
    assert_eq!(mark.key, "puzzle.md");
    assert!(mark.value);
    assert_eq!(mark.cache_file.display(), "/data/aocsuite/data/year2020/day1/.aoccache.json");
    let plan = fetch_aocfile(&input, &d).unwrap();
    assert!(!plan.as_markdown);
    assert_eq!(plan.mark, None);
    assert!(fetch_aocfile(&example, &d).is_err());
}

#[test]
fn correct_answers_make_pages_stale() {
    let d = dir();
    let updates = update_cache_status(&AocSubmissionResult::Correct, 3, 2024, true, &d);
    assert_eq!(updates.len(), 2);
    assert_eq!(updates[0].key, "calendar.html");
    assert_eq!(updates[0].cache_file.display(), "/data/aocsuite/data/year2024/.aoccache.json");
    assert!(!updates[0].value);
    assert_eq!(updates[1].key, "puzzle.md");
    assert_eq!(updates[1].cache_file.display(), "/data/aocsuite/data/year2024/day3/.aoccache.json");
    assert!(!updates[1].value);
    let updates = update_cache_status(&AocSubmissionResult::Correct, 3, 2024, false, &d);
    assert_eq!(updates.len(), 1);
    assert!(update_cache_status(&AocSubmissionResult::Incorrect, 3, 2024, true, &d).is_empty());
    assert!(update_cache_status(&AocSubmissionResult::RateLimited(5), 3, 2024, true, &d).is_empty());
    assert_eq!(AocContentFile::input(1, 2024).set_cache_status(&d, true), None);
}

#[test]
fn records_of_what_is_up_to_date() {
    assert!(cache_is_valid(true, Some(r#"{"puzzle.md": true}"#), "puzzle.md"));
    assert!(!cache_is_valid(false, Some(r#"{"puzzle.md": true}"#), "puzzle.md"));
    assert!(!cache_is_valid(true, None, "puzzle.md"));
    assert!(!cache_is_valid(true, Some(r#"{"puzzle.md": false}"#), "puzzle.md"));
    assert!(!cache_is_valid(true, Some(r#"{"puzzle.md": "true"}"#), "puzzle.md"));
    assert!(!cache_is_valid(true, Some(r#"{"calendar.html": true}"#), "puzzle.md"));
    assert!(!cache_is_valid(true, Some("not json"), "puzzle.md"));
    assert!(!cache_is_valid(true, Some("[true]"), "puzzle.md"));
    let created = update_cache(None, "puzzle.md", true);
    assert_eq!(created, "{\n  \"puzzle.md\": true\n}");
    assert!(cache_is_valid(true, Some(&created), "puzzle.md"));
    let cleared = update_cache(Some(&created), "puzzle.md", false);
    assert!(!cache_is_valid(true, Some(&cleared), "puzzle.md"));
    let both = update_cache(Some(&created), "calendar.html", true);
    assert!(cache_is_valid(true, Some(&both), "puzzle.md"));
    assert!(cache_is_valid(true, Some(&both), "calendar.html"));
    let fresh = update_cache(Some("garbage"), "input.txt", true);
    assert_eq!(fresh, "{\n  \"input.txt\": true\n}");
}

#[test]
fn cache_is_cleaned_by_day_year_or_whole() {
    let d = dir();
    assert_eq!(
        clean_cache(Some(2024), Some(3), &d).unwrap().display(),
        "/data/aocsuite/data/year2024/day3"
    );
    assert_eq!(clean_cache(Some(2024), None, &d).unwrap().display(), "/data/aocsuite/data/year2024");
    assert_eq!(clean_cache(None, None, &d).unwrap().display(), "/data/aocsuite/data");
    assert_eq!(
        clean_cache(None, Some(3), &d),
        Err(AocFileError::CleanError("Year was not specified but day was".to_string()))
    );
    assert_eq!(
        missing_dir(&d.yearly_data_dir(2024)),
        AocFileError::FileNotFound("/data/aocsuite/data/year2024".to_string())
    );
}
