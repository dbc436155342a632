use aocsuite::calendar::{
    build_color_map, color_map_from, join_rows, paint, parse_hex_color, process_calendar_content,
    read_color, render_calendar, stars_in_label, CalendarElement, CalendarNode, CalendarStars,
    Segment,
};
use aocsuite::manifest::{
    update_root_cargo, write_default_exercise_cargo, write_default_lib_file,
    write_default_main_file, write_root_cargo, AocParseError,
};
use aocsuite::paths::WorkPath;
use aocsuite::puzzle::EasternTime;
use aocsuite::scaffold::{
    base_language_dir, get_language_runner, package_path_from_root, parse_args, run_aocsuite,
    run_command, scaffold, AocArgs, ArgFault, Command, FileSource, Language, LanguageRunner,
    RustLanguage, UnreleasedError,
};

fn text(s: &str) -> CalendarNode {
    CalendarNode::Text(s.to_string())
}

fn element(name: &str, class: &str, label: &str, children: Vec<CalendarNode>) -> CalendarElement {
    CalendarElement {
        name: name.to_string(),
        class: class.to_string(),
        aria_label: label.to_string(),
        children,
    }
}

fn node(name: &str, class: &str, label: &str, children: Vec<CalendarNode>) -> CalendarNode {
    CalendarNode::Element(element(name, class, label, children))
}

fn seg(text: &str, hex: &str) -> Segment {
    Segment { text: text.to_string(), hex: hex.to_string() }
}

fn colors() -> Vec<(String, String)> {
    color_map_from(&vec![("g0".to_string(), "#488813".to_string())])
}

#[test]
fn colours_are_read() {
    assert_eq!(parse_hex_color("#ff8000"), Some((255, 128, 0)));
    assert_eq!(parse_hex_color("#FFFFFF"), Some((255, 255, 255)));
    assert_eq!(parse_hex_color("#000000"), Some((0, 0, 0)));
    assert_eq!(parse_hex_color("#+f+0+a"), Some((15, 0, 10)));
    assert_eq!(parse_hex_color("#ff800"), None);
    assert_eq!(parse_hex_color("#ff80000"), None);
    assert_eq!(parse_hex_color("ff8000#"), None);
    assert_eq!(parse_hex_color("#gg0000"), None);
    assert_eq!(parse_hex_color("#-10000"), None);
    assert_eq!(parse_hex_color("#f+0000"), None);
    assert_eq!(parse_hex_color(""), None);
    assert_eq!(read_color("#ff8000"), Some((255, 128, 0)));
    assert_eq!(read_color("#ff80é"), None);
}

#[test]
fn colour_table_comes_from_the_style_sheet() {
    let html = r#"
    <style>
    .calendar .calendar-color-g0 { color:#488813; }
    .calendar .calendar-color-g1 { color:#4d8b03; }
    .calendar .calendar-color-c { color:#eeeeee; }
    .calendar .calendar-color-g0 {color: #000001;}
    .calendar .calendar-color-bad { color:#12345; }
    </style>"#;
    let map = build_color_map(html);
    let want: Vec<(String, String)> = [
        ("calendar-day", "#cccccc"),
        ("calendar-mark-complete", "#ffff66"),
        ("calendar-mark-verycomplete", "#ffff66"),
        ("calendar-color-g0", "#488813"),
        ("calendar-color-g1", "#4d8b03"),
        ("calendar-color-c", "#eeeeee"),
        ("calendar-color-g0", "#000001"),
    ]
    .iter()
    .map(|(a, b)| (a.to_string(), b.to_string()))
    .collect();
    assert_eq!(map, want);
    assert_eq!(build_color_map("").len(), 3);
}

#[test]
fn stars_are_read_off_the_label() {
    assert_eq!(stars_in_label("Day 1, two stars"), Some(CalendarStars::Two));
    assert_eq!(stars_in_label("Day 1, one star"), Some(CalendarStars::One));
    assert_eq!(stars_in_label("Day 1"), None);
    assert_eq!(stars_in_label(""), None);
    assert_eq!(stars_in_label("one star, two stars"), Some(CalendarStars::Two));
}

#[test]
fn text_is_cut_into_rows() {
    let pre = element("pre", "calendar", "", vec![text("ab\ncd\n\nef")]);
    let rows = process_calendar_content(&pre, &colors(), None);
    assert_eq!(
        rows,
        vec![
            vec![seg("ab", "#666666")],
            vec![seg("cd", "#666666")],
            vec![],
            vec![seg("ef", "#666666")]
        ]
    );
    let pre = element("pre", "calendar", "", vec![text("\n\nab\n")]);
    assert_eq!(process_calendar_content(&pre, &colors(), None), vec![vec![seg("ab", "#666666")]]);
    let pre = element("pre", "calendar", "", vec![]);
    assert_eq!(process_calendar_content(&pre, &colors(), None), Vec::<Vec<Segment>>::new());
    let pre = element("pre", "calendar", "", vec![CalendarNode::Other, text("")]);
    assert_eq!(process_calendar_content(&pre, &colors(), None), Vec::<Vec<Segment>>::new());
}

#[test]
fn spans_are_shown_by_stars() {
    let day = |label: &str| {
        node(
            "a",
            "",
            label,
            vec![
                node("span", "calendar-color-g0", "", vec![text("~~")]),
                node("span", "calendar-day", "", vec![text(" 1")]),
                node("span", "calendar-mark-complete", "", vec![text("*")]),
                node("span", "calendar-mark-verycomplete", "", vec![text("*")]),
                node("span", "unknown", "", vec![node("b", "", "", vec![])]),
                text("\n"),
            ],
        )
    };
    let pre = element("pre", "calendar", "", vec![day("Day 1, two stars")]);
    assert_eq!(
        process_calendar_content(&pre, &colors(), None),
        vec![vec![
            seg("~~", "#488813"),
            seg(" 1", "#cccccc"),
            seg("*", "#ffff66"),
            seg("*", "#ffff66"),
            seg("", "#cccccc")
        ]]
    );
    let pre = element("pre", "calendar", "", vec![day("Day 1, one star")]);
    assert_eq!(
        process_calendar_content(&pre, &colors(), None),
        vec![vec![
            seg("~~", "#488813"),
            seg(" 1", "#cccccc"),
            seg("*", "#ffff66"),
            seg("", "#cccccc")
        ]]
    );
    let pre = element("pre", "calendar", "", vec![day("Day 1")]);
    assert_eq!(process_calendar_content(&pre, &colors(), None), Vec::<Vec<Segment>>::new());
    let pre = element("pre", "calendar", "", vec![node("span", "calendar-day", "", vec![text("x")])]);
    assert_eq!(process_calendar_content(&pre, &colors(), None), Vec::<Vec<Segment>>::new());
    assert_eq!(
        process_calendar_content(&pre, &colors(), Some(CalendarStars::One)),
        vec![vec![seg("x", "#cccccc")]]
    );
}

#[test]
fn nested_rows_are_merged() {
    let pre = element(
        "pre",
        "calendar",
        "",
        vec![
            text("a"),
            node("a", "", "two stars", vec![text("b\nc\nd")]),
            node("i", "", "", vec![text("e")]),
            text("\nf"),
        ],
    );
    assert_eq!(
        process_calendar_content(&pre, &colors(), None),
        vec![
            vec![seg("a", "#666666"), seg("b", "#666666")],
            vec![seg("c", "#666666")],
            vec![seg("d", "#666666"), seg("e", "#666666")],
            vec![seg("f", "#666666")]
        ]
    );
}

#[test]
fn rows_are_painted_and_joined() {
    assert_eq!(paint(&seg("plain", "none")), "plain");
    assert_eq!(paint(&seg("plain", "#12345")), "plain");
    assert!(paint(&seg("Item A", "#488813")).contains("Item A"));
    assert_eq!(
        join_rows(&vec![
            vec!["a".to_string(), "b".to_string()],
            vec![],
            vec!["c".to_string()]
        ]),
        "ab\n\nc"
    );
    assert_eq!(join_rows(&vec![]), "");
    let pre = element(
        "pre",
        "calendar",
        "",
        vec![node(
            "a",
            "",
            "Day 1, two stars",
            vec![
                node("span", "calendar-color-g0", "", vec![text("Item A")]),
                text("\n"),
                node("span", "calendar-color-g1", "", vec![text("Item B")]),
            ],
        )],
    );
    let html = "<style>.calendar-color-g0 { color:#488813; }</style>";
    let shown = render_calendar(html, Some(&pre));
    assert!(shown.contains("Item A"));
    assert!(shown.contains("Item B"));
    assert_eq!(shown.matches('\n').count(), 1);
    assert_eq!(render_calendar(html, None), "");
}

#[test]
fn workspace_manifests() {
    assert_eq!(
        write_root_cargo(),
        "[package]\nname = \"aocsuite-rust\"\nversion = \"0.1.0\"\nedition = \"2021\"\n"
    );
    assert_eq!(
        write_default_exercise_cargo("year2024/day1"),
        "[package]\nname = \"year2024/day1\"\nversion = \"0.1.0\"\nedition = \"2021\"\n"
    );
    let inline = write_default_main_file("p");
    assert!(inline.contains("name = \"p\""), "text was {:?}", inline);
    assert_eq!(write_default_lib_file("p"), inline);
}

#[test]
fn packages_become_workspace_members() {
    let first = update_root_cargo(&write_root_cargo(), 1, 2024).unwrap();
    assert!(first.contains("[workspace]"), "text was {:?}", first);
    assert!(first.contains("members = [\"year2024/day1\"]"), "text was {:?}", first);
    let again = update_root_cargo(&first, 1, 2024).unwrap();
    assert_eq!(again, first);
    let second = update_root_cargo(&first, 2, 2024).unwrap();
    assert!(second.contains("\"year2024/day1\", \"year2024/day2\""), "text was {:?}", second);
    let replaced = update_root_cargo("[workspace]\nmembers = \"x\"\n", 1, 2024).unwrap();
    assert!(replaced.contains("members = [\"year2024/day1\"]"), "text was {:?}", replaced);
    match update_root_cargo("workspace = 1\n", 1, 2024) {
        Err(AocParseError::WorkspaceNotATable) => {}
        other => panic!("unexpected result {:?}", other),
    }
    match update_root_cargo("not toml at all [", 1, 2024) {
        Err(AocParseError::TomlParseError(_)) => {}
        other => panic!("unexpected result {:?}", other),
    }
}

#[test]
fn packages_of_days() {
    assert_eq!(package_path_from_root(1, 2024), vec!["year2024".to_string(), "day1".to_string()]);
    assert_eq!(base_language_dir(&Language::Rust).display(), "rust");
    assert_eq!(base_language_dir(&Language::Python).display(), "python");
    let rust = get_language_runner(&Language::Rust);
    assert_eq!(rust, RustLanguage::new(WorkPath::new("rust")));
    assert_eq!(get_language_runner(&Language::Python), RustLanguage::new(WorkPath::new("python")));
    assert_eq!(rust.root_cargo_path().display(), "rust/Cargo.toml");
    assert_eq!(rust.package_path(1, 2024).display(), "rust/year2024/day1");
    assert_eq!(RustLanguage::package_name(1, 2024), "year2024/day1");
    assert_eq!(
        rust.compile(1, 2024),
        vec!["build".to_string(), "-p".to_string(), "year2024/day1".to_string()]
    );
    assert_eq!(rust.run(1, 2024).display(), "rust/target/debug/year2024/day1");
    let files = rust.scaffold(1, 2024, None);
    assert_eq!(files.len(), 3);
    assert_eq!(files[0].dest.display(), "rust/year2024/day1/Cargo.toml");
    assert_eq!(files[1].dest.display(), "rust/year2024/day1/main.rs");
    assert_eq!(files[2].dest.display(), "rust/year2024/day1/lib.rs");
    assert!(files.iter().all(|f| f.template.is_none()));
    let templates = WorkPath::new("rust").join("templates");
    let mut files = rust.scaffold(1, 2024, Some(&templates));
    assert_eq!(files[1].template.as_ref().unwrap().display(), "rust/templates/main.rs");
    let lib = files.pop().unwrap();
    let main = files.pop().unwrap();
    assert_eq!(
        RustLanguage::handle_file(main, true),
        FileSource::Template(WorkPath::new("rust").join("templates").join("main.rs"))
    );
    assert_eq!(RustLanguage::handle_file(lib, false), FileSource::Default);
    assert_eq!(scaffold(Some(WorkPath::new("mine")), &Language::Rust, true), Some(WorkPath::new("mine")));
    assert_eq!(scaffold(None, &Language::Rust, true), Some(templates));
    assert_eq!(scaffold(None, &Language::Rust, false), None);
}

#[test]
fn days_and_years_of_commands_are_checked() {
    let args = |day, year| AocArgs { command: Command::Calendar, day, year };
    assert_eq!(parse_args(args(None, None), 2024), Ok(args(None, None)));
    assert_eq!(parse_args(args(Some(25), Some(2015)), 2024), Ok(args(Some(25), Some(2015))));
    assert_eq!(parse_args(args(Some(0), None), 2024), Err(ArgFault::Day(0)));
    assert_eq!(parse_args(args(Some(26), Some(1)), 2024), Err(ArgFault::Day(26)));
    assert_eq!(
        parse_args(args(Some(1), Some(2014)), 2024),
        Err(ArgFault::Year { current: 2024, given: 2014 })
    );
    assert_eq!(
        parse_args(args(None, Some(2025)), 2024),
        Err(ArgFault::Year { current: 2024, given: 2025 })
    );
    assert_eq!(ArgFault::Day(26).message(), "Error: Day must be between 1 and 25, but got 26");
    assert_eq!(
        ArgFault::Year { current: 2024, given: 2025 }.message(),
        "Error: Year must be between 2015 and 2024, but got 2025"
    );
    let now = EasternTime { year: 2024, month: 12, day: 4, hour: 1, minute: 2, second: 3 };
    assert_eq!(run_aocsuite(None, None, &now), (4, 2024));
    assert_eq!(run_aocsuite(Some(1), Some(2020), &now), (1, 2020));
    assert_eq!(run_command(&Command::New { template: None }, 4, 2024, &now), Some(Ok(())));
    assert_eq!(
        run_command(&Command::New { template: None }, 5, 2024, &now),
        Some(Err(UnreleasedError { day: 5, year: 2024 }))
    );
    assert_eq!(run_command(&Command::Edit, 4, 2024, &now), None);
    assert_eq!(
        UnreleasedError { day: 5, year: 2024 }.to_string(),
        "Advent of code not released yet: day: 5, year 2024"
    );
}
