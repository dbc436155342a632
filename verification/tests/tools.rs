use aocsuite::cli::{
    clean_lang_prompt, clean_target, is_yes, libs_report, packages_report, page_to_open,
    part_selector, remove_all_libs_prompt, remove_lib_prompt, required_release, run_aocsuite,
    run_input, unlocks_more, user_confirm, user_confirm_or_force, AocCliError, AocCommand,
    CleanAction, ConfigCommand, EnvAction, LibAction, Prerequisite, RunInput,
};
use aocsuite::client::AocPage;
use aocsuite::config::{AocConfig, AocConfigError, ConfigOpt};
use aocsuite::content::AocContentFile;
use aocsuite::editor::{
    open_solution_files, resolve_editor_type, AocEditorError, ArgsBuilder, EditArgsBuilder, Editor, EditorCommand,
    EditorType, GenericArgs, VimArgs,
};
use aocsuite::git::{
    get_default_gitignore_content, get_gitignore_path, is_interactive_command, is_simple_clone,
    run_git_command, run_git_command_capture, run_git_command_interactive, AocGitError, GitPlan,
};
use aocsuite::lang::command::CommandOutput;
use aocsuite::lang::languages::LanguageType;
use aocsuite::paths::WorkPath;
use aocsuite::puzzle::{EasternTime, Exercise, PuzzleNotReleasedError};
use aocsuite::text::trim;

fn strings(v: &[&str]) -> Vec<String> {
    v.iter().map(|s| s.to_string()).collect()
}

#[test]
fn settings_have_keys_and_variables() {
    assert_eq!(ConfigOpt::Language.to_string(), "language");
    assert_eq!(ConfigOpt::Year.to_string(), "year");
    assert_eq!(ConfigOpt::Editor.to_string(), "editor");
    assert_eq!(ConfigOpt::Session.to_string(), "session");
    assert_eq!(ConfigOpt::TemplateDir.to_string(), "template_dir");
    assert_eq!(ConfigOpt::Session.env_var(), "AOC_SESSION");
    assert_eq!(ConfigOpt::Language.env_var(), "AOC_LANGUAGE");
    assert_eq!(ConfigOpt::Year.env_var(), "AOC_YEAR");
    assert_eq!(ConfigOpt::Editor.env_var(), "EDITOR");
    assert_eq!(ConfigOpt::TemplateDir.env_var(), "AOC_TEMPLATE_DIR");
}

#[test]
fn settings_are_looked_up() {
    let config = AocConfig::from_entries(vec![
        ("language".to_string(), "rust".to_string()),
        ("year".to_string(), "2020".to_string()),
        ("language".to_string(), "python".to_string()),
    ]);
    assert_eq!(config.get(ConfigOpt::Language, None), Some("python".to_string()));
    assert_eq!(
        config.get(ConfigOpt::Language, Some("rust".to_string())),
        Some("python".to_string())
    );
    assert_eq!(config.get(ConfigOpt::Session, Some("s3cr3t".to_string())), Some("s3cr3t".to_string()));
    assert_eq!(config.get(ConfigOpt::Session, None), None);
    assert_eq!(config.get_ok(ConfigOpt::Year, None), Ok("2020".to_string()));
    assert_eq!(
        config.get_ok(ConfigOpt::Editor, None),
        Err(AocConfigError::Get { key: ConfigOpt::Editor })
    );
    assert_eq!(config.get_or_default(ConfigOpt::Year, "1999".to_string()), "2020");
    assert_eq!(config.get_or_default(ConfigOpt::Editor, "vim".to_string()), "vim");
    let mut entries = config.entries();
    entries.sort();
    assert_eq!(
        entries,
        vec![
            ("language".to_string(), "python".to_string()),
            ("year".to_string(), "2020".to_string())
        ]
    );
    assert_eq!(AocConfig::new().get(ConfigOpt::Year, None), None);
}

#[test]
fn settings_are_stored_trimmed_or_dropped() {
    let mut config = AocConfig::new();
    config.set(ConfigOpt::Editor, "  nvim \n");
    assert_eq!(config.get(ConfigOpt::Editor, None), Some("nvim".to_string()));
    config.set(ConfigOpt::Year, "2021");
    config.set(ConfigOpt::Editor, "code\n");
    assert_eq!(config.get(ConfigOpt::Editor, None), Some("code".to_string()));
    assert_eq!(config.get(ConfigOpt::Year, None), Some("2021".to_string()));
    assert_eq!(config.entries().len(), 2);
    config.set(ConfigOpt::Editor, "   \n");
    assert_eq!(config.get(ConfigOpt::Editor, None), None);
    assert_eq!(config.get(ConfigOpt::Year, None), Some("2021".to_string()));
    assert_eq!(AocConfig::prompt(ConfigOpt::Year, None), "Enter value for year: ");
    assert_eq!(AocConfig::prompt(ConfigOpt::Year, Some("2021")), "Enter value for year [2021]: ");
    for case in ["", " ", " a ", "\t a b \r\n", "a", "\u{3000}x\u{a0}", "  é  "] {
        assert_eq!(trim(case), case.trim(), "trimming {:?}", case);
    }
}

#[test]
fn editors_get_their_arguments() {
    let vim = VimArgs {};
    assert_eq!(
        vim.solution_command("p.md", "e.txt", "s.rs", "i.txt"),
        strings(&["s.rs", "i.txt", "+vsplit e.txt", "+split p.md"])
    );
    assert_eq!(vim.files_command(vec!["a", "b"]), strings(&["a", "b"]));
    let generic = GenericArgs {};
    assert_eq!(
        generic.solution_command("p.md", "e.txt", "s.rs", "i.txt"),
        strings(&["p.md", "e.txt", "s.rs", "i.txt"])
    );
    assert_eq!(generic.files_command(vec![]), Vec::<String>::new());
    assert_eq!(EditorType::Neovim.to_args_builder(), ArgsBuilder::Vim(VimArgs {}));
    assert_eq!(EditorType::Vim.to_args_builder(), ArgsBuilder::Vim(VimArgs {}));
    for editor in [
        EditorType::Code,
        EditorType::Helix,
        EditorType::Emacs,
        EditorType::Gedit,
        EditorType::Nano,
        EditorType::Sublime,
    ] {
        assert_eq!(editor.to_args_builder(), ArgsBuilder::Generic(GenericArgs {}));
    }
    assert_eq!(
        EditorType::Vim.to_args_builder().solution_command("p", "e", "s", "i"),
        strings(&["s", "i", "+vsplit e", "+split p"])
    );
}

#[test]
fn editors_by_name() {
    assert_eq!(EditorType::from_lowercase("nvim"), Some(EditorType::Neovim));
    assert_eq!(EditorType::from_lowercase("neovim"), Some(EditorType::Neovim));
    assert_eq!(EditorType::from_lowercase("vim"), Some(EditorType::Vim));
    assert_eq!(EditorType::from_lowercase("code"), Some(EditorType::Code));
    assert_eq!(EditorType::from_lowercase("hx"), Some(EditorType::Helix));
    assert_eq!(EditorType::from_lowercase("helix"), Some(EditorType::Helix));
    assert_eq!(EditorType::from_lowercase("emacs"), Some(EditorType::Emacs));
    assert_eq!(EditorType::from_lowercase("gedit"), Some(EditorType::Gedit));
    assert_eq!(EditorType::from_lowercase("nano"), Some(EditorType::Nano));
    assert_eq!(EditorType::from_lowercase("subl"), Some(EditorType::Sublime));
    assert_eq!(EditorType::from_lowercase("sublime"), Some(EditorType::Sublime));
    assert_eq!(EditorType::from_lowercase("Vim"), None);
    assert_eq!(EditorType::from_found_name("Vim", true, "vim"), Ok(EditorType::Vim));
    assert_eq!(
        EditorType::from_found_name("Vim", false, "vim"),
        Err(AocEditorError::NotFound("Vim".to_string()))
    );
    assert_eq!(
        EditorType::from_found_name("ED", true, "ed"),
        Err(AocEditorError::Invalid("ed".to_string()))
    );
    assert_eq!(
        EditorType::from_str("surely-no-such-editor-is-installed"),
        Err(AocEditorError::NotFound("surely-no-such-editor-is-installed".to_string()))
    );
    assert_eq!(EditorType::Helix.program_name(), "hx");
    assert_eq!(EditorType::Sublime.program_if_found(true), Ok("subl".to_string()));
    assert_eq!(
        EditorType::Sublime.program_if_found(false),
        Err(AocEditorError::NotFound("subl".to_string()))
    );
    match EditorType::Gedit.to_program() {
        Ok(program) => assert_eq!(program, "gedit"),
        Err(e) => assert_eq!(e, AocEditorError::NotFound("gedit".to_string())),
    }
    assert_eq!(resolve_editor_type(Some(EditorType::Code), Ok("vim".to_string())), Ok(EditorType::Code));
    assert_eq!(
        resolve_editor_type(None, Err("environment variable not found".to_string())),
        Err(AocEditorError::Var("environment variable not found".to_string()))
    );
    assert!(resolve_editor_type(None, Ok("surely-no-such-editor-is-installed".to_string())).is_err());
}

#[test]
fn editors_that_were_found_can_be_started() {
    let editor = Editor::from_found(&EditorType::Helix, true).unwrap();
    assert_eq!(editor.program(), "hx");
    assert_eq!(editor.open("a.rs"), strings(&["a.rs"]));
    assert_eq!(editor.open_solution("p", "e", "s", "i"), strings(&["p", "e", "s", "i"]));
    assert_eq!(editor.run(true), Ok(()));
    assert_eq!(editor.run(false), Err(AocEditorError::RunProgram("hx".to_string())));
    assert_eq!(
        Editor::from_found(&EditorType::Helix, false),
        Err(AocEditorError::NotFound("hx".to_string()))
    );
    let command = EditorCommand::from_found(&EditorType::Neovim, true).unwrap();
    assert_eq!(command.program(), "nvim");
    assert_eq!(
        command.open_solution("p", "e", "s", "i"),
        strings(&["s", "i", "+vsplit e", "+split p"])
    );
    assert_eq!(command.run(false), Err(AocEditorError::RunProgram("nvim".to_string())));
    assert_eq!(
        EditorCommand::from_found(&EditorType::Code, false),
        Err(AocEditorError::NotFound("code".to_string()))
    );
}

#[test]
fn editor_runs_are_judged() {
    match Editor::new(&EditorType::Nano) {
        Ok(editor) => {
            assert_eq!(editor.program(), "nano");
            assert_eq!(editor.open("a.rs"), strings(&["a.rs"]));
            assert_eq!(editor.open_solution("p", "e", "s", "i"), strings(&["p", "e", "s", "i"]));
            assert_eq!(editor.run(true), Ok(()));
            assert_eq!(editor.run(false), Err(AocEditorError::RunProgram("nano".to_string())));
        }
        Err(e) => assert_eq!(e, AocEditorError::NotFound("nano".to_string())),
    }
    match EditorCommand::new(&EditorType::Vim) {
        Ok(command) => {
            assert_eq!(command.program(), "vim");
            assert_eq!(
                command.open_solution("p", "e", "s", "i"),
                strings(&["s", "i", "+vsplit e", "+split p"])
            );
            assert_eq!(command.run(true), Ok(()));
            assert_eq!(command.run(false), Err(AocEditorError::RunProgram("vim".to_string())));
        }
        Err(e) => assert_eq!(e, AocEditorError::NotFound("vim".to_string())),
    }
}

#[test]
fn git_commands_that_need_the_terminal() {
    assert!(!is_interactive_command(&strings(&[])));
    assert!(is_interactive_command(&strings(&["commit"])));
    assert!(is_interactive_command(&strings(&["commit", "-a"])));
    assert!(!is_interactive_command(&strings(&["commit", "-m", "msg"])));
    assert!(!is_interactive_command(&strings(&["commit", "--message=msg"])));
    assert!(!is_interactive_command(&strings(&["commit", "--messages"])));
    assert!(is_interactive_command(&strings(&["commit", "-am", "msg"])));
    assert!(is_interactive_command(&strings(&["rebase", "-i", "HEAD~2"])));
    assert!(is_interactive_command(&strings(&["rebase", "--interactive"])));
    assert!(!is_interactive_command(&strings(&["rebase", "main"])));
    for command in ["add", "checkout", "reset"] {
        assert!(is_interactive_command(&strings(&[command, "-p"])));
        assert!(is_interactive_command(&strings(&[command, "--patch"])));
        assert!(!is_interactive_command(&strings(&[command, "."])));
    }
    assert!(is_interactive_command(&strings(&["difftool"])));
    assert!(is_interactive_command(&strings(&["mergetool"])));
    assert!(!is_interactive_command(&strings(&["status"])));
    assert!(!is_interactive_command(&strings(&["log", "-p"])));
}

#[test]
fn git_clones_have_one_form() {
    assert_eq!(is_simple_clone(&strings(&["status"])), Ok(false));
    assert_eq!(is_simple_clone(&strings(&["clone", "repo"])), Ok(true));
    assert_eq!(is_simple_clone(&strings(&["clone"])), Err(AocGitError::Clone));
    assert_eq!(is_simple_clone(&strings(&["clone", "repo", "dir"])), Err(AocGitError::Clone));
}

#[test]
fn git_commands_are_planned() {
    let dir = WorkPath::new("/home/u/.local/share").join("aocsuite");
    let ignore = get_gitignore_path(&dir);
    assert_eq!(ignore.path.display(), "/home/u/.local/share/aocsuite/.gitignore");
    assert_eq!(ignore.default_content, get_default_gitignore_content());
    assert!(ignore.default_content.contains("target/"));
    let (_, plan) = run_git_command(&strings(&["status"]), &dir).unwrap();
    assert_eq!(plan, GitPlan::Capture { args: strings(&["status"]), dir: dir.duplicate() });
    let (_, plan) = run_git_command(&strings(&["commit"]), &dir).unwrap();
    assert_eq!(plan, GitPlan::Interactive { args: strings(&["commit"]), dir: dir.duplicate() });
    let (_, plan) = run_git_command(&strings(&["clone", "repo"]), &dir).unwrap();
    assert_eq!(
        plan,
        GitPlan::Capture {
            args: strings(&["clone", "repo", "aocsuite"]),
            dir: WorkPath::new("/home/u/.local/share")
        }
    );
    assert_eq!(
        run_git_command(&strings(&["clone", "a", "b"]), &dir).map(|_| ()),
        Err(AocGitError::Clone)
    );
}

fn output(success: bool, code: Option<i32>, stdout: &str, stderr: &str) -> CommandOutput {
    CommandOutput { success, code, stdout: stdout.to_string(), stderr: stderr.to_string() }
}

#[test]
fn git_output_is_judged() {
    assert_eq!(run_git_command_capture(&output(true, Some(0), "ok\n", "")), Ok("ok\n".to_string()));
    assert_eq!(
        run_git_command_capture(&output(false, Some(1), "usage: git", "")),
        Ok("usage: git".to_string())
    );
    assert_eq!(
        run_git_command_capture(&output(false, Some(128), "x", "fatal: not a repository")),
        Err(AocGitError::CommandFailed {
            code: 128,
            stderr: "fatal: not a repository".to_string()
        })
    );
    assert_eq!(
        run_git_command_capture(&output(false, None, "", "")),
        Err(AocGitError::CommandFailed { code: 1, stderr: String::new() })
    );
    assert_eq!(run_git_command_interactive(), "");
}

fn at(year: i32, month: u32, day: u32) -> EasternTime {
    EasternTime { year, month, day, hour: 10, minute: 0, second: 0 }
}

#[test]
fn commands_wait_for_what_they_need() {
    let run = AocCommand::Run { language: None, part: None, test: None };
    assert_eq!(required_release(&run), Prerequisite::Puzzle);
    assert_eq!(required_release(&AocCommand::View), Prerequisite::Puzzle);
    assert_eq!(required_release(&AocCommand::Open { language: None }), Prerequisite::Puzzle);
    assert_eq!(
        required_release(&AocCommand::Submit { part: Exercise::One, answer: "1".to_string() }),
        Prerequisite::Puzzle
    );
    assert_eq!(required_release(&AocCommand::Calendar), Prerequisite::Year);
    assert_eq!(required_release(&AocCommand::Leaderboard { id: None }), Prerequisite::Year);
    assert_eq!(required_release(&AocCommand::Uninstall), Prerequisite::Open);
    assert_eq!(required_release(&AocCommand::GitIgnore), Prerequisite::Open);
    assert_eq!(
        required_release(&AocCommand::Config { command: ConfigCommand::Get { key: ConfigOpt::Year } }),
        Prerequisite::Open
    );
    assert_eq!(
        required_release(&AocCommand::Env { action: EnvAction::List, language: None }),
        Prerequisite::Open
    );
    assert_eq!(
        required_release(&AocCommand::Lib { action: LibAction::List, language: Some(LanguageType::Rust) }),
        Prerequisite::Open
    );
    assert_eq!(
        required_release(&AocCommand::Clean {
            action: CleanAction::Cache { all: true, year_all: false, force: false }
        }),
        Prerequisite::Open
    );
    assert_eq!(run_aocsuite(&run, 5, 2024, &at(2024, 12, 5)), Ok(()));
    assert_eq!(
        run_aocsuite(&run, 6, 2024, &at(2024, 12, 5)),
        Err(AocCliError::Unreleased(PuzzleNotReleasedError { day: 6, year: 2024 }))
    );
    assert_eq!(run_aocsuite(&AocCommand::Calendar, 1, 2023, &at(2024, 6, 1)), Ok(()));
    assert_eq!(
        run_aocsuite(&AocCommand::Calendar, 1, 2024, &at(2024, 6, 1)),
        Err(AocCliError::Unreleased(PuzzleNotReleasedError { day: 1, year: 2024 }))
    );
    assert_eq!(run_aocsuite(&AocCommand::Uninstall, 99, 1, &at(2024, 6, 1)), Ok(()));
    assert_eq!(page_to_open(&AocCommand::View, 3, 2024), Some(AocPage::Puzzle(3, 2024)));
    assert_eq!(
        page_to_open(&AocCommand::Leaderboard { id: Some(7) }, 3, 2024),
        Some(AocPage::Leaderboard(2024, Some(7)))
    );
    assert_eq!(page_to_open(&AocCommand::Calendar, 3, 2024), None);
}

#[test]
fn runs_are_prepared() {
    assert_eq!(part_selector(None), "both");
    assert_eq!(part_selector(Some(Exercise::One)), "1");
    assert_eq!(part_selector(Some(Exercise::Two)), "2");
    assert_eq!(run_input(None, 1, 2024), RunInput::Content(AocContentFile::input(1, 2024)));
    assert_eq!(
        run_input(Some(String::new()), 1, 2024),
        RunInput::Content(AocContentFile::example(1, 2024))
    );
    assert_eq!(
        run_input(Some("my.txt".to_string()), 1, 2024),
        RunInput::Given("my.txt".to_string())
    );
    assert!(unlocks_more(&Exercise::One));
    assert!(!unlocks_more(&Exercise::Two));
}

#[test]
fn answers_that_mean_yes() {
    for yes in ["", "y", "Y", "yes", "YES", " Yes \n", "\n"] {
        assert!(user_confirm(yes), "{:?} means yes", yes);
    }
    for no in ["n", "no", "yess", "y e s", "ja"] {
        assert!(!user_confirm(no), "{:?} does not mean yes", no);
    }
    assert!(is_yes("y") && is_yes("yes") && is_yes(""));
    assert!(!is_yes("Y"));
    assert!(user_confirm_or_force(None, true));
    assert!(user_confirm_or_force(Some("no"), true));
    assert!(!user_confirm_or_force(Some("no"), false));
    assert!(user_confirm_or_force(Some("y\n"), false));
}

#[test]
fn questions_and_reports() {
    let target = clean_target(true, false, 3, 2024);
    assert_eq!((target.day, target.year), (None, None));
    assert_eq!(
        target.prompt,
        "Do you want to delete all cached AoC files (puzzles, inputs, examples and calendar) (Y/n) : "
    );
    let target = clean_target(false, true, 3, 2024);
    assert_eq!((target.day, target.year), (None, Some(2024)));
    assert_eq!(
        target.prompt,
        "Do you want to delete all cached AoC files for 2024 (puzzles, inputs, examples and calendar) (Y/n) : "
    );
    let target = clean_target(false, false, 3, 2024);
    assert_eq!((target.day, target.year), (Some(3), Some(2024)));
    assert_eq!(
        target.prompt,
        "Do you want to delete all cached AoC files for day 3 in 2024 (puzzles, inputs, examples and calendar) (Y/n) : "
    );
    assert_eq!(packages_report(&vec![]), strings(&["No packages installed"]));
    assert_eq!(
        packages_report(&strings(&["serde", "regex"])),
        strings(&["Installed packages:", "  serde", "  regex"])
    );
    assert_eq!(libs_report(&vec![]), strings(&["No library files found"]));
    assert_eq!(libs_report(&strings(&["grid"])), strings(&["Current library names:", "  grid"]));
    assert_eq!(
        remove_all_libs_prompt(3, "rust"),
        "Do you want to delete 3 libary files for rust (Y/n) : "
    );
    assert_eq!(
        remove_lib_prompt("grid", "python"),
        "Do you want to delete the library grid for python (Y/n) : "
    );
    assert_eq!(clean_lang_prompt("rust"), "Do you want to delete caches for rust  (Y/n) : ");
}

#[test]
fn editor_is_started_on_the_files_of_a_puzzle() {
    match open_solution_files(Some(EditorType::Vim), Ok("nano".to_string()), "p", "e", "s", "i") {
        Ok(call) => {
            assert_eq!(call.program, "vim");
            assert_eq!(call.args, strings(&["s", "i", "+vsplit e", "+split p"]));
        }
        Err(e) => assert_eq!(e, AocEditorError::NotFound("vim".to_string())),
    }
    assert_eq!(
        open_solution_files(None, Err("not set".to_string()), "p", "e", "s", "i"),
        Err(AocEditorError::Var("not set".to_string()))
    );
    assert_eq!(
        open_solution_files(None, Ok("surely-no-such-editor-is-installed".to_string()), "p", "e", "s", "i"),
        Err(AocEditorError::NotFound("surely-no-such-editor-is-installed".to_string()))
    );
}
