use aocsuite::lang::command::{Arg, CommandOutput, Invocation, Program, WorkspaceStep};
use aocsuite::lang::error::AocLanguageError;
use aocsuite::lang::languages::{LanguageRunner, LanguageType};
use aocsuite::lang::libs::{check_lib_name, classify, lib_name_of_file, validate_user_lib};
use aocsuite::lang::packages::{
    parse_frozen_line, parse_frozen_list, parse_tree_line, parse_tree_list,
};
use aocsuite::lang::protocol::{
    add_outcome, env_outcome, handle_command_output, remove_outcome, result_file,
    ExerciseOutput, PartResult, RunAction, RunEvent, RunState,
};
use aocsuite::lang::python::PythonRunner;
use aocsuite::lang::rust::RustRunner;
use aocsuite::lang::solve_file::SolveFile;
use aocsuite::lang::traits::{DepManager, LibManager, Solver};
use aocsuite::lang::workflow::{
    add_package, compile, editor_enviroment_vars, get_lib_filepath, get_path,
    installed_packages, list_lib_files, list_packages, prepend_value, remove_lib_file, remove_package, resolve_language,
    resolve_runner, run,
};
use aocsuite::paths::WorkPath;

fn root() -> WorkPath {
    WorkPath::new("/data/aocsuite")
}

fn rust() -> RustRunner {
    RustRunner::new(root().join("rust"))
}

fn python() -> PythonRunner {
    PythonRunner::new(root().join("python"))
}

fn text_args(call: &Invocation) -> Vec<String> {
    call.args
        .iter()
        .map(|a| match a {
            Arg::Text(t) => t.clone(),
            Arg::File(p) => p.display(),
        })
        .collect()
}

fn ok(stdout: &str) -> CommandOutput {
    CommandOutput { success: true, code: Some(0), stdout: stdout.to_string(), stderr: String::new() }
}

fn failed(stderr: &str) -> CommandOutput {
    CommandOutput { success: false, code: Some(1), stdout: String::new(), stderr: stderr.to_string() }
}

fn strings(v: &[&str]) -> Vec<String> {
    v.iter().map(|s| s.to_string()).collect()
}

#[test]
fn paths_are_written_with_slashes() {
    let p = root().join("rust").join("src");
    assert_eq!(p.display(), "/data/aocsuite/rust/src");
    assert_eq!(p.parent().unwrap().display(), "/data/aocsuite/rust");
    assert_eq!(p.file_name(), Some("src".to_string()));
    assert_eq!(root().parent(), None);
    assert_eq!(root().file_name(), None);
    assert!(p.same_as(&p.duplicate()));
    assert!(!p.same_as(&root()));
}

#[test]
fn rust_layout() {
    let r = rust();
    assert_eq!(r.get_solvefile_path(&SolveFile::Main).display(), "/data/aocsuite/rust/src/main.rs");
    assert_eq!(
        r.get_solvefile_path(&SolveFile::TemplateSolution).display(),
        "/data/aocsuite/rust/template.rs"
    );
    assert_eq!(
        r.get_solvefile_path(&SolveFile::Solution(1, 2024)).display(),
        "/data/aocsuite/rust/year2024/day1.rs"
    );
    assert_eq!(
        r.get_solvefile_path(&SolveFile::LinkedSolution(Box::new(SolveFile::Solution(1, 2024))))
            .display(),
        "/data/aocsuite/rust/src/solution.rs"
    );
    assert_eq!(r.src_dir().display(), "/data/aocsuite/rust/src");
    assert_eq!(r.manifest_path().display(), "/data/aocsuite/rust/Cargo.toml");
}

#[test]
fn python_layout() {
    let p = python();
    assert_eq!(p.get_solvefile_path(&SolveFile::Main).display(), "/data/aocsuite/python/main.py");
    assert_eq!(
        p.get_solvefile_path(&SolveFile::TemplateSolution).display(),
        "/data/aocsuite/python/template.py"
    );
    assert_eq!(
        p.get_solvefile_path(&SolveFile::Solution(25, 2015)).display(),
        "/data/aocsuite/python/year2015/day25.py"
    );
    assert_eq!(
        p.get_solvefile_path(&SolveFile::LinkedSolution(Box::new(SolveFile::TemplateSolution)))
            .display(),
        "/data/aocsuite/python/solution.py"
    );
    assert_eq!(p.get_python_path().display(), "/data/aocsuite/python/venv/bin/python");
    assert_eq!(p.get_pip_path().display(), "/data/aocsuite/python/venv/bin/pip");
    let w = PythonRunner::for_windows(root().join("python"));
    assert_eq!(w.get_python_path().display(), "/data/aocsuite/python/venv/Scripts/python.exe");
    assert_eq!(w.get_pip_path().display(), "/data/aocsuite/python/venv/Scripts/pip.exe");
}

#[test]
fn solution_path_is_the_same_each_time() {
    for language in [LanguageType::Rust, LanguageType::Python] {
        let runner = language.to_runner(&root());
        for (day, year) in [(1u32, 2015i32), (25, 2024), (9, 2020)] {
            let first = runner.get_solvefile_path(&SolveFile::Solution(day, year));
            let second = runner.get_solvefile_path(&SolveFile::Solution(day, year));
            assert_eq!(first, second);
        }
    }
}

#[test]
fn rust_calls() {
    let r = rust();
    let build = r.compile(1, 2024).unwrap();
    assert_eq!(build.program, Program::Tool("cargo".to_string()));
    assert_eq!(text_args(&build), strings(&["build", "--release"]));
    assert_eq!(build.dir.display(), "/data/aocsuite/rust");
    let call = r.run(
        1,
        2024,
        "both",
        Arg::Text("in.txt".to_string()),
        Arg::Text("out.json".to_string()),
    );
    match &call.program {
        Program::File(p) => {
            assert_eq!(p.display(), "/data/aocsuite/rust/target/release/aocsuite_solution_rust")
        }
        other => panic!("unexpected program {:?}", other),
    }
    assert_eq!(text_args(&call), strings(&["in.txt", "out.json", "both"]));
    let clean = r.clean_cache().unwrap();
    assert_eq!(text_args(&clean), strings(&["clean"]));
    assert_eq!(text_args(&r.add_package("serde")), strings(&["add", "serde"]));
    assert_eq!(text_args(&r.remove_packages("serde")), strings(&["remove", "serde"]));
    let query = r.list_packages();
    assert_eq!(query.marker.display(), "/data/aocsuite/rust/Cargo.toml");
    assert_eq!(text_args(&query.command), strings(&["tree", "--depth=1", "--prefix=none"]));
    assert_eq!(r.clean_env(), None);
    assert!(r.editor_environment_vars().is_empty());
}

#[test]
fn python_calls() {
    let p = python();
    assert_eq!(p.compile(1, 2024), None);
    assert_eq!(p.clean_cache(), None);
    let call = p.run(
        1,
        2024,
        "2",
        Arg::Text("in.txt".to_string()),
        Arg::Text("out.json".to_string()),
    );
    match &call.program {
        Program::File(path) => assert_eq!(path.display(), "/data/aocsuite/python/venv/bin/python"),
        other => panic!("unexpected program {:?}", other),
    }
    assert_eq!(
        text_args(&call),
        strings(&["/data/aocsuite/python/main.py", "in.txt", "out.json", "2"])
    );
    assert_eq!(text_args(&p.add_package("requests")), strings(&["install", "requests"]));
    assert_eq!(
        text_args(&p.remove_packages("requests")),
        strings(&["uninstall", "-y", "requests"])
    );
    let query = p.list_packages();
    assert_eq!(query.marker.display(), "/data/aocsuite/python/venv");
    assert_eq!(text_args(&query.command), strings(&["list", "--format=freeze"]));
    assert_eq!(p.clean_env().unwrap().display(), "/data/aocsuite/python/venv");
    let vars = p.editor_environment_vars();
    assert_eq!(vars.len(), 1);
    assert_eq!(vars[0].name, "PATH");
    assert_eq!(vars[0].separator, ":");
    assert_eq!(vars[0].dir.display(), "/data/aocsuite/python/venv/bin");
    assert_eq!(prepend_value("/v/bin", ":", "/usr/bin"), "/v/bin:/usr/bin");
}

#[test]
fn setup_steps_leave_alone_what_exists() {
    let r = rust();
    let steps = r.setup_solver();
    assert_eq!(steps.len(), 1);
    match &steps[0] {
        WorkspaceStep::WriteIfAbsent { path, contents } => {
            assert_eq!(path.display(), "/data/aocsuite/rust/src/main.rs");
            assert_eq!(*contents, r.main_contents());
        }
        other => panic!("unexpected step {:?}", other),
    }
    let env = r.setup_env();
    match &env[0] {
        WorkspaceStep::WriteIfAbsent { path, contents } => {
            assert_eq!(path.display(), "/data/aocsuite/rust/Cargo.toml");
            assert!(contents.contains("aocsuite-solution-rust"));
        }
        other => panic!("unexpected step {:?}", other),
    }
    assert_eq!(r.setup_solver(), steps);
    let p = python();
    let steps = p.setup_solver();
    assert_eq!(steps.len(), 1);
    match &steps[0] {
        WorkspaceStep::WriteIfAbsent { path, contents } => {
            assert_eq!(path.display(), "/data/aocsuite/python/main.py");
            assert_eq!(*contents, p.main_contents());
        }
        other => panic!("unexpected step {:?}", other),
    }
    assert_eq!(p.setup_solver(), steps);
    let env = p.setup_env();
    assert_eq!(env.len(), 1);
    match &env[0] {
        WorkspaceStep::RunIfAbsent { path, command } => {
            assert_eq!(path.display(), "/data/aocsuite/python/venv");
            assert_eq!(command.program, Program::Tool("python3".to_string()));
            assert_eq!(text_args(command), strings(&["-m", "venv", "venv"]));
        }
        other => panic!("unexpected step {:?}", other),
    }
    assert_eq!(p.setup_env(), env);
}

#[test]
fn default_bodies() {
    let template = rust().template_contents();
    assert!(template.contains("pub fn part1(input: &str) -> String"));
    assert!(template.contains("pub fn part2(input: &str) -> String"));
    assert!(template.contains("Part 1 not implemented yet"));
    assert!(template.contains("Part 2 not implemented yet"));
    assert!(!template.contains("unimplemented!"));
    assert!(!template.contains("panic!"));
    assert!(rust().main_contents().contains("mod solution;"));
    assert!(python().template_contents().contains("not implemented yet"));
    assert!(python().main_contents().contains("from solution import part1, part2"));
}

#[test]
fn alias_is_never_stacked() {
    assert_eq!(
        SolveFile::link_to(SolveFile::TemplateSolution),
        Some(SolveFile::LinkedSolution(Box::new(SolveFile::TemplateSolution)))
    );
    let link = SolveFile::link_to(SolveFile::Main).unwrap();
    assert!(link.is_alias());
    assert!(link.is_well_formed());
    assert_eq!(SolveFile::link_to(link), None);
    let stacked = SolveFile::LinkedSolution(Box::new(SolveFile::LinkedSolution(Box::new(
        SolveFile::Main,
    ))));
    assert!(!stacked.is_well_formed());
    let one = SolveFile::LinkedSolution(Box::new(SolveFile::Solution(3, 2020)));
    assert_eq!(*one.resolve(), SolveFile::Solution(3, 2020));
    assert_eq!(*SolveFile::Main.resolve(), SolveFile::Main);
    assert_eq!(one.duplicate(), one);
}

#[test]
fn alias_of_the_template_points_at_the_template() {
    for language in [LanguageType::Rust, LanguageType::Python] {
        let runner = language.to_runner(&root());
        let file = SolveFile::LinkedSolution(Box::new(SolveFile::TemplateSolution));
        let plan = get_path(&file, &runner);
        let template = runner.get_solvefile_path(&SolveFile::TemplateSolution);
        assert_eq!(plan.action, runner.get_solvefile_path(&file));
        match plan.setup.last().unwrap() {
            WorkspaceStep::Link { target, link } => {
                assert_eq!(*target, template);
                assert_eq!(*link, plan.action);
            }
            other => panic!("unexpected step {:?}", other),
        }
        let links = plan.setup.iter().filter(|s| matches!(s, WorkspaceStep::Link { .. })).count();
        assert_eq!(links, 1);
    }
}

#[test]
fn path_plans() {
    let r = LanguageType::Rust.to_runner(&root());
    let prepared = resolve_runner(&r).len();
    assert_eq!(prepared, 2);
    let plan = get_path(&SolveFile::Solution(1, 2024), &r);
    assert_eq!(plan.action.display(), "/data/aocsuite/rust/year2024/day1.rs");
    match &plan.setup[prepared] {
        WorkspaceStep::CopyTemplateIfAbsent { path, template, template_contents } => {
            assert_eq!(path.display(), "/data/aocsuite/rust/year2024/day1.rs");
            assert_eq!(template.display(), "/data/aocsuite/rust/template.rs");
            assert_eq!(*template_contents, r.template_contents());
        }
        other => panic!("unexpected step {:?}", other),
    }
    let plan = get_path(&SolveFile::Main, &r);
    assert_eq!(plan.setup.len(), prepared + 1);
    let plan = get_path(
        &SolveFile::LinkedSolution(Box::new(SolveFile::Solution(1, 2024))),
        &r,
    );
    assert_eq!(plan.setup.len(), prepared + 2);
    assert_eq!(plan.action.display(), "/data/aocsuite/rust/src/solution.rs");
}

#[test]
fn run_and_compile_plans() {
    let r = LanguageType::Rust.to_runner(&root());
    let plan = run(1, 2024, "both", Arg::Text("input.txt".to_string()), &root(), &r);
    assert_eq!(plan.action.result_file.display(), "/data/aocsuite/result.json");
    assert_eq!(result_file(&root()), plan.action.result_file);
    assert_eq!(
        text_args(&plan.action.call),
        strings(&["input.txt", "/data/aocsuite/result.json", "both"])
    );
    assert_eq!(plan.setup, resolve_runner(&r));
    assert!(compile(1, 2024, &r).action.is_some());
    let p = LanguageType::Python.to_runner(&root());
    assert!(compile(1, 2024, &p).action.is_none());
    assert_eq!(r.required_dirs().len(), 2);
    assert_eq!(r.required_dirs()[1].display(), "/data/aocsuite/rust/src");
    assert_eq!(p.required_dirs().len(), 1);
    assert_eq!(p.language_type(), LanguageType::Python);
}

#[test]
fn adding_a_package_creates_the_environment_first() {
    let p = LanguageType::Python.to_runner(&root());
    let plan = add_package("requests", &p);
    assert_eq!(plan.setup.len(), 2);
    assert_eq!(plan.setup[0], p.setup_solver()[0]);
    match &plan.setup[1] {
        WorkspaceStep::RunIfAbsent { path, command } => {
            assert_eq!(path.display(), "/data/aocsuite/python/venv");
            assert_eq!(text_args(command), strings(&["-m", "venv", "venv"]));
        }
        other => panic!("unexpected step {:?}", other),
    }
    assert_eq!(text_args(&plan.action), strings(&["install", "requests"]));
    assert_eq!(
        add_outcome("no such package!", &failed("ERROR: Invalid requirement")),
        Err(AocLanguageError::DepAdd(
            "no such package!".to_string(),
            "ERROR: Invalid requirement".to_string()
        ))
    );
    assert_eq!(add_outcome("requests", &ok("")), Ok(()));
    assert_eq!(
        remove_outcome("requests", &failed("not installed")),
        Err(AocLanguageError::DepRemove("requests".to_string(), "not installed".to_string()))
    );
    assert_eq!(remove_outcome("requests", &ok("")), Ok(()));
    assert_eq!(env_outcome(&failed("no venv module")), Err(AocLanguageError::Env("no venv module".to_string())));
    assert_eq!(env_outcome(&ok("")), Ok(()));
    assert_eq!(text_args(&remove_package("x", &p).action), strings(&["uninstall", "-y", "x"]));
    assert_eq!(list_packages(&p).action, p.list_packages());
    assert_eq!(editor_enviroment_vars(&p).action, p.editor_environment_vars());
}

#[test]
fn frozen_lists() {
    assert_eq!(parse_frozen_line("requests==2.31.0"), Some("requests".to_string()));
    assert_eq!(parse_frozen_line("requests"), Some("requests".to_string()));
    assert_eq!(parse_frozen_line("a==1==2"), Some("a".to_string()));
    assert_eq!(parse_frozen_line("==1"), Some("".to_string()));
    assert_eq!(parse_frozen_line("# comment"), None);
    assert_eq!(parse_frozen_line("   "), None);
    assert_eq!(parse_frozen_line(""), None);
    assert_eq!(parse_frozen_line(" #x==1"), Some(" #x".to_string()));
    assert_eq!(
        parse_frozen_list("numpy==1.26.0\n\n# editable\nrequests==2.31.0\r\npip==24.0"),
        strings(&["numpy", "requests", "pip"])
    );
    assert_eq!(parse_frozen_list(""), Vec::<String>::new());
    let p = python();
    assert_eq!(p.read_packages(&ok("a==1\nb==2\n")), Ok(strings(&["a", "b"])));
    assert_eq!(
        p.read_packages(&failed("boom")),
        Err(AocLanguageError::Command("boom".to_string()))
    );
    let runner = LanguageType::Python.to_runner(&root());
    assert_eq!(installed_packages(&runner, false, None), Ok(Vec::new()));
    assert_eq!(installed_packages(&runner, false, Some(&failed("boom"))), Ok(Vec::new()));
    assert_eq!(installed_packages(&runner, true, Some(&ok("a==1\n"))), Ok(strings(&["a"])));
    assert_eq!(
        installed_packages(&runner, true, Some(&failed("ERROR: no pip"))),
        Err(AocLanguageError::Command("ERROR: no pip".to_string()))
    );
}

#[test]
fn dependency_trees() {
    assert_eq!(parse_tree_line("serde v1.0.219"), Some("serde".to_string()));
    assert_eq!(parse_tree_line("  serde_json@1.0 extra"), Some("serde_json".to_string()));
    assert_eq!(parse_tree_line("@x"), Some("".to_string()));
    assert_eq!(parse_tree_line("   "), None);
    assert_eq!(parse_tree_line(""), None);
    let out = "aocsuite-solution-rust v0.1.0 (/x)\nserde v1.0.219\nserde_json v1.0.140\n";
    assert_eq!(parse_tree_list(out), strings(&["serde", "serde_json"]));
    assert_eq!(parse_tree_list("only-the-project v1\n"), Vec::<String>::new());
    assert_eq!(parse_tree_list(""), Vec::<String>::new());
    let r = rust();
    assert_eq!(r.read_packages(&ok(out)), Ok(strings(&["serde", "serde_json"])));
    assert_eq!(
        r.read_packages(&failed("error: could not find `Cargo.toml`")),
        Err(AocLanguageError::Command("error: could not find `Cargo.toml`".to_string()))
    );
}

fn invalid(message: &str) -> Result<(), AocLanguageError> {
    Err(AocLanguageError::LibInvalid(message.to_string()))
}

#[test]
fn library_names() {
    let reserved = strings(&["main", "solution"]);
    assert_eq!(validate_user_lib("grid", &reserved), Ok(()));
    assert_eq!(validate_user_lib("_grid-2", &reserved), Ok(()));
    assert_eq!(validate_user_lib("größe", &reserved), Ok(()));
    assert_eq!(validate_user_lib("", &reserved), invalid("Library name cannot be empty"));
    assert_eq!(validate_user_lib("  ", &reserved), invalid("Library name cannot be empty"));
    assert_eq!(
        validate_user_lib("a b", &reserved),
        invalid("Library name can only contain letters, numbers, underscores, and hyphens")
    );
    assert_eq!(
        validate_user_lib("a.rs", &reserved),
        invalid("Library name can only contain letters, numbers, underscores, and hyphens")
    );
    assert_eq!(
        validate_user_lib("1grid", &reserved),
        invalid("Library name must start with a letter or underscore")
    );
    assert_eq!(
        validate_user_lib("-grid", &reserved),
        invalid("Library name must start with a letter or underscore")
    );
    assert_eq!(
        validate_user_lib("main", &reserved),
        invalid("'main' is a reserved name for this language")
    );
    assert_eq!(
        validate_user_lib("solution", &reserved),
        invalid("'solution' is a reserved name for this language")
    );
    assert_eq!(validate_user_lib("Main", &reserved), Ok(()));
    assert_eq!(validate_user_lib("SOLUTION", &reserved), Ok(()));
}

#[test]
fn reserved_names_are_refused_by_every_adapter() {
    for language in [LanguageType::Rust, LanguageType::Python] {
        let runner = language.to_runner(&root());
        let reserved = runner.invalid_lib_names();
        assert_eq!(reserved, strings(&["main", "solution"]));
        for name in &reserved {
            assert!(validate_user_lib(name, &reserved).is_err());
            assert!(get_lib_filepath(name, &runner).is_err());
            assert!(remove_lib_file(name, &runner).is_err());
            let upper = name.to_uppercase();
            assert!(validate_user_lib(&upper, &reserved).is_ok());
        }
    }
}

#[test]
fn library_names_with_given_kinds() {
    let reserved = strings(&["main"]);
    let name: Vec<char> = "ab".chars().collect();
    let kinds = classify(&name);
    assert!(kinds.iter().all(|k| k.alphabetic && k.alphanumeric));
    assert_eq!(check_lib_name("ab", &kinds, &reserved), Ok(()));
    let mut none = kinds.clone();
    none[1].alphanumeric = false;
    assert_eq!(
        check_lib_name("ab", &none, &reserved),
        invalid("Library name can only contain letters, numbers, underscores, and hyphens")
    );
    let mut digits = kinds.clone();
    digits[0].alphabetic = false;
    assert_eq!(
        check_lib_name("ab", &digits, &reserved),
        invalid("Library name must start with a letter or underscore")
    );
}

#[test]
fn library_files() {
    assert_eq!(lib_name_of_file("grid.rs", "rs"), Some("grid".to_string()));
    assert_eq!(lib_name_of_file("grid.tar.rs", "rs"), Some("grid.tar".to_string()));
    assert_eq!(lib_name_of_file("grid.py", "rs"), None);
    assert_eq!(lib_name_of_file("grid", "rs"), None);
    assert_eq!(lib_name_of_file(".rs", "rs"), None);
    assert_eq!(lib_name_of_file("grid.", ""), Some("grid".to_string()));
    assert_eq!(lib_name_of_file("grid.RS", "rs"), None);
    let r = LanguageType::Rust.to_runner(&root());
    let files = strings(&["main.rs", "grid.rs", "solution.rs", "notes.txt", "a b.rs", "util.rs"]);
    assert_eq!(list_lib_files(&r, &files).action, strings(&["grid", "util"]));
    let lib = get_lib_filepath("grid", &r).unwrap();
    assert_eq!(lib.action.path.display(), "/data/aocsuite/rust/src/grid.rs");
    assert_eq!(lib.action.dir.display(), "/data/aocsuite/rust/src");
    let p = LanguageType::Python.to_runner(&root());
    assert_eq!(remove_lib_file("grid", &p).unwrap().action.display(), "/data/aocsuite/python/grid.py");
    assert_eq!(p.file_extention(), "py");
    assert_eq!(p.lib_dir().display(), "/data/aocsuite/python");
    assert_eq!(r.get_lib_path("grid").display(), "/data/aocsuite/rust/src/grid.rs");
}

#[test]
fn languages_by_name() {
    assert_eq!(LanguageType::from_str("rust"), Ok(LanguageType::Rust));
    assert_eq!(LanguageType::from_str("Python"), Ok(LanguageType::Python));
    assert_eq!(LanguageType::from_str("RUST"), Ok(LanguageType::Rust));
    assert_eq!(
        LanguageType::from_str("Go"),
        Err(AocLanguageError::LangNotFound("Go".to_string()))
    );
    assert_eq!(LanguageType::from_lowercase("RUST"), None);
    assert_eq!(LanguageType::Rust.to_string(), "rust");
    assert_eq!(LanguageType::Python.to_string(), "python");
    assert_eq!(resolve_language(Some(LanguageType::Rust), Some("python")), Ok(LanguageType::Rust));
    assert_eq!(resolve_language(None, Some("python")), Ok(LanguageType::Python));
    assert!(resolve_language(None, None).is_err());
    let runner = LanguageType::Python.to_runner(&root());
    assert_eq!(runner, LanguageRunner::Python(python()));
}

#[test]
fn command_output_is_judged() {
    assert_eq!(handle_command_output(&ok("")), Ok(None));
    assert_eq!(
        handle_command_output(&ok("hello")),
        Ok(Some("Standard out from exercise hello".to_string()))
    );
    assert_eq!(
        handle_command_output(&failed("error[E0425]")),
        Err(AocLanguageError::Command("error[E0425]".to_string()))
    );
}

fn results() -> ExerciseOutput {
    ExerciseOutput {
        part1: Some(PartResult { answer: "42".to_string(), runtime_ms: 5 }),
        part2: None,
    }
}

#[test]
fn run_that_succeeds_reads_and_deletes_the_result_file() {
    let mut state = RunState::start();
    assert_eq!(state.next_action(), RunAction::AwaitExit);
    state = state.step(RunEvent::Exited(ok("")));
    assert_eq!(state.next_action(), RunAction::ReadResult);
    state = state.step(RunEvent::ResultLoaded(results()));
    assert_eq!(state.next_action(), RunAction::DeleteResult);
    assert!(state.accepts(&RunEvent::Deleted));
    state = state.step(RunEvent::Deleted);
    assert_eq!(state.next_action(), RunAction::Stop);
    assert!(!state.accepts(&RunEvent::Deleted));
    assert_eq!(state.finish(), Some(Ok(results())));
}

#[test]
fn run_failures_are_typed() {
    let state = RunState::start().step(RunEvent::SpawnFailed("No such file".to_string()));
    assert_eq!(state.finish(), Some(Err(AocLanguageError::Io("No such file".to_string()))));
    let state = RunState::start().step(RunEvent::Exited(failed("panicked")));
    assert_eq!(state.finish(), Some(Err(AocLanguageError::Command("panicked".to_string()))));
    let state = RunState::start()
        .step(RunEvent::Exited(ok("")))
        .step(RunEvent::ResultMissing("not found".to_string()));
    assert_eq!(state.finish(), Some(Err(AocLanguageError::ResultJson("not found".to_string()))));
    let state = RunState::start()
        .step(RunEvent::Exited(ok("")))
        .step(RunEvent::ResultMalformed("expected value".to_string()));
    assert_eq!(state.next_action(), RunAction::Stop);
    assert_eq!(
        state.finish(),
        Some(Err(AocLanguageError::ResultJson("expected value".to_string())))
    );
    let state = RunState::start()
        .step(RunEvent::Exited(ok("")))
        .step(RunEvent::ResultLoaded(results()))
        .step(RunEvent::DeleteFailed("busy".to_string()));
    assert_eq!(state.finish(), Some(Err(AocLanguageError::Io("busy".to_string()))));
    assert_eq!(RunState::start().finish(), None);
    let state = RunState::start().step(RunEvent::Deleted);
    assert_eq!(state, RunState::Invoked);
    assert!(!RunState::Completed.accepts(&RunEvent::Exited(ok(""))));
}

#[test]
fn results_are_shown_in_blocks() {
    let one = PartResult { answer: "42".to_string(), runtime_ms: 5 };
    assert_eq!(one.to_string(), "Answer: 42\nRuntime: 5 ms\n");
    let only_first = results();
    assert_eq!(
        only_first.to_string(),
        "\n┌──────────────┐\n│   Part 1     │\n└──────────────┘\nAnswer: 42\nRuntime: 5 ms\n\n"
    );
    let both = ExerciseOutput {
        part1: Some(PartResult { answer: "a".to_string(), runtime_ms: 0 }),
        part2: Some(PartResult { answer: "b".to_string(), runtime_ms: 1234567890123 }),
    };
    assert_eq!(
        both.to_string(),
        "\n┌──────────────┐\n│   Part 1     │\n└──────────────┘\nAnswer: a\nRuntime: 0 ms\n\n\n\n┌──────────────┐\n│   Part 2     │\n└──────────────┘\nAnswer: b\nRuntime: 1234567890123 ms\n\n"
    );
    let none = ExerciseOutput { part1: None, part2: None };
    assert_eq!(none.to_string(), "");
}

#[test]
fn compiled_run_of_both_parts() {
    let runner = LanguageType::Rust.to_runner(&root());
    let build = compile(1, 2024, &runner);
    assert_eq!(text_args(build.action.as_ref().unwrap()), strings(&["build", "--release"]));
    let plan = run(1, 2024, "both", Arg::Text("/tmp/input.txt".to_string()), &root(), &runner);
    assert_eq!(
        text_args(&plan.action.call),
        strings(&["/tmp/input.txt", "/data/aocsuite/result.json", "both"])
    );
    let both = ExerciseOutput {
        part1: Some(PartResult { answer: "not implemented".to_string(), runtime_ms: 0 }),
        part2: Some(PartResult { answer: "not implemented".to_string(), runtime_ms: 3 }),
    };
    let state = RunState::start()
        .step(RunEvent::Exited(ok("")))
        .step(RunEvent::ResultLoaded(ExerciseOutput {
            part1: Some(PartResult { answer: "not implemented".to_string(), runtime_ms: 0 }),
            part2: Some(PartResult { answer: "not implemented".to_string(), runtime_ms: 3 }),
        }))
        .step(RunEvent::Deleted);
    match state.finish() {
        Some(Ok(results)) => {
            assert_eq!(results, both);
            assert!(results.part1.unwrap().answer.contains("not implemented"));
            assert!(results.part2.unwrap().answer.contains("not implemented"));
        }
        other => panic!("unexpected outcome {:?}", other),
    }
}

#[test]
fn run_without_a_result_file_is_a_protocol_error() {
    let state = RunState::start().step(RunEvent::Exited(ok("")));
    assert_eq!(state.next_action(), RunAction::ReadResult);
    let state = state.step(RunEvent::ResultMissing("Permission denied (os error 13)".to_string()));
    assert_eq!(state.next_action(), RunAction::Stop);
    assert_eq!(
        state.finish(),
        Some(Err(AocLanguageError::ResultJson("Permission denied (os error 13)".to_string())))
    );
    let state = RunState::start().step(RunEvent::Exited(failed("Failed to write output file")));
    assert_eq!(
        state.finish(),
        Some(Err(AocLanguageError::Command("Failed to write output file".to_string())))
    );
}
