use std::time::Duration;

use lint_driver::aggregate::FileUnit;
use lint_driver::command::{
    AllowWarnDeny, CliLintOptions, CliRunResult, CodeownerOptions, EnablePlugins, FixOptions,
    IgnoreOptions, LintResult, MiscOptions, WarningOptions,
};
use lint_driver::lint::{
    ownership_key, LintRunner, Owner, CODEOWNERS_UNREADABLE, CONFIG_WITH_FILTER,
    CONFIG_WITH_PLUGINS, NO_CODEOWNERS,
};
use lint_driver::report::{Diagnostic, Position, Range, Severity};
use lint_driver::run::{
    LintRun, RunAction, RunStage, CONFIGURATION_UNPARSABLE, NO_WORKING_DIRECTORY,
};

const RULES: usize = 87;

fn options(paths: &[&str]) -> CliLintOptions {
    CliLintOptions {
        paths: paths.iter().map(|p| p.to_string()).collect(),
        filter: vec![],
        warning_options: WarningOptions { quiet: true, deny_warnings: false, max_warnings: None },
        ignore_options: IgnoreOptions {
            ignore_path: ".eslintignore".to_string(),
            ignore_pattern: vec![],
            no_ignore: false,
        },
        fix_options: FixOptions { fix: false },
        misc_options: MiscOptions { timing: false, rules: false },
        codeowner_options: CodeownerOptions { codeowners_file: None, codeowners: vec![] },
        enable_plugins: EnablePlugins {
            import_plugin: false,
            jest_plugin: false,
            jsx_a11y_plugin: false,
        },
        config: None,
    }
}

fn finding(severity: Option<Severity>, message: &str) -> Diagnostic {
    let start = Position { line: 0, character: 0 };
    Diagnostic { severity, message: message.to_string(), range: Range { start, end: start } }
}

fn warning(message: &str) -> Diagnostic {
    finding(Some(Severity::Warning), message)
}

fn unit(path: &str, diagnostics: Vec<Diagnostic>) -> FileUnit {
    FileUnit { path: path.to_string(), diagnostics }
}

/// What the files of the workspace hold: a path and the findings that the
/// rules give for it.
fn workspace() -> Vec<(&'static str, Vec<Diagnostic>)> {
    vec![
        ("fixtures/linter/debugger.js", vec![warning("eslint(no-debugger): `debugger` statement is not allowed")]),
        ("fixtures/linter/debugger.vue", vec![warning("eslint(no-debugger): `debugger` statement is not allowed")]),
        ("fixtures/linter/nan.js", vec![warning("eslint(use-isnan): Requires calls to isNaN() when checking for NaN")]),
        ("fixtures/walk_dir/bar.vue", vec![]),
        ("fixtures/walk_dir/foo.js", vec![]),
    ]
}

fn rule_of(diagnostic: &Diagnostic) -> &str {
    let message = diagnostic.message.as_str();
    let open = message.find('(').unwrap();
    let close = message.find(')').unwrap();
    &message[open + 1..close]
}

/// Stands for the outside world of a run: the files under the paths, and the
/// findings that the rules left by the filters give for them.
fn drive(options: CliLintOptions) -> CliRunResult {
    let ignored: Vec<String> = options.ignore_options.ignore_pattern.clone();
    let filter = options.filter.clone();
    let (mut run, mut action) = LintRunner::new(options).run();
    let mut pending: Vec<FileUnit> = vec![];
    let mut steps = 0;
    loop {
        steps += 1;
        assert!(steps < 1000);
        action = match action {
            RunAction::PrintRules => run.rules_printed(),
            RunAction::QueryWorkingDirectory => run.working_directory(Some("fixtures".to_string())),
            RunAction::Discover { paths } => {
                let found: Vec<String> = workspace()
                    .iter()
                    .map(|(path, _)| path.to_string())
                    .filter(|path| paths.iter().any(|under| path.starts_with(under.as_str())))
                    .filter(|path| {
                        !ignored.iter().any(|glob| path.ends_with(glob.trim_start_matches("**/*")))
                    })
                    .collect();
                run.discovered(found)
            }
            RunAction::LoadOwnership { .. } => run.ownership_loaded(None),
            RunAction::BuildEngine => run.engine_built(Some(RULES)),
            RunAction::Lint { paths } => {
                let all_allowed =
                    filter.iter().any(|(action, name)| *action == AllowWarnDeny::Allow && name == "all");
                pending = workspace()
                    .into_iter()
                    .filter(|(path, _)| paths.iter().any(|p| p == path))
                    .map(|(path, diagnostics)| {
                        let left = diagnostics
                            .into_iter()
                            .filter(|d| !all_allowed)
                            .filter(|d| {
                                !filter.iter().any(|(action, name)| {
                                    *action == AllowWarnDeny::Allow && name == rule_of(d)
                                })
                            })
                            .collect();
                        unit(path, left)
                    })
                    .collect();
                next_unit(&mut run, &mut pending)
            }
            RunAction::Render { .. } => next_unit(&mut run, &mut pending),
            RunAction::Exit(result) => return result,
            RunAction::Nothing => panic!("the run did not wait for what was reported"),
        };
    }
}

fn next_unit(run: &mut LintRun, pending: &mut Vec<FileUnit>) -> RunAction {
    if pending.is_empty() {
        run.closed(Duration::from_millis(3))
    } else {
        let unit = pending.remove(0);
        assert!(run.can_receive(&unit));
        run.unit_received(&unit)
    }
}

fn test(options: CliLintOptions) -> LintResult {
    let CliRunResult::LintResult(lint_result) = drive(options) else { unreachable!() };
    lint_result
}

fn invalid(message: &str) -> CliRunResult {
    CliRunResult::InvalidOptions { message: message.to_string() }
}

#[test]
fn timing() {
    let mut options = options(&["fixtures"]);
    options.misc_options.timing = true;
    // make sure this doesn't crash
    test(options);
}

#[test]
fn no_arg() {
    let result = test(options(&[]));
    assert!(result.number_of_rules > 0);
    assert_eq!(result.number_of_files, 5);
    assert_eq!(result.number_of_warnings, 3);
    assert_eq!(result.number_of_errors, 0);
}

#[test]
fn dir() {
    let result = test(options(&["fixtures/linter"]));
    assert!(result.number_of_rules > 0);
    assert_eq!(result.number_of_files, 3);
    assert_eq!(result.number_of_warnings, 3);
    assert_eq!(result.number_of_errors, 0);
}

#[test]
fn file() {
    let result = test(options(&["fixtures/linter/debugger.js"]));
    assert_eq!(result.number_of_files, 1);
    assert_eq!(result.number_of_warnings, 1);
    assert_eq!(result.number_of_errors, 0);
}

#[test]
fn multi_files() {
    let result = test(options(&["fixtures/linter/debugger.js", "fixtures/linter/nan.js"]));
    assert_eq!(result.number_of_files, 2);
    assert_eq!(result.number_of_warnings, 2);
    assert_eq!(result.number_of_errors, 0);
}

#[test]
fn wrong_extension() {
    let result = test(options(&["foo.asdf"]));
    assert_eq!(result.number_of_files, 0);
    assert_eq!(result.number_of_warnings, 0);
    assert_eq!(result.number_of_errors, 0);
}

#[test]
fn ignore_pattern() {
    let mut options = options(&["fixtures"]);
    options.ignore_options.ignore_pattern = vec!["**/*.js".to_string(), "**/*.vue".to_string()];
    let result = test(options);
    assert_eq!(result.number_of_files, 0);
    assert_eq!(result.number_of_warnings, 0);
    assert_eq!(result.number_of_errors, 0);
}

#[test]
fn filter_allow_all() {
    let mut options = options(&["fixtures"]);
    options.filter = vec![(AllowWarnDeny::Allow, "all".to_string())];
    let result = test(options);
    assert!(result.number_of_files > 0);
    assert_eq!(result.number_of_warnings, 0);
    assert_eq!(result.number_of_errors, 0);
}

#[test]
fn filter_allow_one() {
    let mut options = options(&["fixtures/linter/debugger.js"]);
    options.filter = vec![
        (AllowWarnDeny::Deny, "correctness".to_string()),
        (AllowWarnDeny::Allow, "no-debugger".to_string()),
    ];
    let result = test(options);
    assert_eq!(result.number_of_files, 1);
    assert_eq!(result.number_of_warnings, 0);
    assert_eq!(result.number_of_errors, 0);
}

#[test]
fn test_lint_vue_file() {
    let result = test(options(&["fixtures/linter/debugger.vue"]));
    assert_eq!(result.number_of_files, 1);
    assert_eq!(result.number_of_warnings, 1);
    assert_eq!(result.number_of_errors, 0);
}

#[test]
fn summary_carries_duration_rules_and_policy() {
    let mut options = options(&["fixtures"]);
    options.warning_options.deny_warnings = true;
    let result = test(options);
    assert_eq!(
        result,
        LintResult {
            duration: Duration::from_millis(3),
            number_of_rules: RULES,
            number_of_files: 5,
            number_of_warnings: 3,
            number_of_errors: 0,
            max_warnings_exceeded: false,
            deny_warnings: true,
        }
    );
}

#[test]
fn config_with_filter_is_refused_before_anything_is_read() {
    let mut options = options(&["fixtures"]);
    options.config = Some("oxlintrc.json".to_string());
    options.filter = vec![(AllowWarnDeny::Deny, "correctness".to_string())];
    let runner = LintRunner::new(options);
    assert_eq!(runner.check_options(), invalid(CONFIG_WITH_FILTER));
    let (mut run, action) = runner.run();
    assert_eq!(action, RunAction::Exit(invalid(CONFIG_WITH_FILTER)));
    assert_eq!(run.stage(), RunStage::Done);
    assert_eq!(run.discovered(vec!["fixtures/linter/nan.js".to_string()]), RunAction::Nothing);
    assert_eq!(run.engine_built(Some(RULES)), RunAction::Nothing);
    assert_eq!(run.closed(Duration::from_millis(1)), RunAction::Nothing);
    assert_eq!(run.stage(), RunStage::Done);
}

#[test]
fn config_with_filter_message_is_exact() {
    assert_eq!(
        CONFIG_WITH_FILTER,
        "`--config` and rule filters cannot currently be used together. \nPlease use `--config` to specify a config file, or filter to specify rules."
    );
    assert_eq!(
        CONFIG_WITH_PLUGINS,
        "`--config` and plugin options cannot currently be used together. \nPlease use `--config` to specify a config file, or plugin options to enable plugins."
    );
}

#[test]
fn config_with_each_plugin_is_refused() {
    for plugin in 0..3 {
        let mut options = options(&["fixtures"]);
        options.config = Some("oxlintrc.json".to_string());
        options.enable_plugins = EnablePlugins {
            import_plugin: plugin == 0,
            jest_plugin: plugin == 1,
            jsx_a11y_plugin: plugin == 2,
        };
        assert_eq!(LintRunner::new(options.clone()).check_options(), invalid(CONFIG_WITH_PLUGINS));
        assert_eq!(drive(options), invalid(CONFIG_WITH_PLUGINS));
    }
}

#[test]
fn filter_is_named_before_plugins() {
    let mut options = options(&["fixtures"]);
    options.config = Some("oxlintrc.json".to_string());
    options.filter = vec![(AllowWarnDeny::Allow, "all".to_string())];
    options.enable_plugins.jest_plugin = true;
    assert_eq!(LintRunner::new(options).check_options(), invalid(CONFIG_WITH_FILTER));
}

#[test]
fn config_alone_and_filter_alone_pass() {
    let mut with_config = options(&["fixtures"]);
    with_config.config = Some("oxlintrc.json".to_string());
    assert_eq!(LintRunner::new(with_config).check_options(), CliRunResult::Nothing);
    let mut with_filter = options(&["fixtures"]);
    with_filter.filter = vec![(AllowWarnDeny::Warn, "style".to_string())];
    with_filter.enable_plugins.import_plugin = true;
    assert_eq!(LintRunner::new(with_filter).check_options(), CliRunResult::Nothing);
}

#[test]
fn rules_are_listed_and_nothing_else() {
    let mut options = options(&["fixtures"]);
    options.misc_options.rules = true;
    let (mut run, action) = LintRunner::new(options).run();
    assert_eq!(action, RunAction::PrintRules);
    assert_eq!(run.stage(), RunStage::Rules);
    assert_eq!(run.discovered(vec![]), RunAction::Nothing);
    assert_eq!(run.rules_printed(), RunAction::Exit(CliRunResult::Nothing));
    assert_eq!(run.stage(), RunStage::Done);
}

#[test]
fn conflicting_options_are_refused_even_for_the_rule_list() {
    let mut options = options(&["fixtures"]);
    options.misc_options.rules = true;
    options.config = Some("oxlintrc.json".to_string());
    options.filter = vec![(AllowWarnDeny::Deny, "all".to_string())];
    assert_eq!(drive(options), invalid(CONFIG_WITH_FILTER));
}

#[test]
fn without_paths_the_working_directory_is_linted() {
    let (mut run, action) = LintRunner::new(options(&[])).run();
    assert_eq!(action, RunAction::QueryWorkingDirectory);
    assert_eq!(run.stage(), RunStage::WorkingDirectory);
    let action = run.working_directory(Some("/home/me/project".to_string()));
    assert_eq!(action, RunAction::Discover { paths: vec!["/home/me/project".to_string()] });
    assert_eq!(run.stage(), RunStage::Discovery);
}

#[test]
fn without_paths_and_working_directory_the_run_ends() {
    let (mut run, _) = LintRunner::new(options(&[])).run();
    assert_eq!(run.working_directory(None), RunAction::Exit(invalid(NO_WORKING_DIRECTORY)));
    assert_eq!(NO_WORKING_DIRECTORY, "Failed to get current working directory.");
    assert_eq!(run.stage(), RunStage::Done);
}

#[test]
fn given_paths_are_discovered_as_given() {
    let (run, action) = LintRunner::new(options(&["a.js", "src"])).run();
    assert_eq!(action, RunAction::Discover { paths: vec!["a.js".to_string(), "src".to_string()] });
    assert_eq!(run.stage(), RunStage::Discovery);
    assert_eq!(run.options().paths, vec!["a.js".to_string(), "src".to_string()]);
}

#[test]
fn engine_failure_ends_the_run_as_a_configuration_error() {
    let (mut run, _) = LintRunner::new(options(&["fixtures"])).run();
    assert_eq!(run.discovered(vec!["fixtures/linter/nan.js".to_string()]), RunAction::BuildEngine);
    assert_eq!(run.stage(), RunStage::Engine);
    assert_eq!(run.engine_built(None), RunAction::Exit(invalid(CONFIGURATION_UNPARSABLE)));
    assert_eq!(CONFIGURATION_UNPARSABLE, "Failed to parse configuration file.");
    assert_eq!(run.stage(), RunStage::Done);
    let late = unit("fixtures/linter/nan.js", vec![warning("late")]);
    assert!(run.can_receive(&late));
    assert_eq!(run.unit_received(&late), RunAction::Nothing);
}

#[test]
fn workers_get_the_discovered_files_in_order() {
    let (mut run, _) = LintRunner::new(options(&["fixtures"])).run();
    let found = vec!["b.js".to_string(), "a.js".to_string(), "c.ts".to_string()];
    run.discovered(found.clone());
    assert_eq!(run.engine_built(Some(4)), RunAction::Lint { paths: found });
    assert_eq!(run.stage(), RunStage::Draining);
}

#[test]
fn events_out_of_turn_change_nothing() {
    let (mut run, _) = LintRunner::new(options(&["fixtures"])).run();
    assert_eq!(run.rules_printed(), RunAction::Nothing);
    assert_eq!(run.working_directory(Some("/tmp".to_string())), RunAction::Nothing);
    assert_eq!(run.ownership_loaded(None), RunAction::Nothing);
    assert_eq!(run.engine_built(Some(1)), RunAction::Nothing);
    assert_eq!(run.closed(Duration::from_millis(1)), RunAction::Nothing);
    assert_eq!(run.stage(), RunStage::Discovery);
    assert_eq!(run.discovered(vec![]), RunAction::BuildEngine);
}

#[test]
fn quiet_hides_warnings_but_counts_them() {
    let mut quiet = options(&["fixtures"]);
    quiet.warning_options.quiet = true;
    let (mut run, _) = LintRunner::new(quiet).run();
    run.discovered(vec!["a.js".to_string()]);
    run.engine_built(Some(RULES));
    let findings = vec![
        warning("w1"),
        finding(Some(Severity::Error), "e1"),
        finding(None, "e2"),
        finding(Some(Severity::Advice), "a1"),
        warning("w2"),
    ];
    let action = run.unit_received(&unit("a.js", findings));
    assert_eq!(action, RunAction::Render { shown: vec![false, true, true, true, false] });
    let RunAction::Exit(CliRunResult::LintResult(result)) = run.closed(Duration::from_secs(1))
    else {
        unreachable!()
    };
    assert_eq!(result.number_of_files, 1);
    assert_eq!(result.number_of_warnings, 2);
    assert_eq!(result.number_of_errors, 2);
}

#[test]
fn without_quiet_everything_is_shown() {
    let mut loud = options(&["fixtures"]);
    loud.warning_options.quiet = false;
    let (mut run, _) = LintRunner::new(loud).run();
    run.discovered(vec!["a.js".to_string()]);
    run.engine_built(Some(RULES));
    let findings = vec![warning("w1"), finding(Some(Severity::Error), "e1"), warning("w2")];
    let action = run.unit_received(&unit("a.js", findings));
    assert_eq!(action, RunAction::Render { shown: vec![true, true, true] });
}

#[test]
fn max_warnings_flags_the_run_and_changes_no_count() {
    for (threshold, exceeded) in [(None, false), (Some(4), false), (Some(3), false), (Some(2), true), (Some(0), true)] {
        let mut options = options(&["fixtures"]);
        options.warning_options.max_warnings = threshold;
        let result = test(options);
        assert_eq!(result.max_warnings_exceeded, exceeded);
        assert_eq!(result.number_of_files, 5);
        assert_eq!(result.number_of_warnings, 3);
        assert_eq!(result.number_of_errors, 0);
    }
}

#[test]
fn exit_code_follows_the_result() {
    let base = LintResult {
        duration: Duration::from_millis(1),
        number_of_rules: 1,
        number_of_files: 1,
        number_of_warnings: 0,
        number_of_errors: 0,
        max_warnings_exceeded: false,
        deny_warnings: false,
    };
    assert_eq!(CliRunResult::Nothing.exit_code(), 0);
    assert_eq!(invalid("no").exit_code(), 1);
    assert_eq!(CliRunResult::LintResult(base).exit_code(), 0);
    assert_eq!(CliRunResult::LintResult(LintResult { number_of_warnings: 2, ..base }).exit_code(), 0);
    assert_eq!(
        CliRunResult::LintResult(LintResult { number_of_warnings: 2, deny_warnings: true, ..base })
            .exit_code(),
        1
    );
    assert_eq!(CliRunResult::LintResult(LintResult { deny_warnings: true, ..base }).exit_code(), 0);
    assert_eq!(CliRunResult::LintResult(LintResult { number_of_errors: 1, ..base }).exit_code(), 1);
    assert_eq!(
        CliRunResult::LintResult(LintResult { max_warnings_exceeded: true, ..base }).exit_code(),
        1
    );
    assert!(LintResult { number_of_errors: 1, ..base }.failed());
    assert!(!base.failed());
}

fn owners(names: &[&str]) -> Option<Vec<Owner>> {
    Some(
        names
            .iter()
            .map(|name| {
                if name.contains('@') && !name.starts_with('@') {
                    Owner::Email(name.to_string())
                } else if name.contains('/') {
                    Owner::Team(name.to_string())
                } else {
                    Owner::Username(name.to_string())
                }
            })
            .collect(),
    )
}

fn paths(list: &[&str]) -> Vec<String> {
    list.iter().map(|p| p.to_string()).collect()
}

#[test]
fn codeowners_keep_the_files_of_wanted_owners() {
    let options = CodeownerOptions {
        codeowners_file: Some("CODEOWNERS".to_string()),
        codeowners: paths(&["@org/web", "me@example.com"]),
    };
    let ownership = vec![
        owners(&["@alice"]),
        owners(&["@bob", "@org/web"]),
        None,
        owners(&["me@example.com"]),
        owners(&[]),
    ];
    let kept = LintRunner::apply_codeowners_file(
        &options,
        paths(&["a.js", "b.js", "c.js", "d.js", "e.js"]),
        Some(ownership),
    );
    assert_eq!(kept, Ok(paths(&["b.js", "d.js"])));
}

#[test]
fn codeowners_drop_files_the_file_says_nothing_of() {
    let options = CodeownerOptions {
        codeowners_file: Some("CODEOWNERS".to_string()),
        codeowners: paths(&["@alice"]),
    };
    let kept = LintRunner::apply_codeowners_file(
        &options,
        paths(&["a.js", "b.js", "c.js"]),
        Some(vec![owners(&["@alice"])]),
    );
    assert_eq!(kept, Ok(paths(&["a.js"])));
}

#[test]
fn codeowners_without_wanted_owners_are_refused() {
    let options =
        CodeownerOptions { codeowners_file: Some("CODEOWNERS".to_string()), codeowners: vec![] };
    let refused =
        LintRunner::apply_codeowners_file(&options, paths(&["a.js"]), Some(vec![owners(&["@a"])]));
    assert_eq!(refused, Err(invalid(NO_CODEOWNERS)));
    assert_eq!(NO_CODEOWNERS, "No wanted codeowners provided.");
}

#[test]
fn codeowners_file_that_gave_nothing_ends_the_run() {
    let options = CodeownerOptions {
        codeowners_file: Some("CODEOWNERS".to_string()),
        codeowners: paths(&["@alice"]),
    };
    let refused = LintRunner::apply_codeowners_file(&options, paths(&["a.js"]), None);
    assert_eq!(refused, Err(invalid(CODEOWNERS_UNREADABLE)));
    assert_eq!(CODEOWNERS_UNREADABLE, "Codeowners file could not be read or parsed.");
}

#[test]
fn without_codeowners_file_every_path_stays() {
    let options = CodeownerOptions { codeowners_file: None, codeowners: paths(&["@alice"]) };
    let kept = LintRunner::apply_codeowners_file(&options, paths(&["a.js", "b.js"]), None);
    assert_eq!(kept, Ok(paths(&["a.js", "b.js"])));
    let kept =
        LintRunner::apply_codeowners_file(&options, paths(&["a.js", "b.js"]), Some(vec![None, None]));
    assert_eq!(kept, Ok(paths(&["a.js", "b.js"])));
}

#[test]
fn owner_names_are_what_the_file_writes() {
    assert_eq!(Owner::Email("me@example.com".to_string()).name(), "me@example.com");
    assert_eq!(Owner::Team("@org/web".to_string()).name(), "@org/web");
    assert_eq!(Owner::Username("@alice".to_string()).name(), "@alice");
}

#[test]
fn run_restricts_files_by_ownership() {
    let mut options = options(&["src"]);
    options.codeowner_options = CodeownerOptions {
        codeowners_file: Some(".github/CODEOWNERS".to_string()),
        codeowners: paths(&["@alice"]),
    };
    let (mut run, action) = LintRunner::new(options).run();
    assert_eq!(action, RunAction::Discover { paths: paths(&["src"]) });
    let action = run.discovered(paths(&["src/a.js", "src/b.js", "src/c.js"]));
    assert_eq!(action, RunAction::LoadOwnership { file: ".github/CODEOWNERS".to_string() });
    assert_eq!(run.stage(), RunStage::Ownership);
    let action =
        run.ownership_loaded(Some(vec![owners(&["@bob"]), owners(&["@alice"]), owners(&["@alice"])]));
    assert_eq!(action, RunAction::BuildEngine);
    assert_eq!(run.engine_built(Some(RULES)), RunAction::Lint { paths: paths(&["src/b.js", "src/c.js"]) });
    run.unit_received(&unit("src/b.js", vec![]));
    run.unit_received(&unit("src/c.js", vec![finding(Some(Severity::Error), "boom")]));
    let RunAction::Exit(CliRunResult::LintResult(result)) = run.closed(Duration::from_secs(2))
    else {
        unreachable!()
    };
    assert_eq!(result.number_of_files, 2);
    assert_eq!(result.number_of_errors, 1);
    assert_eq!(result.number_of_warnings, 0);
}

#[test]
fn run_without_wanted_owners_ends_after_discovery() {
    let mut options = options(&["src"]);
    options.codeowner_options =
        CodeownerOptions { codeowners_file: Some("CODEOWNERS".to_string()), codeowners: vec![] };
    let (mut run, _) = LintRunner::new(options).run();
    assert_eq!(run.discovered(paths(&["src/a.js"])), RunAction::Exit(invalid(NO_CODEOWNERS)));
    assert_eq!(run.stage(), RunStage::Done);
}

#[test]
fn run_with_unreadable_ownership_file_ends() {
    let mut options = options(&["src"]);
    options.codeowner_options = CodeownerOptions {
        codeowners_file: Some("CODEOWNERS".to_string()),
        codeowners: paths(&["@alice"]),
    };
    assert_eq!(drive(options), invalid(CODEOWNERS_UNREADABLE));
}

#[test]
fn unreadable_file_counts_as_one_error() {
    let failed = FileUnit::failed("gone.js".to_string(), "Failed to open file".to_string());
    assert_eq!(failed.path, "gone.js");
    assert_eq!(failed.diagnostics, vec![finding(Some(Severity::Error), "Failed to open file")]);
    let (mut run, _) = LintRunner::new(options(&["gone.js", "a.js"])).run();
    run.discovered(paths(&["gone.js", "a.js"]));
    run.engine_built(Some(RULES));
    assert_eq!(run.unit_received(&failed), RunAction::Render { shown: vec![true] });
    run.unit_received(&unit("a.js", vec![warning("w")]));
    let RunAction::Exit(result) = run.closed(Duration::from_secs(1)) else { unreachable!() };
    let CliRunResult::LintResult(summary) = result.clone() else { unreachable!() };
    assert_eq!(summary.number_of_files, 2);
    assert_eq!(summary.number_of_errors, 1);
    assert_eq!(summary.number_of_warnings, 1);
    assert_eq!(result.exit_code(), 1);
}

#[test]
fn leading_dot_slash_never_changes_the_ownership_key() {
    for path in ["foo/bar.js", "bar.js", "", ".", ".foo/bar.js", "/foo/bar.js", "foo/./bar.js"] {
        assert_eq!(ownership_key(path), path);
        assert_eq!(ownership_key(&format!("./{path}")), path);
    }
    assert_eq!(ownership_key("./foo/bar.js"), "foo/bar.js");
    assert_eq!(ownership_key("././foo.js"), "./foo.js");
    assert_eq!(ownership_key("./"), "");
    assert_eq!(ownership_key("r\u{e9}/x.js"), "r\u{e9}/x.js");
    assert_eq!(ownership_key("./r\u{e9}/x.js"), "r\u{e9}/x.js");
}

#[test]
fn files_written_with_dot_slash_have_the_owners_of_the_plain_path() {
    let options = CodeownerOptions {
        codeowners_file: Some("CODEOWNERS".to_string()),
        codeowners: paths(&["@alice"]),
    };
    let file = [("src/a.js", "@alice"), ("src/b.js", "@bob")];
    let lookup = |path: &String| {
        let key = ownership_key(path);
        file.iter().find(|(named, _)| *named == key).and_then(|(_, owner)| owners(&[*owner]))
    };
    let plain = paths(&["src/a.js", "src/b.js", "src/c.js"]);
    let dotted = paths(&["./src/a.js", "./src/b.js", "./src/c.js"]);
    let kept_plain = LintRunner::apply_codeowners_file(
        &options,
        plain.clone(),
        Some(plain.iter().map(lookup).collect()),
    );
    let kept_dotted = LintRunner::apply_codeowners_file(
        &options,
        dotted.clone(),
        Some(dotted.iter().map(lookup).collect()),
    );
    assert_eq!(kept_plain, Ok(paths(&["src/a.js"])));
    assert_eq!(kept_dotted, Ok(paths(&["./src/a.js"])));
}
