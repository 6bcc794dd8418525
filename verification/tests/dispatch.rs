use cargo_i18n::catalog::Translator;
use cargo_i18n::cli::{ArgumentParseError, I18nArguments, ParsedInvocation};
use cargo_i18n::dispatch::{
    conclude, dispatch, plan, reject, Action, BuildContext, BuildReport, ExitOutcome,
    CURRENT_DIRECTORY, FAILURE_CODE,
};
use cargo_i18n::shell::{Phase, Shell};

fn args(words: &[&str]) -> Vec<String> {
    words.iter().map(|w| w.to_string()).collect()
}

fn i18n(path: Option<&str>, config_file_name: &str) -> ParsedInvocation {
    ParsedInvocation::I18n(I18nArguments {
        path: path.map(String::from),
        config_file_name: config_file_name.to_string(),
    })
}

fn build(path: &str, config_file_name: &str) -> Action {
    Action::Build(BuildContext {
        path: path.to_string(),
        config_file_name: config_file_name.to_string(),
    })
}

#[test]
fn subcommand_without_a_path_builds_the_current_directory() {
    assert_eq!(CURRENT_DIRECTORY, ".");
    assert_eq!(dispatch(i18n(None, "i18n.toml")), build(".", "i18n.toml"));
    assert_eq!(dispatch(i18n(None, "custom.toml")), build(".", "custom.toml"));
}

#[test]
fn subcommand_with_a_path_builds_that_project() {
    assert_eq!(dispatch(i18n(Some("/tmp/proj"), "i18n.toml")), build("/tmp/proj", "i18n.toml"));
    assert_eq!(dispatch(i18n(Some(""), "x.toml")), build("", "x.toml"));
}

#[test]
fn context_is_made_of_the_arguments() {
    let context = BuildContext::new(I18nArguments {
        path: Some("../other".to_string()),
        config_file_name: "custom.toml".to_string(),
    });
    assert_eq!(context.path, "../other");
    assert_eq!(context.config_file_name, "custom.toml");
    let context =
        BuildContext::new(I18nArguments { path: None, config_file_name: "i18n.toml".to_string() });
    assert_eq!(context.path, ".");
    assert_eq!(context.config_file_name, "i18n.toml");
}

#[test]
fn no_subcommand_ends_the_run_cleanly() {
    let action = dispatch(ParsedInvocation::NoSubcommandMatched);
    assert_eq!(action, Action::Finish(ExitOutcome::NoSubcommandMatched));
    assert_eq!(ExitOutcome::NoSubcommandMatched.exit_code(), 0);
}

#[test]
fn text_that_was_asked_for_is_shown() {
    let action = dispatch(ParsedInvocation::Show("usage".to_string()));
    assert_eq!(action, Action::Finish(ExitOutcome::Shown("usage".to_string())));
    assert_eq!(ExitOutcome::Shown("usage".to_string()).exit_code(), 0);
}

#[test]
fn parse_error_ends_the_run_in_failure() {
    let outcome = reject(ArgumentParseError::Rejected("error: no".to_string()));
    assert_eq!(outcome, ExitOutcome::ArgumentParseError("error: no".to_string()));
    assert_eq!(outcome.exit_code(), 1);
    let outcome = reject(ArgumentParseError::MissingConfigFileName);
    assert_eq!(
        outcome,
        ExitOutcome::ArgumentParseError("expected a config file name to be present".to_string())
    );
    assert_ne!(outcome.exit_code(), 0);
}

#[test]
fn plan_builds_only_for_the_subcommand() {
    assert_eq!(plan(Ok(i18n(None, "i18n.toml"))), build(".", "i18n.toml"));
    assert_eq!(
        plan(Ok(ParsedInvocation::NoSubcommandMatched)),
        Action::Finish(ExitOutcome::NoSubcommandMatched)
    );
    assert_eq!(
        plan(Ok(ParsedInvocation::Show("usage".to_string()))),
        Action::Finish(ExitOutcome::Shown("usage".to_string()))
    );
    assert_eq!(
        plan(Err(ArgumentParseError::Rejected("error: no".to_string()))),
        Action::Finish(ExitOutcome::ArgumentParseError("error: no".to_string()))
    );
    assert_eq!(
        plan(Err(ArgumentParseError::MissingConfigFileName)),
        Action::Finish(ExitOutcome::ArgumentParseError(
            "expected a config file name to be present".to_string()
        ))
    );
}

#[test]
fn success_of_the_build_is_the_success_of_the_run() {
    assert_eq!(conclude(BuildReport::Succeeded), ExitOutcome::Success);
    assert_eq!(ExitOutcome::Success.exit_code(), 0);
}

#[test]
fn failure_of_the_build_is_passed_on_unchanged() {
    let outcome = conclude(BuildReport::Failed("msgfmt: not found".to_string()));
    assert_eq!(outcome, ExitOutcome::CollaboratorFailure("msgfmt: not found".to_string()));
    assert_eq!(outcome.exit_code(), FAILURE_CODE);
    assert_eq!(FAILURE_CODE, 1);
}

#[test]
fn project_that_cannot_be_opened_is_an_argument_error() {
    let outcome = conclude(BuildReport::InvalidProject("no such directory".to_string()));
    assert_eq!(outcome, ExitOutcome::ArgumentParseError("no such directory".to_string()));
    assert_eq!(outcome.exit_code(), 1);
}

#[test]
fn run_starts_uninitialized() {
    let shell = Shell::new();
    assert_eq!(shell.phase(), Phase::Uninitialized);
    assert!(shell.schema().is_none());
}

#[test]
fn run_goes_through_its_phases_in_order() {
    let translator = Translator::untranslated();
    let mut shell = Shell::new();
    assert!(shell.build_schema(&translator, "1.2.3", "A. Author"));
    assert_eq!(shell.phase(), Phase::SchemaBuilt);
    assert_eq!(shell.schema().unwrap().version(), "1.2.3");
    let action = shell.dispatch(&args(&["i18n", "-c", "custom.toml"]));
    assert_eq!(action, Some(build(".", "custom.toml")));
    assert_eq!(shell.phase(), Phase::Dispatched);
    assert_eq!(shell.schema().unwrap().version(), "1.2.3");
}

#[test]
fn dispatch_before_the_schema_is_refused() {
    let mut shell = Shell::new();
    assert_eq!(shell.dispatch(&args(&["i18n"])), None);
    assert_eq!(shell.phase(), Phase::Uninitialized);
    assert!(shell.schema().is_none());
}

#[test]
fn schema_is_built_once() {
    let translator = Translator::untranslated();
    let mut shell = Shell::new();
    assert!(shell.build_schema(&translator, "1.2.3", "A. Author"));
    assert!(!shell.build_schema(&translator, "4.5.6", "Another"));
    assert_eq!(shell.phase(), Phase::SchemaBuilt);
    assert_eq!(shell.schema().unwrap().version(), "1.2.3");
    assert_eq!(shell.schema().unwrap().author(), "A. Author");
}

#[test]
fn dispatch_is_single_shot() {
    let translator = Translator::untranslated();
    let mut shell = Shell::new();
    assert!(shell.build_schema(&translator, "1.2.3", "A. Author"));
    assert_eq!(shell.dispatch(&args(&["i18n"])), Some(build(".", "i18n.toml")));
    assert_eq!(shell.dispatch(&args(&["i18n"])), None);
    assert!(!shell.build_schema(&translator, "1.2.3", "A. Author"));
    assert_eq!(shell.phase(), Phase::Dispatched);
}

#[test]
fn dispatch_of_an_unknown_subcommand_ends_the_run_cleanly() {
    let translator = Translator::untranslated();
    let mut shell = Shell::new();
    assert!(shell.build_schema(&translator, "1.2.3", "A. Author"));
    let action = shell.dispatch(&args(&["build"]));
    assert_eq!(action, Some(Action::Finish(ExitOutcome::NoSubcommandMatched)));
    assert_eq!(shell.phase(), Phase::Dispatched);
}

#[test]
fn dispatch_of_a_parse_error_never_builds() {
    let translator = Translator::untranslated();
    let mut shell = Shell::new();
    assert!(shell.build_schema(&translator, "1.2.3", "A. Author"));
    let action = shell.dispatch(&args(&["i18n", "--path", "/tmp/proj", "--bogus-flag"]));
    match action {
        Some(Action::Finish(ExitOutcome::ArgumentParseError(message))) => {
            assert!(message.contains("--bogus-flag"), "{}", message)
        }
        other => panic!("expected the end of the run, got {:?}", other),
    }
    assert_eq!(shell.phase(), Phase::Dispatched);
}
