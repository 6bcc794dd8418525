//! What the process does once the arguments are read.
//!
//! The build itself is the work of an outside routine that reads files and
//! runs other programs. This module decides whether that routine is to run,
//! on which project, and how the process is to end: the caller runs the
//! routine and reports back.

use crate::cli::{
    parsed_view, ArgumentParseError, I18nArguments, I18nArgumentsView, InvocationView,
    ParseErrorView, ParsedInvocation,
};
use vstd::prelude::*;

verus! {

/// The directory of the project where the command line names none.
pub const CURRENT_DIRECTORY: &'static str = ".";

/// The exit code of a process that has failed.
pub const FAILURE_CODE: u8 = 1;

/// The project that the build routine is to work on.
#[derive(Debug, PartialEq, Eq)]
pub struct BuildContext {
    /// The root directory of the project.
    pub path: String,
    /// The name of the config file in that directory.
    pub config_file_name: String,
}

/// How the process ends.
#[derive(Debug, PartialEq, Eq)]
pub enum ExitOutcome {
    /// The build routine ran and reported success.
    Success,
    /// The arguments named no sub-command of this program: nothing was run,
    /// and nothing went wrong.
    NoSubcommandMatched,
    /// A text was asked for. It goes to the standard output.
    Shown(String),
    /// The arguments were not understood, or the project that they name is
    /// none. The message goes to the error stream.
    ArgumentParseError(String),
    /// The build routine failed. Its message is passed on as it came.
    CollaboratorFailure(String),
}

/// What the caller has to do next.
#[derive(Debug, PartialEq, Eq)]
pub enum Action {
    /// Run the build routine on this project, once, and hand its report to
    /// [`conclude`].
    Build(BuildContext),
    /// Run nothing, and end like this.
    Finish(ExitOutcome),
}

/// What came of running the build routine.
#[derive(Debug, PartialEq, Eq)]
pub enum BuildReport {
    /// The routine ran to its end.
    Succeeded,
    /// The project could not be opened: the path or the config file is not
    /// what the command line says. The routine did not run.
    InvalidProject(String),
    /// The routine ran and failed.
    Failed(String),
}

pub ghost struct BuildContextView {
    pub path: Seq<char>,
    pub config_file_name: Seq<char>,
}

pub ghost enum ExitView {
    Success,
    NoSubcommandMatched,
    Shown(Seq<char>),
    ArgumentParseError(Seq<char>),
    CollaboratorFailure(Seq<char>),
}

pub ghost enum ActionView {
    Build(BuildContextView),
    Finish(ExitView),
}

pub ghost enum ReportView {
    Succeeded,
    InvalidProject(Seq<char>),
    Failed(Seq<char>),
}

impl View for BuildContext {
    type V = BuildContextView;

    open spec fn view(&self) -> BuildContextView {
        BuildContextView { path: self.path@, config_file_name: self.config_file_name@ }
    }
}

impl View for ExitOutcome {
    type V = ExitView;

    open spec fn view(&self) -> ExitView {
        match self {
            ExitOutcome::Success => ExitView::Success,
            ExitOutcome::NoSubcommandMatched => ExitView::NoSubcommandMatched,
            ExitOutcome::Shown(text) => ExitView::Shown(text@),
            ExitOutcome::ArgumentParseError(message) => ExitView::ArgumentParseError(message@),
            ExitOutcome::CollaboratorFailure(message) => ExitView::CollaboratorFailure(message@),
        }
    }
}

impl View for Action {
    type V = ActionView;

    open spec fn view(&self) -> ActionView {
        match self {
            Action::Build(context) => ActionView::Build(context@),
            Action::Finish(outcome) => ActionView::Finish(outcome@),
        }
    }
}

impl View for BuildReport {
    type V = ReportView;

    open spec fn view(&self) -> ReportView {
        match self {
            BuildReport::Succeeded => ReportView::Succeeded,
            BuildReport::InvalidProject(message) => ReportView::InvalidProject(message@),
            BuildReport::Failed(message) => ReportView::Failed(message@),
        }
    }
}

/// The project that the options of the sub-command name: the path as given,
/// or the current directory, and the config file.
pub open spec fn context_of(arguments: I18nArgumentsView) -> BuildContextView {
    BuildContextView {
        path: match arguments.path {
            Some(path) => path,
            None => CURRENT_DIRECTORY@,
        },
        config_file_name: arguments.config_file_name,
    }
}

/// What follows from an argument list that was understood.
pub open spec fn action_of(invocation: InvocationView) -> ActionView {
    match invocation {
        InvocationView::I18n(arguments) => ActionView::Build(context_of(arguments)),
        InvocationView::NoSubcommandMatched => ActionView::Finish(ExitView::NoSubcommandMatched),
        InvocationView::Show(text) => ActionView::Finish(ExitView::Shown(text)),
    }
}

/// How the process ends on an argument list that was not understood.
pub open spec fn rejection_of(error: ParseErrorView) -> ExitView {
    ExitView::ArgumentParseError(ArgumentParseError::message_text(error))
}

/// What follows from the reading of the arguments, whichever way it went.
pub open spec fn plan_of(parsed: Result<InvocationView, ParseErrorView>) -> ActionView {
    match parsed {
        Ok(invocation) => action_of(invocation),
        Err(error) => ActionView::Finish(rejection_of(error)),
    }
}

/// How the process ends after the build routine was asked to run.
pub open spec fn conclusion_of(report: ReportView) -> ExitView {
    match report {
        ReportView::Succeeded => ExitView::Success,
        ReportView::InvalidProject(message) => ExitView::ArgumentParseError(message),
        ReportView::Failed(message) => ExitView::CollaboratorFailure(message),
    }
}

/// An outcome that is a failure of the process.
pub open spec fn is_failure(outcome: ExitView) -> bool {
    outcome is ArgumentParseError || outcome is CollaboratorFailure
}

/// The exit code of the process: zero unless it failed.
pub open spec fn exit_code_of(outcome: ExitView) -> u8 {
    if is_failure(outcome) {
        FAILURE_CODE
    } else {
        0
    }
}

/// The build routine runs on an argument list only if the list was
/// understood and named the sub-command. After a parse error it never runs,
/// and the process ends in failure with the message of the error.
pub proof fn build_needs_the_subcommand(parsed: Result<InvocationView, ParseErrorView>)
    ensures
        plan_of(parsed) is Build <==> parsed matches Ok(InvocationView::I18n(_)),
        parsed matches Err(error) ==> plan_of(parsed) == ActionView::Finish(
            ExitView::ArgumentParseError(ArgumentParseError::message_text(error)),
        ),
        parsed is Err ==> (plan_of(parsed) matches ActionView::Finish(outcome) && exit_code_of(
            outcome,
        ) != 0),
{
}

/// The process ends with exit code zero exactly when nothing failed: after
/// a build that succeeded, after a text that was asked for, and where no
/// sub-command matched.
pub proof fn exit_code_tells_failure(outcome: ExitView)
    ensures
        exit_code_of(outcome) == 0 <==> !(outcome is ArgumentParseError
            || outcome is CollaboratorFailure),
{
}

impl BuildContext {
    /// The project that the options of the sub-command name.
    pub fn new(arguments: I18nArguments) -> (r: BuildContext)
        ensures
            r@ == context_of(arguments@),
    {
        let path = match arguments.path {
            Some(path) => path,
            None => CURRENT_DIRECTORY.to_owned(),
        };
        BuildContext { path, config_file_name: arguments.config_file_name }
    }
}

impl ExitOutcome {
    /// The exit code of the process.
    pub fn exit_code(&self) -> (r: u8)
        ensures
            r == exit_code_of(self@),
    {
        match self {
            ExitOutcome::ArgumentParseError(_) => FAILURE_CODE,
            ExitOutcome::CollaboratorFailure(_) => FAILURE_CODE,
            _ => 0,
        }
    }
}

/// Decides what follows from an argument list that was understood.
///
/// The sub-command asks for one run of the build routine on the project
/// that its options name. Anything else ends the process without a run.
pub fn dispatch(invocation: ParsedInvocation) -> (r: Action)
    ensures
        r@ == action_of(invocation@),
{
    match invocation {
        ParsedInvocation::I18n(arguments) => Action::Build(BuildContext::new(arguments)),
        ParsedInvocation::NoSubcommandMatched => Action::Finish(ExitOutcome::NoSubcommandMatched),
        ParsedInvocation::Show(text) => Action::Finish(ExitOutcome::Shown(text)),
    }
}

/// Says how the process ends on an argument list that was not understood.
pub fn reject(error: ArgumentParseError) -> (r: ExitOutcome)
    ensures
        r@ == rejection_of(error@),
{
    ExitOutcome::ArgumentParseError(error.message())
}

/// Decides what follows from the reading of the arguments.
pub fn plan(parsed: Result<ParsedInvocation, ArgumentParseError>) -> (r: Action)
    ensures
        r@ == plan_of(parsed_view(parsed)),
{
    match parsed {
        Ok(invocation) => dispatch(invocation),
        Err(error) => Action::Finish(reject(error)),
    }
}

/// Says how the process ends after the build routine was asked to run.
///
/// A failure of the routine is passed on with its message unchanged. A
/// project that could not be opened counts as an error in the arguments.
pub fn conclude(report: BuildReport) -> (r: ExitOutcome)
    ensures
        r@ == conclusion_of(report@),
{
    match report {
        BuildReport::Succeeded => ExitOutcome::Success,
        BuildReport::InvalidProject(message) => ExitOutcome::ArgumentParseError(message),
        BuildReport::Failed(message) => ExitOutcome::CollaboratorFailure(message),
    }
}

} // verus!
