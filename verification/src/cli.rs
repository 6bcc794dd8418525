//! Reading an argument list against the schema.
//!
//! The `clap` crate does the reading. What this module adds is what stands
//! around it: which argument lists never reach the parser, what is handed to
//! it, and what each of its answers means for the caller.

use crate::schema::{
    ArgumentSchema, DefaultedOptionView, LongOptionView, SchemaView, SubcommandView, SUBCOMMAND,
};
use clap::{App, Arg, SubCommand};
use vstd::prelude::*;
use vstd::string::StrSliceExecFns;

verus! {

/// The refusal of a `clap` parser.
#[verifier::external_type_specification]
#[verifier::external_body]
pub struct ExParserError(clap::Error);

/// The sub-command that the parser adds by itself, and answers with a help
/// text.
pub const HELP_SUBCOMMAND: &'static str = "help";

/// The text of [`ArgumentParseError::MissingConfigFileName`].
pub const MISSING_CONFIG_FILE_NAME: &'static str = "expected a config file name to be present";

/// What was given for the options of the `i18n` sub-command.
#[derive(Debug, PartialEq, Eq)]
pub struct I18nArguments {
    /// The directory of the crate, where the command line names one.
    pub path: Option<String>,
    /// The name of the config file, from the command line or by default.
    pub config_file_name: String,
}

/// An argument list that was understood.
#[derive(Debug, PartialEq, Eq)]
pub enum ParsedInvocation {
    /// The `i18n` sub-command, with its options.
    I18n(I18nArguments),
    /// No sub-command that this program knows. This is no error: there is
    /// nothing to do.
    NoSubcommandMatched,
    /// A text was asked for, the help or the version. It is to be shown, and
    /// nothing else is to be done. Where the version was asked for the text
    /// is empty: the parser has written the version to the standard output
    /// by itself.
    Show(String),
}

/// An argument list that was not understood.
#[derive(Debug, PartialEq, Eq)]
pub enum ArgumentParseError {
    /// The parser refused the arguments; this is its message, which names
    /// the offending argument and the usage.
    Rejected(String),
    /// The parser matched the `i18n` sub-command and gave no name for the
    /// config file.
    MissingConfigFileName,
}

/// The values that the parser holds for the options of the sub-command.
#[derive(Debug, PartialEq, Eq)]
pub struct RawValues {
    pub path: Option<String>,
    pub config_file_name: Option<String>,
}

/// The answer of the parser, in plain values.
#[derive(Debug, PartialEq, Eq)]
pub enum ParserReply {
    /// The arguments were accepted. The values are those of the `i18n`
    /// sub-command, or `None` where the arguments name no sub-command.
    Matched(Option<RawValues>),
    /// The parser stopped with a message. `use_stderr` tells a refusal of
    /// the arguments from a text that was asked for.
    Refused { message: String, use_stderr: bool },
}

pub ghost struct I18nArgumentsView {
    pub path: Option<Seq<char>>,
    pub config_file_name: Seq<char>,
}

pub ghost enum InvocationView {
    I18n(I18nArgumentsView),
    NoSubcommandMatched,
    Show(Seq<char>),
}

pub ghost enum ParseErrorView {
    Rejected(Seq<char>),
    MissingConfigFileName,
}

pub ghost struct RawValuesView {
    pub path: Option<Seq<char>>,
    pub config_file_name: Option<Seq<char>>,
}

pub ghost enum ReplyView {
    Matched(Option<RawValuesView>),
    Refused { message: Seq<char>, use_stderr: bool },
}

/// The text of a string that may be absent.
pub open spec fn text_of(value: Option<String>) -> Option<Seq<char>> {
    match value {
        Some(text) => Some(text@),
        None => None,
    }
}

impl View for I18nArguments {
    type V = I18nArgumentsView;

    open spec fn view(&self) -> I18nArgumentsView {
        I18nArgumentsView {
            path: text_of(self.path),
            config_file_name: self.config_file_name@,
        }
    }
}

impl View for ParsedInvocation {
    type V = InvocationView;

    open spec fn view(&self) -> InvocationView {
        match self {
            ParsedInvocation::I18n(arguments) => InvocationView::I18n(arguments@),
            ParsedInvocation::NoSubcommandMatched => InvocationView::NoSubcommandMatched,
            ParsedInvocation::Show(text) => InvocationView::Show(text@),
        }
    }
}

impl View for ArgumentParseError {
    type V = ParseErrorView;

    open spec fn view(&self) -> ParseErrorView {
        match self {
            ArgumentParseError::Rejected(message) => ParseErrorView::Rejected(message@),
            ArgumentParseError::MissingConfigFileName => ParseErrorView::MissingConfigFileName,
        }
    }
}

impl View for RawValues {
    type V = RawValuesView;

    open spec fn view(&self) -> RawValuesView {
        RawValuesView {
            path: text_of(self.path),
            config_file_name: text_of(self.config_file_name),
        }
    }
}

impl View for ParserReply {
    type V = ReplyView;

    open spec fn view(&self) -> ReplyView {
        match self {
            ParserReply::Matched(Some(values)) => ReplyView::Matched(Some(values@)),
            ParserReply::Matched(None) => ReplyView::Matched(None),
            ParserReply::Refused { message, use_stderr } => ReplyView::Refused {
                message: message@,
                use_stderr: *use_stderr,
            },
        }
    }
}

/// The view of what [`parse`] and [`interpret`] return.
pub open spec fn parsed_view(parsed: Result<ParsedInvocation, ArgumentParseError>) -> Result<
    InvocationView,
    ParseErrorView,
> {
    match parsed {
        Ok(invocation) => Ok(invocation@),
        Err(error) => Err(error@),
    }
}

/// The texts of a list of strings.
pub open spec fn texts(strings: Seq<String>) -> Seq<Seq<char>> {
    strings.map_values(|s: String| s@)
}

/// An argument that starts with a hyphen is a flag.
pub open spec fn is_flag(argument: Seq<char>) -> bool {
    argument.len() > 0 && argument[0] == '-'
}

/// The argument list names no sub-command of this program: it is empty, or
/// it starts with a word that is neither a flag nor a sub-command.
pub open spec fn names_no_subcommand(arguments: Seq<Seq<char>>) -> bool {
    arguments.len() == 0 || {
        &&& !is_flag(arguments[0])
        &&& arguments[0] != SUBCOMMAND@
        &&& arguments[0] != HELP_SUBCOMMAND@
    }
}

/// What an answer of the parser means.
///
/// Accepted arguments without a sub-command are no error. Under the
/// sub-command the config file must have a name, and the path may be absent.
/// A message for the error stream is a refusal; any other message is a text
/// that the user asked for.
pub open spec fn outcome_of(reply: ReplyView) -> Result<InvocationView, ParseErrorView> {
    match reply {
        ReplyView::Matched(None) => Ok(InvocationView::NoSubcommandMatched),
        ReplyView::Matched(Some(values)) => match values.config_file_name {
            Some(config_file_name) => Ok(
                InvocationView::I18n(I18nArgumentsView { path: values.path, config_file_name }),
            ),
            None => Err(ParseErrorView::MissingConfigFileName),
        },
        ReplyView::Refused { message, use_stderr } => if use_stderr {
            Err(ParseErrorView::Rejected(message))
        } else {
            Ok(InvocationView::Show(message))
        },
    }
}

/// What the parser matches on a command line, the name of the binary
/// first, where it is built for `schema`: `None` where it stops with a
/// message, else the values that it holds for the options of the `i18n`
/// sub-command, or `None` in their place where the command line names no
/// sub-command.
pub uninterp spec fn matched_values(schema: SchemaView, line: Seq<Seq<char>>) -> Option<
    Option<RawValuesView>,
>;

/// The values of the sub-command as the parser gives them, by their view.
pub open spec fn values_view(values: Option<RawValues>) -> Option<RawValuesView> {
    match values {
        Some(values) => Some(values@),
        None => None,
    }
}

/// The schema that is made of these texts, each in its place.
pub open spec fn schema_from(
    name: Seq<char>,
    bin_name: Seq<char>,
    about: Seq<char>,
    version: Seq<char>,
    author: Seq<char>,
    subcommand: Seq<char>,
    short_about: Seq<char>,
    long_about: Seq<char>,
    path: LongOptionView,
    config_file_name: DefaultedOptionView,
) -> SchemaView {
    SchemaView {
        name,
        bin_name,
        about,
        version,
        author,
        i18n: SubcommandView {
            name: subcommand,
            about: short_about,
            long_about,
            path,
            config_file_name,
        },
    }
}

/// Builds the parser and runs it on a command line, the name of the binary
/// first.
///
/// The parser of the sub-command is made with `clap::SubCommand::with_name`
/// and the setters of `clap::App` and `clap::Arg`, the parser of the program
/// with `clap::App::new` and the setters of `clap::App`; each text goes to
/// the setter of its name. The call is `clap::App::get_matches_from_safe`,
/// and the values are read out of the matches with
/// `clap::ArgMatches::subcommand_matches` and `clap::ArgMatches::value_of`.
///
/// Not proved: that whether `clap` accepts the command line, and which
/// values it then holds, is settled by the texts of the schema and the
/// command line alone. [`matched_values`] is the name of that answer.
/// Nothing is claimed of the refusal: its message is coloured where the
/// error stream is a terminal, and where the command line asks for the
/// version, `clap` writes it to the standard output before it returns.
///
/// The shape is asked for because `clap` panics, where it is built with its
/// own checks, on two options of one name or one flag: the fixed shape has
/// neither.
#[verifier::external_body]
fn ask_parser(
    name: &str,
    bin_name: &str,
    about: &str,
    version: &str,
    author: &str,
    subcommand: &str,
    short_about: &str,
    long_about: &str,
    path_name: &str,
    path_long: &str,
    path_help: &str,
    config_name: &str,
    config_long: &str,
    config_short: char,
    config_help: &str,
    config_default: &str,
    command_line: &Vec<String>,
) -> (r: Result<Option<RawValues>, clap::Error>)
    requires
        schema_from(
            name@,
            bin_name@,
            about@,
            version@,
            author@,
            subcommand@,
            short_about@,
            long_about@,
            (LongOptionView { name: path_name@, long: path_long@, help: path_help@ }),
            (DefaultedOptionView {
                name: config_name@,
                long: config_long@,
                short: config_short,
                default_value: config_default@,
                help: config_help@,
            }),
        ).has_fixed_shape(),
    ensures
        ({
            let schema = schema_from(
                name@,
                bin_name@,
                about@,
                version@,
                author@,
                subcommand@,
                short_about@,
                long_about@,
                (LongOptionView { name: path_name@, long: path_long@, help: path_help@ }),
                (DefaultedOptionView {
                    name: config_name@,
                    long: config_long@,
                    short: config_short,
                    default_value: config_default@,
                    help: config_help@,
                }),
            );
            match r {
                Ok(values) => matched_values(schema, texts(command_line@)) == Some(
                    values_view(values),
                ),
                Err(_) => matched_values(schema, texts(command_line@)) is None,
            }
        }),
{
    let i18n = SubCommand::with_name(subcommand)
        .about(short_about).long_about(long_about).version(version).author(author)
        .arg(Arg::with_name(path_name).long(path_long).help(path_help).takes_value(true))
        .arg(Arg::with_name(config_name).long(config_long).short(config_short.to_string())
            .help(config_help).takes_value(true).default_value(config_default));
    let parser = App::new(name).bin_name(bin_name).about(about).version(version).author(author);
    let matches = parser.subcommand(i18n).get_matches_from_safe(command_line)?;
    Ok(matches.subcommand_matches(subcommand).map(|found| RawValues {
        path: found.value_of(path_name).map(String::from),
        config_file_name: found.value_of(config_name).map(String::from),
    }))
}

/// Reads the message of a `clap::Error`, and with `clap::Error::use_stderr`
/// whether the message is meant for the error stream.
///
/// Nothing is claimed of either.
#[verifier::external_body]
fn refusal(error: &clap::Error) -> (r: (String, bool))
{
    (error.message.clone(), error.use_stderr())
}

impl ArgumentParseError {
    /// The text of the error.
    pub open spec fn message_text(error: ParseErrorView) -> Seq<char> {
        match error {
            ParseErrorView::Rejected(message) => message,
            ParseErrorView::MissingConfigFileName => MISSING_CONFIG_FILE_NAME@,
        }
    }

    /// The text to report to the user.
    pub fn message(&self) -> (r: String)
        ensures
            r@ == Self::message_text(self@),
    {
        match self {
            ArgumentParseError::Rejected(message) => message.clone(),
            ArgumentParseError::MissingConfigFileName => MISSING_CONFIG_FILE_NAME.to_owned(),
        }
    }
}

/// Tells whether the argument list names no sub-command of this program.
pub fn leads_nowhere(arguments: &Vec<String>) -> (r: bool)
    ensures
        r == names_no_subcommand(texts(arguments@)),
{
    if arguments.len() == 0 {
        return true;
    }
    let first = &arguments[0];
    let word = first.as_str();
    if word.unicode_len() > 0 && word.get_char(0) == '-' {
        return false;
    }
    let subcommand = SUBCOMMAND.to_owned();
    let help = HELP_SUBCOMMAND.to_owned();
    !(*first == subcommand) && !(*first == help)
}

/// The command line that the parser is given: the name of the binary, then
/// the arguments in their order.
pub fn command_line(schema: &ArgumentSchema, arguments: &Vec<String>) -> (r: Vec<String>)
    ensures
        texts(r@) == seq![schema@.bin_name] + texts(arguments@),
{
    let mut line: Vec<String> = Vec::new();
    line.push(schema.bin_name().to_owned());
    let mut i: usize = 0;
    while i < arguments.len()
        invariant
            i <= arguments.len(),
            texts(line@) == seq![schema@.bin_name] + texts(arguments@.subrange(0, i as int)),
        decreases arguments.len() - i,
    {
        let ghost before = line@;
        let argument = arguments[i].clone();
        line.push(argument);
        i += 1;
        assert(texts(line@) =~= texts(before).push(argument@));
        assert(texts(arguments@.subrange(0, i as int)) =~= texts(
            arguments@.subrange(0, i - 1),
        ).push(argument@));
        assert(texts(line@) =~= seq![schema@.bin_name] + texts(
            arguments@.subrange(0, i as int),
        ));
    }
    assert(arguments@.subrange(0, i as int) =~= arguments@);
    line
}

/// Says what an answer of the parser means for the caller.
pub fn interpret(reply: ParserReply) -> (r: Result<ParsedInvocation, ArgumentParseError>)
    ensures
        parsed_view(r) == outcome_of(reply@),
{
    match reply {
        ParserReply::Matched(None) => Ok(ParsedInvocation::NoSubcommandMatched),
        ParserReply::Matched(Some(values)) => match values.config_file_name {
            Some(config_file_name) => Ok(
                ParsedInvocation::I18n(I18nArguments { path: values.path, config_file_name }),
            ),
            None => Err(ArgumentParseError::MissingConfigFileName),
        },
        ParserReply::Refused { message, use_stderr } => if use_stderr {
            Err(ArgumentParseError::Rejected(message))
        } else {
            Ok(ParsedInvocation::Show(message))
        },
    }
}

/// Reads the arguments of the process, without the name of the program,
/// against the schema.
///
/// An empty list, and a list that starts with a word which is neither a flag
/// nor a sub-command, names no sub-command of this program: it is answered
/// with [`ParsedInvocation::NoSubcommandMatched`] and never reaches the
/// parser. Every other list is handed to the parser as [`command_line`]
/// gives it. Where the parser accepts it, the result is what [`interpret`]
/// makes of the values that the parser matched; where the parser stops with
/// a message, the result is a rejection, or a text to show, with that
/// message.
pub fn parse(schema: &ArgumentSchema, arguments: &Vec<String>) -> (r: Result<
    ParsedInvocation,
    ArgumentParseError,
>)
    ensures
        names_no_subcommand(texts(arguments@)) ==> parsed_view(r) == Ok::<
            InvocationView,
            ParseErrorView,
        >(InvocationView::NoSubcommandMatched),
        !names_no_subcommand(texts(arguments@)) ==> match matched_values(
            schema@,
            seq![schema@.bin_name] + texts(arguments@),
        ) {
            Some(values) => parsed_view(r) == outcome_of(ReplyView::Matched(values)),
            None => r matches Ok(ParsedInvocation::Show(_)) || r matches Err(
                ArgumentParseError::Rejected(_),
            ),
        },
{
    if leads_nowhere(arguments) {
        return Ok(ParsedInvocation::NoSubcommandMatched);
    }
    proof {
        use_type_invariant(schema);
    }
    let line = command_line(schema, arguments);
    let i18n = schema.i18n();
    let asked = ask_parser(
        schema.name(),
        schema.bin_name(),
        schema.about(),
        schema.version(),
        schema.author(),
        i18n.name.as_str(),
        i18n.about.as_str(),
        i18n.long_about.as_str(),
        i18n.path.name.as_str(),
        i18n.path.long.as_str(),
        i18n.path.help.as_str(),
        i18n.config_file_name.name.as_str(),
        i18n.config_file_name.long.as_str(),
        i18n.config_file_name.short,
        i18n.config_file_name.help.as_str(),
        i18n.config_file_name.default_value.as_str(),
        &line,
    );
    let reply = match asked {
        Ok(values) => ParserReply::Matched(values),
        Err(error) => {
            let (message, use_stderr) = refusal(&error);
            ParserReply::Refused { message, use_stderr }
        },
    };
    interpret(reply)
}

} // verus!
