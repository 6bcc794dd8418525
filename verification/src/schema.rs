//! The schema of the command line: which sub-command and options exist, and
//! the localized texts that describe them.
//!
//! The shape of the command line is fixed: one sub-command, `i18n`, with the
//! options `--path <dir>` and `-c, --config-file-name <name>`. What changes
//! from one run to the next is the language of the descriptions, which are
//! translated when the schema is built and never again.

use crate::catalog::{translation, Translator};
use crate::messages::{
    long_about, long_about_text, short_about, short_about_text, BINARY_ABOUT,
    CONFIG_FILE_NAME_HELP, LONG_ABOUT_DETAILS, PATH_HELP, SHORT_ABOUT,
};
use vstd::prelude::*;

verus! {

/// The name of the program in its own help.
pub const PROGRAM_NAME: &'static str = "cargo-i18n";

/// The name of the binary through which the sub-command is reached.
pub const BINARY_NAME: &'static str = "cargo";

/// The one sub-command.
pub const SUBCOMMAND: &'static str = "i18n";

/// The name, and the long flag, of the option for the crate's directory.
pub const PATH_OPTION: &'static str = "path";

/// The name of the option for the config file.
pub const CONFIG_FILE_NAME_OPTION: &'static str = "config file name";

/// The long flag of the option for the config file.
pub const CONFIG_FILE_NAME_LONG: &'static str = "config-file-name";

/// The short flag of the option for the config file.
pub const CONFIG_FILE_NAME_SHORT: char = 'c';

/// The config file that is looked for where the command line names none.
pub const DEFAULT_CONFIG_FILE_NAME: &'static str = "i18n.toml";

/// An option that takes one value and is reached by a long flag only.
#[derive(Debug, PartialEq, Eq)]
pub struct LongOption {
    pub name: String,
    pub long: String,
    pub help: String,
}

/// An option that takes one value, is reached by a long or a short flag,
/// and has a value of its own where the command line gives none.
#[derive(Debug, PartialEq, Eq)]
pub struct DefaultedOption {
    pub name: String,
    pub long: String,
    pub short: char,
    pub default_value: String,
    pub help: String,
}

/// A sub-command with its two options.
#[derive(Debug, PartialEq, Eq)]
pub struct SubcommandSchema {
    pub name: String,
    pub about: String,
    pub long_about: String,
    pub path: LongOption,
    pub config_file_name: DefaultedOption,
}

/// The whole command line. Values of this type are made by
/// [`build_schema`] alone, so the shape is always the fixed one.
#[derive(Debug)]
pub struct ArgumentSchema {
    pub(crate) name: String,
    pub(crate) bin_name: String,
    pub(crate) about: String,
    pub(crate) version: String,
    pub(crate) author: String,
    pub(crate) i18n: SubcommandSchema,
}

pub ghost struct LongOptionView {
    pub name: Seq<char>,
    pub long: Seq<char>,
    pub help: Seq<char>,
}

pub ghost struct DefaultedOptionView {
    pub name: Seq<char>,
    pub long: Seq<char>,
    pub short: char,
    pub default_value: Seq<char>,
    pub help: Seq<char>,
}

pub ghost struct SubcommandView {
    pub name: Seq<char>,
    pub about: Seq<char>,
    pub long_about: Seq<char>,
    pub path: LongOptionView,
    pub config_file_name: DefaultedOptionView,
}

pub ghost struct SchemaView {
    pub name: Seq<char>,
    pub bin_name: Seq<char>,
    pub about: Seq<char>,
    pub version: Seq<char>,
    pub author: Seq<char>,
    pub i18n: SubcommandView,
}

impl View for LongOption {
    type V = LongOptionView;

    open spec fn view(&self) -> LongOptionView {
        LongOptionView { name: self.name@, long: self.long@, help: self.help@ }
    }
}

impl View for DefaultedOption {
    type V = DefaultedOptionView;

    open spec fn view(&self) -> DefaultedOptionView {
        DefaultedOptionView {
            name: self.name@,
            long: self.long@,
            short: self.short,
            default_value: self.default_value@,
            help: self.help@,
        }
    }
}

impl View for SubcommandSchema {
    type V = SubcommandView;

    open spec fn view(&self) -> SubcommandView {
        SubcommandView {
            name: self.name@,
            about: self.about@,
            long_about: self.long_about@,
            path: self.path@,
            config_file_name: self.config_file_name@,
        }
    }
}

impl View for ArgumentSchema {
    type V = SchemaView;

    closed spec fn view(&self) -> SchemaView {
        SchemaView {
            name: self.name@,
            bin_name: self.bin_name@,
            about: self.about@,
            version: self.version@,
            author: self.author@,
            i18n: self.i18n@,
        }
    }
}

impl SchemaView {
    /// The part of a schema that no translation touches: the names, the
    /// flags and the default value.
    pub open spec fn has_fixed_shape(self) -> bool {
        &&& self.name == PROGRAM_NAME@
        &&& self.bin_name == BINARY_NAME@
        &&& self.i18n.name == SUBCOMMAND@
        &&& self.i18n.path.name == PATH_OPTION@
        &&& self.i18n.path.long == PATH_OPTION@
        &&& self.i18n.config_file_name.name == CONFIG_FILE_NAME_OPTION@
        &&& self.i18n.config_file_name.long == CONFIG_FILE_NAME_LONG@
        &&& self.i18n.config_file_name.short == CONFIG_FILE_NAME_SHORT
        &&& self.i18n.config_file_name.default_value == DEFAULT_CONFIG_FILE_NAME@
    }
}

/// The schema that a translator with these entries gives: the fixed shape,
/// with every description looked up in the entries.
pub open spec fn schema_of(
    entries: Map<Seq<char>, Seq<char>>,
    version: Seq<char>,
    author: Seq<char>,
) -> SchemaView {
    SchemaView {
        name: PROGRAM_NAME@,
        bin_name: BINARY_NAME@,
        about: translation(entries, BINARY_ABOUT@),
        version,
        author,
        i18n: SubcommandView {
            name: SUBCOMMAND@,
            about: short_about_text(entries),
            long_about: long_about_text(entries),
            path: LongOptionView {
                name: PATH_OPTION@,
                long: PATH_OPTION@,
                help: translation(entries, PATH_HELP@),
            },
            config_file_name: DefaultedOptionView {
                name: CONFIG_FILE_NAME_OPTION@,
                long: CONFIG_FILE_NAME_LONG@,
                short: CONFIG_FILE_NAME_SHORT,
                default_value: DEFAULT_CONFIG_FILE_NAME@,
                help: translation(entries, CONFIG_FILE_NAME_HELP@),
            },
        },
    }
}

/// The schema in the source language: every description is the text that
/// stands in this crate, and the long description is the short one followed
/// by the details.
pub open spec fn source_schema(version: Seq<char>, author: Seq<char>) -> SchemaView {
    SchemaView {
        name: PROGRAM_NAME@,
        bin_name: BINARY_NAME@,
        about: BINARY_ABOUT@,
        version,
        author,
        i18n: SubcommandView {
            name: SUBCOMMAND@,
            about: SHORT_ABOUT@,
            long_about: SHORT_ABOUT@ + LONG_ABOUT_DETAILS@,
            path: LongOptionView { name: PATH_OPTION@, long: PATH_OPTION@, help: PATH_HELP@ },
            config_file_name: DefaultedOptionView {
                name: CONFIG_FILE_NAME_OPTION@,
                long: CONFIG_FILE_NAME_LONG@,
                short: CONFIG_FILE_NAME_SHORT,
                default_value: DEFAULT_CONFIG_FILE_NAME@,
                help: CONFIG_FILE_NAME_HELP@,
            },
        },
    }
}

/// Whatever the entries, the schema that they give has the fixed shape.
pub proof fn schema_shape_is_fixed(
    entries: Map<Seq<char>, Seq<char>>,
    version: Seq<char>,
    author: Seq<char>,
)
    ensures
        schema_of(entries, version, author).has_fixed_shape(),
{
}

impl ArgumentSchema {
    /// Holds of every schema: its shape is the fixed one.
    #[verifier::type_invariant]
    pub open spec fn shape_is_fixed(self) -> bool {
        self@.has_fixed_shape()
    }

    /// The name of the program.
    pub fn name(&self) -> (r: &str)
        ensures
            r@ == self@.name,
    {
        self.name.as_str()
    }

    /// The name of the binary that the usage line starts with.
    pub fn bin_name(&self) -> (r: &str)
        ensures
            r@ == self@.bin_name,
    {
        self.bin_name.as_str()
    }

    /// What the program says about itself.
    pub fn about(&self) -> (r: &str)
        ensures
            r@ == self@.about,
    {
        self.about.as_str()
    }

    /// The version that `--version` shows.
    pub fn version(&self) -> (r: &str)
        ensures
            r@ == self@.version,
    {
        self.version.as_str()
    }

    /// The authors that the help shows.
    pub fn author(&self) -> (r: &str)
        ensures
            r@ == self@.author,
    {
        self.author.as_str()
    }

    /// The sub-command with its options.
    pub fn i18n(&self) -> (r: &SubcommandSchema)
        ensures
            r@ == self@.i18n,
    {
        &self.i18n
    }
}

/// Builds the schema, with every description translated now.
///
/// The result is the fixed shape with the descriptions that `translator`
/// gives. No translator makes this fail. With a translator that holds no
/// translation the schema is the one in the source language.
pub fn build_schema(translator: &Translator, version: &str, author: &str) -> (r: ArgumentSchema)
    ensures
        r@ == schema_of(translator@, version@, author@),
        translator@ == Map::<Seq<char>, Seq<char>>::empty() ==> r@ == source_schema(
            version@,
            author@,
        ),
{
    let path = LongOption {
        name: PATH_OPTION.to_owned(),
        long: PATH_OPTION.to_owned(),
        help: translator.translate(PATH_HELP),
    };
    let config_file_name = DefaultedOption {
        name: CONFIG_FILE_NAME_OPTION.to_owned(),
        long: CONFIG_FILE_NAME_LONG.to_owned(),
        short: CONFIG_FILE_NAME_SHORT,
        default_value: DEFAULT_CONFIG_FILE_NAME.to_owned(),
        help: translator.translate(CONFIG_FILE_NAME_HELP),
    };
    let i18n = SubcommandSchema {
        name: SUBCOMMAND.to_owned(),
        about: short_about(translator),
        long_about: long_about(translator),
        path,
        config_file_name,
    };
    ArgumentSchema {
        name: PROGRAM_NAME.to_owned(),
        bin_name: BINARY_NAME.to_owned(),
        about: translator.translate(BINARY_ABOUT),
        version: version.to_owned(),
        author: author.to_owned(),
        i18n,
    }
}

} // verus!
