//! The source-language messages of the command line.
//!
//! Every text that a user may see is kept here in the source language. The
//! same texts are the keys under which a catalog stores its translations.

use crate::catalog::{translation, Translator};
use vstd::prelude::*;
use vstd::string::StringExecFns;

verus! {

/// Shown when the binary runs outside of cargo.
pub const BINARY_ABOUT: &'static str =
    "This binary is designed to be executed as a cargo subcommand using \"cargo i18n\".";

/// What `cargo i18n -h` says about the sub-command.
pub const SHORT_ABOUT: &'static str =
    "A Cargo sub-command to extract and build localization resources.";

/// The place in the long description where the short one is put.
pub const ABOUT_SLOT: &'static str = "{0}";

/// What `cargo i18n --help` says after the short description.
pub const LONG_ABOUT_DETAILS: &'static str = "\n\nThis command reads the \"i18n.toml\" config in your crate root, and based on the configuration there, proceeds to extract localization resources, and build them.\n\nIf you are using the gettext localization system, you will need to have the following gettext tools installed: \"msgcat\", \"msginit\", \"msgmerge\" and \"msgfmt\". You will also need to have the \"xtr\" tool installed, which can be installed using \"cargo install xtr\".\n";

/// The help of the `--path` option.
pub const PATH_HELP: &'static str =
    "Path to the crate you want to localize (if not the current directory). The crate needs to contain \"i18n.toml\" in its root.";

/// The help of the `--config-file-name` option.
pub const CONFIG_FILE_NAME_HELP: &'static str = "The name of the i18n config file for this crate";

/// The characters of the slot for the first argument of a template.
pub open spec fn slot() -> Seq<char> {
    seq!['{', '0', '}']
}

/// A text without braces holds no slot and nothing that escapes one.
pub open spec fn brace_free(text: Seq<char>) -> bool {
    forall|i: int| 0 <= i < text.len() ==> text[i] != '{' && text[i] != '}'
}

/// The template is `before`, the slot, `after`, and the slot is the only
/// place where it has a brace.
pub open spec fn single_slot(template: Seq<char>, before: Seq<char>, after: Seq<char>) -> bool {
    &&& template == before + slot() + after
    &&& brace_free(before)
    &&& brace_free(after)
}

/// `needle` stands somewhere in `text`, character for character.
pub open spec fn occurs_in(needle: Seq<char>, text: Seq<char>) -> bool {
    exists|at: int|
        0 <= at && at + needle.len() <= text.len() && #[trigger] text.subrange(
            at,
            at + needle.len(),
        ) == needle
}

/// What the formatter of the `tr` crate makes of a template and one
/// positional argument.
pub uninterp spec fn interpolated(template: Seq<char>, argument: Seq<char>) -> Seq<char>;

/// The source text of the long description, slot included. A catalog stores
/// the translation of the long description under this key.
pub open spec fn long_about_template() -> Seq<char> {
    ABOUT_SLOT@ + LONG_ABOUT_DETAILS@
}

/// The short description as a translator with these entries gives it.
pub open spec fn short_about_text(entries: Map<Seq<char>, Seq<char>>) -> Seq<char> {
    translation(entries, SHORT_ABOUT@)
}

/// The long description as a translator with these entries gives it: the
/// translated template, filled with the translated short description.
pub open spec fn long_about_text(entries: Map<Seq<char>, Seq<char>>) -> Seq<char> {
    interpolated(translation(entries, long_about_template()), short_about_text(entries))
}

/// Calls `tr::runtime_format::display_string` with one unnamed argument, as
/// the `tr!` macro does for a message with one argument.
///
/// Not proved: that the result depends on the two texts alone, which
/// [`interpolated`] names; and that a template whose only braces are those
/// of one slot `{0}` comes back with the argument in the place of the slot
/// and everything else unchanged.
#[verifier::external_body]
fn interpolate(template: &str, argument: &str) -> (r: String)
    ensures
        r@ == interpolated(template@, argument@),
        forall|before: Seq<char>, after: Seq<char>| #[trigger]
            single_slot(template@, before, after) ==> r@ == before + argument@ + after,
{
    tr::runtime_format::display_string(template, &[("", &argument)])
}

/// A text that is put between two others occurs in the whole.
pub proof fn middle_occurs(before: Seq<char>, middle: Seq<char>, after: Seq<char>)
    ensures
        occurs_in(middle, before + middle + after),
{
    let whole = before + middle + after;
    let at = before.len() as int;
    assert(whole.subrange(at, at + middle.len()) =~= middle);
}

/// The rest of the long description holds no brace, so the slot at its
/// start is the only one.
pub proof fn source_template_has_single_slot()
    ensures
        single_slot(long_about_template(), Seq::<char>::empty(), LONG_ABOUT_DETAILS@),
{
    reveal_strlit("{0}");
    reveal_strlit("\n\nThis command reads the \"i18n.toml\" config in your crate root, and based on the configuration there, proceeds to extract localization resources, and build them.\n\nIf you are using the gettext localization system, you will need to have the following gettext tools installed: \"msgcat\", \"msginit\", \"msgmerge\" and \"msgfmt\". You will also need to have the \"xtr\" tool installed, which can be installed using \"cargo install xtr\".\n");
    assert(ABOUT_SLOT@ =~= slot());
    assert(long_about_template() =~= Seq::<char>::empty() + slot() + LONG_ABOUT_DETAILS@);
}

/// The message shown by `cargo i18n -h`.
pub fn short_about(translator: &Translator) -> (r: String)
    ensures
        r@ == short_about_text(translator@),
{
    translator.translate(SHORT_ABOUT)
}

/// The message shown by `cargo i18n --help`.
///
/// The template and the short description are translated each on its own,
/// and the second is put into the slot of the first. The result is settled
/// by the entries of the translator alone. Where the translated template has
/// one slot and no other brace, the short description stands in the result
/// in the place of the slot; without a translation of the template that is
/// always so, and the description then starts the text.
pub fn long_about(translator: &Translator) -> (r: String)
    ensures
        r@ == long_about_text(translator@),
        forall|before: Seq<char>, after: Seq<char>| #[trigger]
            single_slot(translation(translator@, long_about_template()), before, after) ==> {
                &&& r@ == before + short_about_text(translator@) + after
                &&& occurs_in(short_about_text(translator@), r@)
            },
        !translator@.contains_key(long_about_template()) ==> {
            &&& r@ == short_about_text(translator@) + LONG_ABOUT_DETAILS@
            &&& occurs_in(short_about_text(translator@), r@)
        },
{
    let key = String::from_str(ABOUT_SLOT).concat(LONG_ABOUT_DETAILS);
    let template = translator.translate(key.as_str());
    let short = short_about(translator);
    let r = interpolate(template.as_str(), short.as_str());
    proof {
        assert forall|before: Seq<char>, after: Seq<char>| #[trigger]
            single_slot(template@, before, after) implies occurs_in(short@, r@) by {
            middle_occurs(before, short@, after);
        }
        if !translator@.contains_key(long_about_template()) {
            source_template_has_single_slot();
            assert(single_slot(template@, Seq::<char>::empty(), LONG_ABOUT_DETAILS@));
            assert(r@ =~= short@ + LONG_ABOUT_DETAILS@);
        }
    }
    r
}

} // verus!
