//! Message catalogs and the translator that looks messages up in them.
//!
//! A catalog is a compiled gettext file (MO) for one locale. It is parsed by
//! the `gettext` crate and never changed afterwards. Nothing in this crate
//! keeps a translator in a global: whoever needs translated text is handed a
//! [`Translator`].

use vstd::prelude::*;

verus! {

/// A parsed catalog, kept as the `gettext` crate built it.
#[verifier::external_type_specification]
#[verifier::external_body]
pub struct ExCatalog(gettext::Catalog);

/// The reason for which the `gettext` crate refused a MO file.
#[verifier::external_type_specification]
#[verifier::external_body]
pub struct ExCatalogParseError(gettext::Error);

/// The singular translations that a catalog holds: each key of the catalog
/// with the first translated form stored under it.
pub uninterp spec fn catalog_entries(catalog: gettext::Catalog) -> Map<Seq<char>, Seq<char>>;

/// The entries of the catalog that the bytes of a MO file encode, or `None`
/// where the bytes are no well-formed MO file.
pub uninterp spec fn mo_entries(bytes: Seq<u8>) -> Option<Map<Seq<char>, Seq<char>>>;

/// What a lookup of `message` in `entries` gives: the stored translation,
/// or the message itself where the entries hold none.
pub open spec fn translation(entries: Map<Seq<char>, Seq<char>>, message: Seq<char>) -> Seq<char> {
    if entries.contains_key(message) {
        entries[message]
    } else {
        message
    }
}

/// A message that the entries hold is translated to what they hold for it;
/// any other message is its own translation, and so is every message where
/// there are no entries.
pub proof fn translation_is_lookup_or_identity(
    entries: Map<Seq<char>, Seq<char>>,
    message: Seq<char>,
)
    ensures
        entries.contains_key(message) ==> translation(entries, message) == entries[message],
        !entries.contains_key(message) ==> translation(entries, message) == message,
        translation(Map::empty(), message) == message,
{
}

/// The plural form of a count in the source language: the first form for
/// one, the second for any other count.
pub fn plural_form(count: u64) -> (r: usize)
    ensures
        r == (if count == 1 { 0usize } else { 1usize }),
{
    if count == 1 {
        0
    } else {
        1
    }
}

/// Calls `gettext::ParseOptions::parse` on a MO file held in memory, with
/// [`plural_form`] set as the plural rule by
/// `gettext::ParseOptions::force_plural`. With a rule set the parser leaves
/// the plural expression of the file unread, on which it may panic, and
/// reads everything else as `gettext::Catalog::parse` does.
///
/// Not proved: that the parser reads nothing but these bytes, so that
/// whether it accepts them, and which entries the catalog then holds, is
/// settled by the bytes alone. [`mo_entries`] is the name of that answer.
/// The parser adds offsets that it reads in the file as `usize`: this is
/// said of targets where `usize` has 64 bits.
#[verifier::external_body]
fn parse_mo(bytes: &[u8]) -> (r: Result<gettext::Catalog, gettext::Error>)
    ensures
        match r {
            Ok(catalog) => mo_entries(bytes@) == Some(catalog_entries(catalog)),
            Err(_) => mo_entries(bytes@) is None,
        },
{
    gettext::ParseOptions::new().force_plural(plural_form).parse(bytes)
}

/// Calls `tr::Translator::translate` of a `gettext::Catalog` without a
/// message context, which hands the message to `gettext::Catalog::gettext`.
///
/// Not proved: that the call returns the first translated form stored under
/// `message`, and `message` itself where the catalog has no such key.
#[verifier::external_body]
fn catalog_translate(catalog: &gettext::Catalog, message: &str) -> (r: String)
    ensures
        r@ == translation(catalog_entries(*catalog), message@),
{
    tr::Translator::translate(catalog, message, None).into_owned()
}

/// An embedded catalog did not parse. It offers no translation, and a
/// process that meets this at startup has to give up.
#[derive(Debug, Clone, Copy, PartialEq, Eq)]
pub struct CatalogCorrupt {}

/// The handle through which text is translated.
///
/// It holds the catalog of one locale, or none: without a catalog every
/// message stays in the source language.
pub struct Translator {
    catalog: Option<gettext::Catalog>,
}

impl View for Translator {
    type V = Map<Seq<char>, Seq<char>>;

    /// The translations on offer, by source message.
    closed spec fn view(&self) -> Map<Seq<char>, Seq<char>> {
        match self.catalog {
            Some(catalog) => catalog_entries(catalog),
            None => Map::empty(),
        }
    }
}

impl Translator {
    /// The translator that knows no translation.
    pub fn untranslated() -> (r: Translator)
        ensures
            r@ == Map::<Seq<char>, Seq<char>>::empty(),
    {
        Translator { catalog: None }
    }

    /// A translator over a catalog that was parsed elsewhere.
    pub fn from_catalog(catalog: gettext::Catalog) -> (r: Translator)
        ensures
            r@ == catalog_entries(catalog),
    {
        Translator { catalog: Some(catalog) }
    }

    /// Turns the answer of the MO parser into a translator: a catalog is
    /// kept, a refusal is reported as [`CatalogCorrupt`].
    pub fn from_parsed(parsed: Result<gettext::Catalog, gettext::Error>) -> (r: Result<
        Translator,
        CatalogCorrupt,
    >)
        ensures
            match parsed {
                Ok(catalog) => r matches Ok(translator) && translator@ == catalog_entries(catalog),
                Err(_) => r is Err,
            },
    {
        match parsed {
            Ok(catalog) => Ok(Translator::from_catalog(catalog)),
            Err(_) => Err(CatalogCorrupt {  }),
        }
    }

    /// Reads a MO file held in memory.
    ///
    /// Succeeds exactly on the files that the MO parser accepts, and the
    /// translator then offers the entries of that file. The plural
    /// expression in the header of the file is not read: a file is accepted
    /// or refused whatever that expression is, since only the first form of
    /// an entry is ever asked for.
    pub fn from_mo(bytes: &[u8]) -> (r: Result<Translator, CatalogCorrupt>)
        ensures
            match r {
                Ok(translator) => mo_entries(bytes@) == Some(translator@),
                Err(_) => mo_entries(bytes@) is None,
            },
    {
        Translator::from_parsed(parse_mo(bytes))
    }

    /// Translates one message.
    ///
    /// A message that the catalog holds comes back in its translation; any
    /// other message comes back unchanged. The lookup never fails.
    pub fn translate(&self, message: &str) -> (r: String)
        ensures
            r@ == translation(self@, message@),
    {
        match &self.catalog {
            Some(catalog) => catalog_translate(catalog, message),
            None => message.to_owned(),
        }
    }
}

/// Loads the language file that was selected for the current locale and
/// keeps the translator that results.
///
/// A new loader translates nothing. Each language file that loads replaces
/// what the loader held before; one that does not parse changes nothing.
pub struct LanguageLoader {
    translator: Translator,
}

impl View for LanguageLoader {
    type V = Map<Seq<char>, Seq<char>>;

    /// The translations that the loader has on offer.
    closed spec fn view(&self) -> Map<Seq<char>, Seq<char>> {
        self.translator@
    }
}

impl LanguageLoader {
    /// A loader into which no language file was loaded yet.
    pub fn new() -> (r: LanguageLoader)
        ensures
            r@ == Map::<Seq<char>, Seq<char>>::empty(),
    {
        LanguageLoader { translator: Translator::untranslated() }
    }

    /// The translation domain of this crate: the catalog of a locale is the
    /// file of this name, with the extension `mo`, in the directory of the
    /// locale.
    pub fn domain() -> (r: &'static str)
        ensures
            r@ == "cargo_i18n"@,
    {
        "cargo_i18n"
    }

    /// Loads the content of a language file.
    ///
    /// On a file that the MO parser accepts the loader offers the entries of
    /// that file from now on. On any other file it reports [`CatalogCorrupt`]
    /// and stays as it was. The plural expression in the header of the file
    /// is not read: a file is accepted or refused whatever that expression
    /// is.
    pub fn load_language_file(&mut self, bytes: &[u8]) -> (r: Result<(), CatalogCorrupt>)
        ensures
            match r {
                Ok(_) => mo_entries(bytes@) == Some(final(self)@),
                Err(_) => mo_entries(bytes@) is None && final(self)@ == old(self)@,
            },
    {
        match Translator::from_mo(bytes) {
            Ok(translator) => {
                self.translator = translator;
                Ok(())
            },
            Err(corrupt) => Err(corrupt),
        }
    }

    /// The translator over what was loaded.
    pub fn translator(&self) -> (r: &Translator)
        ensures
            r@ == self@,
    {
        &self.translator
    }

    /// Gives up the loader for the translator over what was loaded.
    pub fn into_translator(self) -> (r: Translator)
        ensures
            r@ == self@,
    {
        self.translator
    }
}

} // verus!
