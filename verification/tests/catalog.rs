use cargo_i18n::catalog::{plural_form, CatalogCorrupt, LanguageLoader, Translator};

fn push_u32(out: &mut Vec<u8>, value: u32, big_endian: bool) {
    if big_endian {
        out.extend_from_slice(&value.to_be_bytes());
    } else {
        out.extend_from_slice(&value.to_le_bytes());
    }
}

/// The bytes of a MO file with the given keys and translations.
fn mo_with_order(entries: &[(&[u8], &[u8])], big_endian: bool) -> Vec<u8> {
    let count = entries.len() as u32;
    let mut out = Vec::new();
    if big_endian {
        out.extend_from_slice(&[0x95, 0x04, 0x12, 0xde]);
    } else {
        out.extend_from_slice(&[0xde, 0x12, 0x04, 0x95]);
    }
    push_u32(&mut out, 0, big_endian);
    push_u32(&mut out, count, big_endian);
    push_u32(&mut out, 28, big_endian);
    push_u32(&mut out, 28 + 8 * count, big_endian);
    push_u32(&mut out, 0, big_endian);
    push_u32(&mut out, 28 + 16 * count, big_endian);
    let mut offset = 28 + 16 * count;
    let mut strings = Vec::new();
    for (key, _) in entries {
        push_u32(&mut out, key.len() as u32, big_endian);
        push_u32(&mut out, offset, big_endian);
        strings.extend_from_slice(key);
        strings.push(0);
        offset += key.len() as u32 + 1;
    }
    for (_, text) in entries {
        push_u32(&mut out, text.len() as u32, big_endian);
        push_u32(&mut out, offset, big_endian);
        strings.extend_from_slice(text);
        strings.push(0);
        offset += text.len() as u32 + 1;
    }
    out.extend_from_slice(&strings);
    out
}

fn mo(entries: &[(&str, &str)]) -> Vec<u8> {
    let raw: Vec<(&[u8], &[u8])> =
        entries.iter().map(|(k, v)| (k.as_bytes(), v.as_bytes())).collect();
    mo_with_order(&raw, false)
}

#[test]
fn untranslated_message_comes_back_unchanged() {
    let translator = Translator::untranslated();
    assert_eq!(translator.translate("Name"), "Name");
    assert_eq!(translator.translate(""), "");
}

#[test]
fn message_of_the_catalog_comes_back_translated() {
    let translator = Translator::from_mo(&mo(&[("Name", "Nom"), ("File", "Fichier")])).unwrap();
    assert_eq!(translator.translate("Name"), "Nom");
    assert_eq!(translator.translate("File"), "Fichier");
}

#[test]
fn message_missing_in_the_catalog_comes_back_unchanged() {
    let translator = Translator::from_mo(&mo(&[("Name", "Nom")])).unwrap();
    assert_eq!(translator.translate("Folder"), "Folder");
    assert_eq!(translator.translate("name"), "name");
    assert_eq!(translator.translate("Nom"), "Nom");
}

#[test]
fn empty_catalog_translates_nothing() {
    let translator = Translator::from_mo(&mo(&[])).unwrap();
    assert_eq!(translator.translate("Name"), "Name");
}

#[test]
fn big_endian_catalog_is_read() {
    let bytes = mo_with_order(&[(b"Name", b"Nom")], true);
    let translator = Translator::from_mo(&bytes).unwrap();
    assert_eq!(translator.translate("Name"), "Nom");
}

#[test]
fn first_form_of_a_plural_entry_is_the_translation() {
    let bytes = mo_with_order(&[(b"File\0Files", b"Fichier\0Fichiers")], false);
    let translator = Translator::from_mo(&bytes).unwrap();
    assert_eq!(translator.translate("File"), "Fichier");
    assert_eq!(translator.translate("Files"), "Files");
}

#[test]
fn entry_with_a_context_does_not_translate_the_bare_message() {
    let bytes = mo_with_order(&[(b"menu\x04Open", b"Ouvrir")], false);
    let translator = Translator::from_mo(&bytes).unwrap();
    assert_eq!(translator.translate("Open"), "Open");
    assert_eq!(translator.translate("menu\u{4}Open"), "Ouvrir");
}

#[test]
fn header_entry_selects_the_encoding() {
    let header: &[u8] = b"Content-Type: text/plain; charset=ISO-8859-1\n";
    let bytes = mo_with_order(&[(b"", header), (b"Name", b"Pr\xe9nom")], false);
    let translator = Translator::from_mo(&bytes).unwrap();
    assert_eq!(translator.translate("Name"), "Pr\u{e9}nom");
}

#[test]
fn plural_expression_of_the_header_is_not_read() {
    let header: &[u8] = b"Plural-Forms: nplurals=2; plural=(;\n";
    let bytes = mo_with_order(&[(b"", header), (b"Name", b"Nom")], false);
    let translator = Translator::from_mo(&bytes).unwrap();
    assert_eq!(translator.translate("Name"), "Nom");
}

#[test]
fn file_with_a_wrong_magic_number_is_corrupt() {
    let mut bytes = mo(&[("Name", "Nom")]);
    bytes[0] = 1;
    assert!(matches!(Translator::from_mo(&bytes), Err(CatalogCorrupt {})));
}

#[test]
fn file_that_is_too_short_is_corrupt() {
    assert!(Translator::from_mo(&[]).is_err());
    assert!(Translator::from_mo(&[0xde, 0x12, 0x04, 0x95]).is_err());
    let bytes = mo(&[("Name", "Nom")]);
    assert!(Translator::from_mo(&bytes[..bytes.len() - 1]).is_err());
}

#[test]
fn file_with_invalid_text_is_corrupt() {
    let bytes = mo_with_order(&[(b"Name", b"N\xff\xfem")], false);
    assert!(Translator::from_mo(&bytes).is_err());
}

#[test]
fn file_with_an_unknown_encoding_is_corrupt() {
    let header: &[u8] = b"Content-Type: text/plain; charset=no-such-charset\n";
    let bytes = mo_with_order(&[(b"", header), (b"Name", b"Nom")], false);
    assert!(Translator::from_mo(&bytes).is_err());
}

#[test]
fn file_with_a_misplaced_header_is_corrupt() {
    let bytes = mo_with_order(&[(b"Name", b"Nom"), (b"", b"Content-Type: text/plain\n")], false);
    assert!(Translator::from_mo(&bytes).is_err());
}

#[test]
fn file_with_a_malformed_header_is_corrupt() {
    let bytes = mo_with_order(&[(b"", b"no colon in this line\n"), (b"Name", b"Nom")], false);
    assert!(Translator::from_mo(&bytes).is_err());
}

#[test]
fn parsed_catalog_becomes_a_translator() {
    let catalog = gettext::Catalog::parse(&mo(&[("Name", "Nom")])[..]).unwrap();
    let translator = Translator::from_parsed(Ok(catalog)).unwrap();
    assert_eq!(translator.translate("Name"), "Nom");
    let empty = Translator::from_catalog(gettext::Catalog::empty());
    assert_eq!(empty.translate("Name"), "Name");
}

#[test]
fn refusal_of_the_parser_is_reported_as_corrupt() {
    let refused = Translator::from_parsed(Err(gettext::Error::BadMagic));
    assert!(matches!(refused, Err(CatalogCorrupt {})));
    let refused = Translator::from_parsed(Err(gettext::Error::Eof));
    assert!(matches!(refused, Err(CatalogCorrupt {})));
}

#[test]
fn new_loader_translates_nothing() {
    let loader = LanguageLoader::new();
    assert_eq!(loader.translator().translate("Name"), "Name");
    assert_eq!(loader.into_translator().translate("File"), "File");
}

#[test]
fn loaded_language_file_is_the_active_catalog() {
    let mut loader = LanguageLoader::new();
    assert_eq!(loader.load_language_file(&mo(&[("Name", "Nom")])), Ok(()));
    assert_eq!(loader.translator().translate("Name"), "Nom");
    assert_eq!(loader.translator().translate("File"), "File");
    assert_eq!(loader.load_language_file(&mo(&[("File", "Datei")])), Ok(()));
    assert_eq!(loader.translator().translate("Name"), "Name");
    assert_eq!(loader.translator().translate("File"), "Datei");
}

#[test]
fn corrupt_language_file_leaves_the_loader_as_it_was() {
    let mut loader = LanguageLoader::new();
    assert_eq!(loader.load_language_file(&[1, 2, 3]), Err(CatalogCorrupt {}));
    assert_eq!(loader.translator().translate("Name"), "Name");
    assert_eq!(loader.load_language_file(&mo(&[("Name", "Nom")])), Ok(()));
    assert_eq!(loader.load_language_file(&[0; 40]), Err(CatalogCorrupt {}));
    assert_eq!(loader.into_translator().translate("Name"), "Nom");
}

#[test]
fn language_files_are_named_after_the_crate() {
    assert_eq!(LanguageLoader::domain(), "cargo_i18n");
}

#[test]
fn plural_form_is_the_second_but_for_one() {
    assert_eq!(plural_form(0), 1);
    assert_eq!(plural_form(1), 0);
    assert_eq!(plural_form(2), 1);
    assert_eq!(plural_form(u64::MAX), 1);
}
