use sofle_overlay::input_lang::{
    input_lang_from_gsettings, label_for, parse_current_index, parse_source_ids,
};

#[test]
fn known_layouts_have_short_labels() {
    assert_eq!(label_for("us"), "EN");
    assert_eq!(label_for("ru"), "RU");
    assert_eq!(label_for("ua"), "UA");
    assert_eq!(label_for("de"), "DE");
    assert_eq!(label_for("fr"), "FR");
    assert_eq!(label_for("es"), "ES");
}

#[test]
fn unknown_layouts_are_upper_cased() {
    assert_eq!(label_for("gb"), "GB");
    assert_eq!(label_for("us+intl"), "US+INTL");
    assert_eq!(label_for(""), "");
    assert_eq!(label_for("straße"), "STRASSE");
}

#[test]
fn current_index_is_the_number_after_the_last_space() {
    assert_eq!(parse_current_index("uint32 0\n"), 0);
    assert_eq!(parse_current_index("uint32 1\n"), 1);
    assert_eq!(parse_current_index("  uint32 42  "), 42);
    assert_eq!(parse_current_index("uint32 +7"), 7);
    assert_eq!(parse_current_index("uint32 4294967295"), 4294967295);
}

#[test]
fn current_index_defaults_to_zero() {
    assert_eq!(parse_current_index(""), 0);
    assert_eq!(parse_current_index("3"), 0);
    assert_eq!(parse_current_index("uint32 4294967296"), 0);
    assert_eq!(parse_current_index("uint32 -1"), 0);
    assert_eq!(parse_current_index("uint32 1x"), 0);
    assert_eq!(parse_current_index("uint32 +"), 0);
    assert_eq!(parse_current_index("uint32\t5"), 0);
}

#[test]
fn source_ids_are_every_fourth_quoted_piece() {
    assert_eq!(
        parse_source_ids("[('xkb', 'us'), ('xkb', 'ru')]\n"),
        vec!["us".to_string(), "ru".to_string()]
    );
    assert_eq!(
        parse_source_ids("[('xkb', 'us'), ('xkb', 'de+nodeadkeys'), ('ibus', 'mozc-jp')]"),
        vec!["us".to_string(), "de+nodeadkeys".to_string(), "mozc-jp".to_string()]
    );
    assert_eq!(parse_source_ids("@a(ss) []\n"), Vec::<String>::new());
    assert_eq!(parse_source_ids(""), Vec::<String>::new());
    assert_eq!(parse_source_ids("'a'b'c'd"), vec!["c".to_string()]);
}

#[test]
fn input_lang_from_both_outputs() {
    let lang = input_lang_from_gsettings(b"uint32 1\n", b"[('xkb', 'us'), ('xkb', 'ru')]\n");
    assert_eq!(lang.index, 1);
    assert_eq!(lang.id, "ru");
    assert_eq!(lang.label, "RU");
}

#[test]
fn input_lang_past_the_list_is_blank() {
    let lang = input_lang_from_gsettings(b"uint32 5\n", b"[('xkb', 'us')]\n");
    assert_eq!(lang.index, 5);
    assert_eq!(lang.id, "");
    assert_eq!(lang.label, "");
}

#[test]
fn input_lang_with_unknown_layout() {
    let lang = input_lang_from_gsettings(b"uint32 0\n", b"[('xkb', 'gb')]\n");
    assert_eq!(lang.index, 0);
    assert_eq!(lang.id, "gb");
    assert_eq!(lang.label, "GB");
}

#[test]
fn input_lang_with_invalid_utf8_index() {
    let lang = input_lang_from_gsettings(b"uint32 \xff1\n", b"[('xkb', 'us')]\n");
    assert_eq!(lang.index, 0);
    assert_eq!(lang.id, "us");
    assert_eq!(lang.label, "EN");
}
