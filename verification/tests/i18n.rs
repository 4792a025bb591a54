use tinytask::i18n::{t, Lang, ALL_KEYS};

#[test]
fn every_key_translated_in_every_language() {
    for lang in Lang::all() {
        for key in ALL_KEYS.iter() {
            let s = t(*lang, *key);
            assert!(
                !s.is_empty() && s != *key,
                "missing translation: lang={:?} key={}",
                lang,
                key
            );
        }
    }
}

#[test]
fn templates_keep_placeholders() {
    for lang in Lang::all() {
        assert!(
            t(*lang, "status_line").contains("{m}"),
            "status_line placeholder lost in {:?}",
            lang
        );
        assert!(
            t(*lang, "macro_line").contains("{name}"),
            "macro_line placeholder lost in {:?}",
            lang
        );
        assert!(
            t(*lang, "set_assigned").contains("{v}"),
            "set_assigned placeholder lost in {:?}",
            lang
        );
    }
}

#[test]
fn from_code_roundtrip_and_default() {
    assert_eq!(Lang::default(), Lang::Tr);
    for lang in Lang::all() {
        assert_eq!(Lang::from_code(lang.code()), Some(*lang));
    }
    assert_eq!(Lang::from_code("xx"), None);
}

#[test]
fn unknown_key_falls_back() {
    assert_eq!(t(Lang::De, "tab_control"), "Steuerung");
    assert_eq!(t(Lang::De, "no_such_key"), "no_such_key");
}

#[test]
fn lang_table_order_codes_and_labels() {
    let all = Lang::all();
    assert_eq!(all.len(), 9);
    assert_eq!(all[0], Lang::En);
    assert_eq!(all[8], Lang::Pl);
    assert_eq!(Lang::Fr.code(), "fr");
    assert_eq!(Lang::Tr.label(), "Türkçe");
    assert_eq!(Lang::Pt.label(), "Português");
    assert_eq!(Lang::from_code("pl"), Some(Lang::Pl));
    assert_eq!(Lang::from_code("EN"), None);
    assert_eq!(Lang::from_code(""), None);
}

#[test]
fn lookups_pick_the_right_language_and_key() {
    assert_eq!(t(Lang::En, "ready"), "Ready");
    assert_eq!(t(Lang::Tr, "ready"), "Hazır");
    assert_eq!(t(Lang::Nl, "tab_macros"), "Macro's");
    assert_eq!(t(Lang::Pl, "about_heading"), "O programie");
    assert_eq!(t(Lang::Es, "status_line"), "Estado: {m}");
    assert_eq!(t(Lang::It, "set_assigned"), "Assegnato: {v}");
    // keys used by the screens but absent from the table show as themselves
    assert_eq!(t(Lang::Fr, "rec_keyboard"), "rec_keyboard");
    assert_eq!(t(Lang::En, ""), "");
}

#[test]
fn about_is_signed_by_thebottle2_in_every_language() {
    for lang in Lang::all() {
        let s = t(*lang, "about_credit");
        assert!(s.contains("TheBottle2"), "lang={:?}: {}", lang, s);
        assert!(!s.contains("Luna"), "lang={:?}: {}", lang, s);
    }
}
