use any2nix::i18n::I18n;

#[test]
fn test_from_locales() {
    assert_eq!(I18n::from_locales(&["pt-BR", "en-US"]), I18n::pt_br());
    assert_eq!(I18n::from_locales(&["pt"]), I18n::pt_br());
    assert_eq!(I18n::from_locales(&["en-GB"]), I18n::en_us());
    assert_eq!(I18n::from_locales(&["de-DE", "ja"]), I18n::en_us());
}

#[test]
fn test_from_locale() {
    assert_eq!(I18n::from_locale("pt-BR"), I18n::pt_br());
    assert_eq!(I18n::from_locale("pt"), I18n::pt_br());
    assert_eq!(I18n::from_locale("en-US"), I18n::en_us());
    assert_eq!(I18n::from_locale("en-GB"), I18n::en_us());
    assert_eq!(I18n::from_locale("de-DE"), I18n::en_us());
}

#[test]
fn test_default() {
    assert_eq!(I18n::default(), I18n::en_us());
}

#[test]
fn defaults_to_en_us_when_header_missing() {
    assert_eq!(I18n::from_accept_language(None), I18n::en_us());
}

#[test]
fn extracts_pt_br() {
    assert_eq!(I18n::from_accept_language(Some("pt-BR")), I18n::pt_br());
    assert_eq!(I18n::from_accept_language(Some("pt")), I18n::pt_br());
}

#[test]
fn extracts_en_us() {
    assert_eq!(I18n::from_accept_language(Some("en-US")), I18n::en_us());
    assert_eq!(I18n::from_accept_language(Some("en")), I18n::en_us());
}

#[test]
fn handles_q_factors_and_lists() {
    assert_eq!(
        I18n::from_accept_language(Some("es-ES,pt-BR;q=0.9,en-US;q=0.8")),
        I18n::pt_br()
    );
}

#[test]
fn falls_back_to_en_us() {
    assert_eq!(I18n::from_accept_language(Some("fr-FR,de;q=0.9,ja")), I18n::en_us());
}

#[test]
fn translations_hold_their_strings() {
    let en = I18n::en_us();
    let pt = I18n::pt_br();
    assert_eq!(en.lang, "en-US");
    assert_eq!(en.submit, "Submit");
    assert_eq!(pt.lang, "pt-BR");
    assert_eq!(pt.copy, "Copiar para a área de transferência");
    assert_eq!(pt.skip_to_content, "Ir para o conteúdo principal");
}

#[test]
fn locale_tags_compare_ascii_case_insensitively() {
    assert_eq!(I18n::from_locale("PT-br"), I18n::pt_br());
    assert_eq!(I18n::from_locale("En"), I18n::en_us());
    assert_eq!(I18n::from_locales(&["EN", "pt"]), I18n::en_us());
}

#[test]
fn locale_tags_match_by_prefix() {
    assert_eq!(I18n::from_locale("ptx"), I18n::pt_br());
    assert_eq!(I18n::from_locale("p"), I18n::en_us());
    assert_eq!(I18n::from_locale(""), I18n::en_us());
}

#[test]
fn first_preference_wins() {
    assert_eq!(I18n::from_locales(&["de", "fr", "pt_PT", "en"]), I18n::pt_br());
    assert_eq!(I18n::from_locales(&["de", "fr"]), I18n::en_us());
    assert_eq!(I18n::from_locales(&[]), I18n::en_us());
}

#[test]
fn header_entries_are_trimmed_and_lowercased() {
    assert_eq!(I18n::from_accept_language(Some("  PT-BR  ; q=0.5")), I18n::pt_br());
    assert_eq!(I18n::from_accept_language(Some("de,\tEN-us\t")), I18n::en_us());
    assert_eq!(I18n::from_accept_language(Some("de, pt ,en")), I18n::pt_br());
}

#[test]
fn header_languages_must_match_exactly() {
    assert_eq!(I18n::from_accept_language(Some("pt-PT,en")), I18n::en_us());
    assert_eq!(I18n::from_accept_language(Some("ptx")), I18n::en_us());
    assert_eq!(I18n::from_accept_language(Some("pt-PT,pt")), I18n::pt_br());
    assert_eq!(I18n::from_accept_language(Some("")), I18n::en_us());
    assert_eq!(I18n::from_accept_language(Some(",,;pt")), I18n::en_us());
}
