use lingua::language::Language;
use lingua::language::LanguageParseError;

#[test]
fn parse_round_trips_every_language() {
    for l in Language::all_languages() {
        assert_eq!(Language::parse(l.uppercase_name()), Ok(l));
    }
}

#[test]
fn parse_is_case_insensitive() {
    assert_eq!(Language::parse("english"), Ok(Language::English));
    assert_eq!(Language::parse("GeRmAn"), Ok(Language::German));
    assert_eq!(Language::parse("Chinese"), Ok(Language::Chinese));
}

#[test]
fn parse_rejects_unknown_text() {
    let r = Language::parse("KLINGON");
    assert_eq!(
        r,
        Err(LanguageParseError::UnrecognizedLanguage("KLINGON".to_string()))
    );
}

#[test]
fn parse_reports_the_offending_input() {
    match Language::parse("tlh") {
        Err(LanguageParseError::UnrecognizedLanguage(t)) => assert_eq!(t, "tlh"),
        other => panic!("expected an unrecognized-language error, got {:?}", other),
    }
}

#[test]
fn parse_rejects_the_empty_string() {
    assert!(Language::parse("").is_err());
}

#[test]
fn parse_rejects_a_partial_name() {
    assert!(Language::parse("ENGLIS").is_err());
    assert!(Language::parse("ENGLISHH").is_err());
}
