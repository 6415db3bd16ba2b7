use lingua::alphabet::Alphabet;
use lingua::isocode::IsoCode639_1;
use lingua::isocode::IsoCode639_3;
use lingua::language::Language;
use lingua::language::LANGUAGE_COUNT;

#[test]
fn catalogue_has_expected_count() {
    assert_eq!(Language::all_languages().len(), LANGUAGE_COUNT);
    assert_eq!(Language::all_languages().len(), 67);
}

#[test]
fn catalogue_is_duplicate_free() {
    let all = Language::all_languages();
    for i in 0..all.len() {
        for j in 0..all.len() {
            if i != j {
                assert_ne!(all[i], all[j]);
            }
        }
    }
}

#[test]
fn catalogue_order_is_stable() {
    assert_eq!(Language::all_languages(), Language::all_languages());
}

#[test]
fn iso_codes_are_injective() {
    let all = Language::all_languages();
    for i in 0..all.len() {
        for j in 0..all.len() {
            if i != j {
                assert_ne!(all[i].iso_code_639_1(), all[j].iso_code_639_1());
                assert_ne!(all[i].iso_code_639_3(), all[j].iso_code_639_3());
            }
        }
    }
}

#[test]
fn iso_code_examples() {
    assert_eq!(Language::English.iso_code_639_1(), IsoCode639_1::EN);
    assert_eq!(Language::English.iso_code_639_3(), IsoCode639_3::ENG);
    assert_eq!(Language::Albanian.iso_code_639_1(), IsoCode639_1::SQ);
    assert_eq!(Language::Georgian.iso_code_639_3(), IsoCode639_3::KAT);
    assert_eq!(Language::Zulu.iso_code_639_1(), IsoCode639_1::ZU);
    assert_eq!(Language::Zulu.iso_code_639_3(), IsoCode639_3::ZUL);
}

#[test]
fn alphabets_are_never_empty() {
    for l in Language::all_languages() {
        assert!(!l.alphabets().is_empty());
    }
}

#[test]
fn japanese_uses_three_scripts() {
    assert_eq!(
        Language::Japanese.alphabets(),
        vec![Alphabet::Hiragana, Alphabet::Katakana, Alphabet::Han]
    );
}

#[test]
fn chinese_uses_han_alone() {
    assert_eq!(Language::Chinese.alphabets(), vec![Alphabet::Han]);
}

#[test]
fn shared_scripts_group_languages() {
    assert_eq!(Language::English.alphabets(), vec![Alphabet::Latin]);
    assert_eq!(Language::Swahili.alphabets(), vec![Alphabet::Latin]);
    assert_eq!(Language::Russian.alphabets(), vec![Alphabet::Cyrillic]);
    assert_eq!(Language::Hindi.alphabets(), vec![Alphabet::Devanagari]);
    assert_eq!(Language::Korean.alphabets(), vec![Alphabet::Hangul]);
}

#[test]
fn unique_characters_examples() {
    assert_eq!(Language::German.unique_characters(), "ß");
    assert_eq!(Language::Azerbaijani.unique_characters(), "Əə");
    assert_eq!(Language::Marathi.unique_characters(), "ळ");
    assert_eq!(Language::Polish.unique_characters(), "ŁłŃńŚśŹź");
}

#[test]
fn unique_characters_may_be_empty() {
    assert_eq!(Language::English.unique_characters(), "");
    assert_eq!(Language::Arabic.unique_characters(), "");
    assert_eq!(Language::Japanese.unique_characters(), "");
}

#[test]
fn lookups_are_idempotent() {
    for l in Language::all_languages() {
        assert_eq!(l.iso_code_639_1(), l.iso_code_639_1());
        assert_eq!(l.iso_code_639_3(), l.iso_code_639_3());
        assert_eq!(l.alphabets(), l.alphabets());
        assert_eq!(l.unique_characters(), l.unique_characters());
        assert_eq!(l.uppercase_name(), l.uppercase_name());
    }
}
