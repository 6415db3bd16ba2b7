use vstd::prelude::*;

use crate::isocode::IsoCode639_1;
use crate::isocode::IsoCode639_3;
use crate::language::Language;
use crate::language::LANGUAGE_COUNT;
use crate::language::spec_all_languages;
use crate::language::spec_alphabets;
use crate::language::spec_iso_code_639_1;
use crate::language::spec_iso_code_639_3;
use crate::language::spec_language_at;
use crate::language::spec_language_index;
use crate::language::spec_ascii_uppercase;
use crate::language::spec_uppercase_name;

verus! {

spec fn language_of_iso_639_1(c: IsoCode639_1) -> Language {
    match c {
        IsoCode639_1::AF => Language::Afrikaans,
        IsoCode639_1::SQ => Language::Albanian,
        IsoCode639_1::AR => Language::Arabic,
        IsoCode639_1::HY => Language::Armenian,
        IsoCode639_1::AZ => Language::Azerbaijani,
        IsoCode639_1::EU => Language::Basque,
        IsoCode639_1::BE => Language::Belarusian,
        IsoCode639_1::BN => Language::Bengali,
        IsoCode639_1::BS => Language::Bosnian,
        IsoCode639_1::BG => Language::Bulgarian,
        IsoCode639_1::CA => Language::Catalan,
        IsoCode639_1::ZH => Language::Chinese,
        IsoCode639_1::HR => Language::Croatian,
        IsoCode639_1::CS => Language::Czech,
        IsoCode639_1::DA => Language::Danish,
        IsoCode639_1::NL => Language::Dutch,
        IsoCode639_1::EN => Language::English,
        IsoCode639_1::EO => Language::Esperanto,
        IsoCode639_1::ET => Language::Estonian,
        IsoCode639_1::FI => Language::Finnish,
        IsoCode639_1::FR => Language::French,
        IsoCode639_1::KA => Language::Georgian,
        IsoCode639_1::DE => Language::German,
        IsoCode639_1::EL => Language::Greek,
        IsoCode639_1::GU => Language::Gujarati,
        IsoCode639_1::HE => Language::Hebrew,
        IsoCode639_1::HI => Language::Hindi,
        IsoCode639_1::HU => Language::Hungarian,
        IsoCode639_1::IS => Language::Icelandic,
        IsoCode639_1::ID => Language::Indonesian,
        IsoCode639_1::GA => Language::Irish,
        IsoCode639_1::IT => Language::Italian,
        IsoCode639_1::JA => Language::Japanese,
        IsoCode639_1::KK => Language::Kazakh,
        IsoCode639_1::KO => Language::Korean,
        IsoCode639_1::LA => Language::Latin,
        IsoCode639_1::LV => Language::Latvian,
        IsoCode639_1::LT => Language::Lithuanian,
        IsoCode639_1::MK => Language::Macedonian,
        IsoCode639_1::MS => Language::Malay,
        IsoCode639_1::MR => Language::Marathi,
        IsoCode639_1::MN => Language::Mongolian,
        IsoCode639_1::NO => Language::Norwegian,
        IsoCode639_1::FA => Language::Persian,
        IsoCode639_1::PL => Language::Polish,
        IsoCode639_1::PT => Language::Portuguese,
        IsoCode639_1::PA => Language::Punjabi,
        IsoCode639_1::RO => Language::Romanian,
        IsoCode639_1::RU => Language::Russian,
        IsoCode639_1::SR => Language::Serbian,
        IsoCode639_1::SK => Language::Slovak,
        IsoCode639_1::SL => Language::Slovene,
        IsoCode639_1::SO => Language::Somali,
        IsoCode639_1::ES => Language::Spanish,
        IsoCode639_1::SW => Language::Swahili,
        IsoCode639_1::SV => Language::Swedish,
        IsoCode639_1::TL => Language::Tagalog,
        IsoCode639_1::TA => Language::Tamil,
        IsoCode639_1::TE => Language::Telugu,
        IsoCode639_1::TH => Language::Thai,
        IsoCode639_1::TR => Language::Turkish,
        IsoCode639_1::UK => Language::Ukrainian,
        IsoCode639_1::UR => Language::Urdu,
        IsoCode639_1::VI => Language::Vietnamese,
        IsoCode639_1::CY => Language::Welsh,
        IsoCode639_1::YO => Language::Yoruba,
        IsoCode639_1::ZU => Language::Zulu,
    }
}

spec fn language_of_iso_639_3(c: IsoCode639_3) -> Language {
    match c {
        IsoCode639_3::AFR => Language::Afrikaans,
        IsoCode639_3::SQI => Language::Albanian,
        IsoCode639_3::ARA => Language::Arabic,
        IsoCode639_3::HYE => Language::Armenian,
        IsoCode639_3::AZE => Language::Azerbaijani,
        IsoCode639_3::EUS => Language::Basque,
        IsoCode639_3::BEL => Language::Belarusian,
        IsoCode639_3::BEN => Language::Bengali,
        IsoCode639_3::BOS => Language::Bosnian,
        IsoCode639_3::BUL => Language::Bulgarian,
        IsoCode639_3::CAT => Language::Catalan,
        IsoCode639_3::ZHO => Language::Chinese,
        IsoCode639_3::HRV => Language::Croatian,
        IsoCode639_3::CES => Language::Czech,
        IsoCode639_3::DAN => Language::Danish,
        IsoCode639_3::NLD => Language::Dutch,
        IsoCode639_3::ENG => Language::English,
        IsoCode639_3::EPO => Language::Esperanto,
        IsoCode639_3::EST => Language::Estonian,
        IsoCode639_3::FIN => Language::Finnish,
        IsoCode639_3::FRA => Language::French,
        IsoCode639_3::KAT => Language::Georgian,
        IsoCode639_3::DEU => Language::German,
        IsoCode639_3::ELL => Language::Greek,
        IsoCode639_3::GUJ => Language::Gujarati,
        IsoCode639_3::HEB => Language::Hebrew,
        IsoCode639_3::HIN => Language::Hindi,
        IsoCode639_3::HUN => Language::Hungarian,
        IsoCode639_3::ISL => Language::Icelandic,
        IsoCode639_3::IND => Language::Indonesian,
        IsoCode639_3::GLE => Language::Irish,
        IsoCode639_3::ITA => Language::Italian,
        IsoCode639_3::JPN => Language::Japanese,
        IsoCode639_3::KAZ => Language::Kazakh,
        IsoCode639_3::KOR => Language::Korean,
        IsoCode639_3::LAT => Language::Latin,
        IsoCode639_3::LAV => Language::Latvian,
        IsoCode639_3::LIT => Language::Lithuanian,
        IsoCode639_3::MKD => Language::Macedonian,
        IsoCode639_3::MSA => Language::Malay,
        IsoCode639_3::MAR => Language::Marathi,
        IsoCode639_3::MON => Language::Mongolian,
        IsoCode639_3::NOR => Language::Norwegian,
        IsoCode639_3::FAS => Language::Persian,
        IsoCode639_3::POL => Language::Polish,
        IsoCode639_3::POR => Language::Portuguese,
        IsoCode639_3::PAN => Language::Punjabi,
        IsoCode639_3::RON => Language::Romanian,
        IsoCode639_3::RUS => Language::Russian,
        IsoCode639_3::SRP => Language::Serbian,
        IsoCode639_3::SLK => Language::Slovak,
        IsoCode639_3::SLV => Language::Slovene,
        IsoCode639_3::SOM => Language::Somali,
        IsoCode639_3::SPA => Language::Spanish,
        IsoCode639_3::SWA => Language::Swahili,
        IsoCode639_3::SWE => Language::Swedish,
        IsoCode639_3::TGL => Language::Tagalog,
        IsoCode639_3::TAM => Language::Tamil,
        IsoCode639_3::TEL => Language::Telugu,
        IsoCode639_3::THA => Language::Thai,
        IsoCode639_3::TUR => Language::Turkish,
        IsoCode639_3::UKR => Language::Ukrainian,
        IsoCode639_3::URD => Language::Urdu,
        IsoCode639_3::VIE => Language::Vietnamese,
        IsoCode639_3::CYM => Language::Welsh,
        IsoCode639_3::YOR => Language::Yoruba,
        IsoCode639_3::ZUL => Language::Zulu,
    }
}

/// No two languages share a two-letter code.
pub proof fn lemma_iso_code_639_1_injective(l1: Language, l2: Language)
    requires
        l1 != l2,
    ensures
        spec_iso_code_639_1(l1) != spec_iso_code_639_1(l2),
{
    assert(language_of_iso_639_1(spec_iso_code_639_1(l1)) == l1);
    assert(language_of_iso_639_1(spec_iso_code_639_1(l2)) == l2);
}

/// No two languages share a three-letter code.
pub proof fn lemma_iso_code_639_3_injective(l1: Language, l2: Language)
    requires
        l1 != l2,
    ensures
        spec_iso_code_639_3(l1) != spec_iso_code_639_3(l2),
{
    assert(language_of_iso_639_3(spec_iso_code_639_3(l1)) == l1);
    assert(language_of_iso_639_3(spec_iso_code_639_3(l2)) == l2);
}

/// Every language uses at least one writing system.
pub proof fn lemma_alphabets_nonempty(l: Language)
    ensures
        spec_alphabets(l).len() >= 1,
{
}

/// The writing systems of a language are listed without repetition.
pub proof fn lemma_alphabets_distinct(l: Language)
    ensures
        forall|i: int, j: int|
            0 <= i < j < spec_alphabets(l).len() ==> spec_alphabets(l)[i] != spec_alphabets(l)[j],
{
}

proof fn lemma_language_at_inverts_index(i: int)
    requires
        0 <= i < LANGUAGE_COUNT,
    ensures
        spec_language_index(spec_language_at(i)) == i,
{
}

proof fn lemma_language_index_in_range(l: Language)
    ensures
        0 <= spec_language_index(l) < LANGUAGE_COUNT,
{
}

proof fn lemma_language_at_of_index(l: Language)
    ensures
        spec_language_at(spec_language_index(l)) == l,
{
}

/// Closure: the catalogue lists each language exactly once, in a fixed
/// declaration order.
pub proof fn lemma_all_languages_closed()
    ensures
        spec_all_languages().len() == LANGUAGE_COUNT,
        forall|l: Language| spec_all_languages().contains(l),
        forall|i: int, j: int|
            0 <= i < j < spec_all_languages().len()
                ==> spec_all_languages()[i] != spec_all_languages()[j],
{
    assert forall|l: Language| spec_all_languages().contains(l) by {
        lemma_language_index_in_range(l);
        lemma_language_at_of_index(l);
        assert(spec_all_languages()[spec_language_index(l)] == l);
    }
    assert forall|i: int, j: int|
        0 <= i < j < spec_all_languages().len()
            implies spec_all_languages()[i] != spec_all_languages()[j] by {
        lemma_language_at_inverts_index(i);
        lemma_language_at_inverts_index(j);
    }
}

spec fn name_key(s: Seq<char>) -> (int, char, char, char) {
    (s.len() as int, s[0], s[1], s[2])
}

/// No two languages share an uppercase name, so a name parsed back
/// identifies one language: the round trip from a language through its
/// name returns that language.
pub proof fn lemma_uppercase_name_injective(l1: Language, l2: Language)
    requires
        l1 != l2,
    ensures
        spec_uppercase_name(l1) != spec_uppercase_name(l2),
{
    reveal_strlit("AFRIKAANS");
    reveal_strlit("ALBANIAN");
    reveal_strlit("ARABIC");
    reveal_strlit("ARMENIAN");
    reveal_strlit("AZERBAIJANI");
    reveal_strlit("BASQUE");
    reveal_strlit("BELARUSIAN");
    reveal_strlit("BENGALI");
    reveal_strlit("BOSNIAN");
    reveal_strlit("BULGARIAN");
    reveal_strlit("CATALAN");
    reveal_strlit("CHINESE");
    reveal_strlit("CROATIAN");
    reveal_strlit("CZECH");
    reveal_strlit("DANISH");
    reveal_strlit("DUTCH");
    reveal_strlit("ENGLISH");
    reveal_strlit("ESPERANTO");
    reveal_strlit("ESTONIAN");
    reveal_strlit("FINNISH");
    reveal_strlit("FRENCH");
    reveal_strlit("GEORGIAN");
    reveal_strlit("GERMAN");
    reveal_strlit("GREEK");
    reveal_strlit("GUJARATI");
    reveal_strlit("HEBREW");
    reveal_strlit("HINDI");
    reveal_strlit("HUNGARIAN");
    reveal_strlit("ICELANDIC");
    reveal_strlit("INDONESIAN");
    reveal_strlit("IRISH");
    reveal_strlit("ITALIAN");
    reveal_strlit("JAPANESE");
    reveal_strlit("KAZAKH");
    reveal_strlit("KOREAN");
    reveal_strlit("LATIN");
    reveal_strlit("LATVIAN");
    reveal_strlit("LITHUANIAN");
    reveal_strlit("MACEDONIAN");
    reveal_strlit("MALAY");
    reveal_strlit("MARATHI");
    reveal_strlit("MONGOLIAN");
    reveal_strlit("NORWEGIAN");
    reveal_strlit("PERSIAN");
    reveal_strlit("POLISH");
    reveal_strlit("PORTUGUESE");
    reveal_strlit("PUNJABI");
    reveal_strlit("ROMANIAN");
    reveal_strlit("RUSSIAN");
    reveal_strlit("SERBIAN");
    reveal_strlit("SLOVAK");
    reveal_strlit("SLOVENE");
    reveal_strlit("SOMALI");
    reveal_strlit("SPANISH");
    reveal_strlit("SWAHILI");
    reveal_strlit("SWEDISH");
    reveal_strlit("TAGALOG");
    reveal_strlit("TAMIL");
    reveal_strlit("TELUGU");
    reveal_strlit("THAI");
    reveal_strlit("TURKISH");
    reveal_strlit("UKRAINIAN");
    reveal_strlit("URDU");
    reveal_strlit("VIETNAMESE");
    reveal_strlit("WELSH");
    reveal_strlit("YORUBA");
    reveal_strlit("ZULU");
    assert(name_key(spec_uppercase_name(l1)) != name_key(spec_uppercase_name(l2)));
}

/// The rendered name of a language is already canonical: uppercase
/// canonicalization leaves it unchanged. Together with the contract of
/// parsing, the round trip from a language through its rendered name
/// returns that language.
pub proof fn lemma_uppercase_name_canonical(l: Language)
    ensures
        spec_ascii_uppercase(spec_uppercase_name(l)) == spec_uppercase_name(l),
{
    reveal_strlit("AFRIKAANS");
    reveal_strlit("ALBANIAN");
    reveal_strlit("ARABIC");
    reveal_strlit("ARMENIAN");
    reveal_strlit("AZERBAIJANI");
    reveal_strlit("BASQUE");
    reveal_strlit("BELARUSIAN");
    reveal_strlit("BENGALI");
    reveal_strlit("BOSNIAN");
    reveal_strlit("BULGARIAN");
    reveal_strlit("CATALAN");
    reveal_strlit("CHINESE");
    reveal_strlit("CROATIAN");
    reveal_strlit("CZECH");
    reveal_strlit("DANISH");
    reveal_strlit("DUTCH");
    reveal_strlit("ENGLISH");
    reveal_strlit("ESPERANTO");
    reveal_strlit("ESTONIAN");
    reveal_strlit("FINNISH");
    reveal_strlit("FRENCH");
    reveal_strlit("GEORGIAN");
    reveal_strlit("GERMAN");
    reveal_strlit("GREEK");
    reveal_strlit("GUJARATI");
    reveal_strlit("HEBREW");
    reveal_strlit("HINDI");
    reveal_strlit("HUNGARIAN");
    reveal_strlit("ICELANDIC");
    reveal_strlit("INDONESIAN");
    reveal_strlit("IRISH");
    reveal_strlit("ITALIAN");
    reveal_strlit("JAPANESE");
    reveal_strlit("KAZAKH");
    reveal_strlit("KOREAN");
    reveal_strlit("LATIN");
    reveal_strlit("LATVIAN");
    reveal_strlit("LITHUANIAN");
    reveal_strlit("MACEDONIAN");
    reveal_strlit("MALAY");
    reveal_strlit("MARATHI");
    reveal_strlit("MONGOLIAN");
    reveal_strlit("NORWEGIAN");
    reveal_strlit("PERSIAN");
    reveal_strlit("POLISH");
    reveal_strlit("PORTUGUESE");
    reveal_strlit("PUNJABI");
    reveal_strlit("ROMANIAN");
    reveal_strlit("RUSSIAN");
    reveal_strlit("SERBIAN");
    reveal_strlit("SLOVAK");
    reveal_strlit("SLOVENE");
    reveal_strlit("SOMALI");
    reveal_strlit("SPANISH");
    reveal_strlit("SWAHILI");
    reveal_strlit("SWEDISH");
    reveal_strlit("TAGALOG");
    reveal_strlit("TAMIL");
    reveal_strlit("TELUGU");
    reveal_strlit("THAI");
    reveal_strlit("TURKISH");
    reveal_strlit("UKRAINIAN");
    reveal_strlit("URDU");
    reveal_strlit("VIETNAMESE");
    reveal_strlit("WELSH");
    reveal_strlit("YORUBA");
    reveal_strlit("ZULU");
    assert(spec_ascii_uppercase("AFRIKAANS"@) =~= "AFRIKAANS"@);
    assert(spec_ascii_uppercase("ALBANIAN"@) =~= "ALBANIAN"@);
    assert(spec_ascii_uppercase("ARABIC"@) =~= "ARABIC"@);
    assert(spec_ascii_uppercase("ARMENIAN"@) =~= "ARMENIAN"@);
    assert(spec_ascii_uppercase("AZERBAIJANI"@) =~= "AZERBAIJANI"@);
    assert(spec_ascii_uppercase("BASQUE"@) =~= "BASQUE"@);
    assert(spec_ascii_uppercase("BELARUSIAN"@) =~= "BELARUSIAN"@);
    assert(spec_ascii_uppercase("BENGALI"@) =~= "BENGALI"@);
    assert(spec_ascii_uppercase("BOSNIAN"@) =~= "BOSNIAN"@);
    assert(spec_ascii_uppercase("BULGARIAN"@) =~= "BULGARIAN"@);
    assert(spec_ascii_uppercase("CATALAN"@) =~= "CATALAN"@);
    assert(spec_ascii_uppercase("CHINESE"@) =~= "CHINESE"@);
    assert(spec_ascii_uppercase("CROATIAN"@) =~= "CROATIAN"@);
    assert(spec_ascii_uppercase("CZECH"@) =~= "CZECH"@);
    assert(spec_ascii_uppercase("DANISH"@) =~= "DANISH"@);
    assert(spec_ascii_uppercase("DUTCH"@) =~= "DUTCH"@);
    assert(spec_ascii_uppercase("ENGLISH"@) =~= "ENGLISH"@);
    assert(spec_ascii_uppercase("ESPERANTO"@) =~= "ESPERANTO"@);
    assert(spec_ascii_uppercase("ESTONIAN"@) =~= "ESTONIAN"@);
    assert(spec_ascii_uppercase("FINNISH"@) =~= "FINNISH"@);
    assert(spec_ascii_uppercase("FRENCH"@) =~= "FRENCH"@);
    assert(spec_ascii_uppercase("GEORGIAN"@) =~= "GEORGIAN"@);
    assert(spec_ascii_uppercase("GERMAN"@) =~= "GERMAN"@);
    assert(spec_ascii_uppercase("GREEK"@) =~= "GREEK"@);
    assert(spec_ascii_uppercase("GUJARATI"@) =~= "GUJARATI"@);
    assert(spec_ascii_uppercase("HEBREW"@) =~= "HEBREW"@);
    assert(spec_ascii_uppercase("HINDI"@) =~= "HINDI"@);
    assert(spec_ascii_uppercase("HUNGARIAN"@) =~= "HUNGARIAN"@);
    assert(spec_ascii_uppercase("ICELANDIC"@) =~= "ICELANDIC"@);
    assert(spec_ascii_uppercase("INDONESIAN"@) =~= "INDONESIAN"@);
    assert(spec_ascii_uppercase("IRISH"@) =~= "IRISH"@);
    assert(spec_ascii_uppercase("ITALIAN"@) =~= "ITALIAN"@);
    assert(spec_ascii_uppercase("JAPANESE"@) =~= "JAPANESE"@);
    assert(spec_ascii_uppercase("KAZAKH"@) =~= "KAZAKH"@);
    assert(spec_ascii_uppercase("KOREAN"@) =~= "KOREAN"@);
    assert(spec_ascii_uppercase("LATIN"@) =~= "LATIN"@);
    assert(spec_ascii_uppercase("LATVIAN"@) =~= "LATVIAN"@);
    assert(spec_ascii_uppercase("LITHUANIAN"@) =~= "LITHUANIAN"@);
    assert(spec_ascii_uppercase("MACEDONIAN"@) =~= "MACEDONIAN"@);
    assert(spec_ascii_uppercase("MALAY"@) =~= "MALAY"@);
    assert(spec_ascii_uppercase("MARATHI"@) =~= "MARATHI"@);
    assert(spec_ascii_uppercase("MONGOLIAN"@) =~= "MONGOLIAN"@);
    assert(spec_ascii_uppercase("NORWEGIAN"@) =~= "NORWEGIAN"@);
    assert(spec_ascii_uppercase("PERSIAN"@) =~= "PERSIAN"@);
    assert(spec_ascii_uppercase("POLISH"@) =~= "POLISH"@);
    assert(spec_ascii_uppercase("PORTUGUESE"@) =~= "PORTUGUESE"@);
    assert(spec_ascii_uppercase("PUNJABI"@) =~= "PUNJABI"@);
    assert(spec_ascii_uppercase("ROMANIAN"@) =~= "ROMANIAN"@);
    assert(spec_ascii_uppercase("RUSSIAN"@) =~= "RUSSIAN"@);
    assert(spec_ascii_uppercase("SERBIAN"@) =~= "SERBIAN"@);
    assert(spec_ascii_uppercase("SLOVAK"@) =~= "SLOVAK"@);
    assert(spec_ascii_uppercase("SLOVENE"@) =~= "SLOVENE"@);
    assert(spec_ascii_uppercase("SOMALI"@) =~= "SOMALI"@);
    assert(spec_ascii_uppercase("SPANISH"@) =~= "SPANISH"@);
    assert(spec_ascii_uppercase("SWAHILI"@) =~= "SWAHILI"@);
    assert(spec_ascii_uppercase("SWEDISH"@) =~= "SWEDISH"@);
    assert(spec_ascii_uppercase("TAGALOG"@) =~= "TAGALOG"@);
    assert(spec_ascii_uppercase("TAMIL"@) =~= "TAMIL"@);
    assert(spec_ascii_uppercase("TELUGU"@) =~= "TELUGU"@);
    assert(spec_ascii_uppercase("THAI"@) =~= "THAI"@);
    assert(spec_ascii_uppercase("TURKISH"@) =~= "TURKISH"@);
    assert(spec_ascii_uppercase("UKRAINIAN"@) =~= "UKRAINIAN"@);
    assert(spec_ascii_uppercase("URDU"@) =~= "URDU"@);
    assert(spec_ascii_uppercase("VIETNAMESE"@) =~= "VIETNAMESE"@);
    assert(spec_ascii_uppercase("WELSH"@) =~= "WELSH"@);
    assert(spec_ascii_uppercase("YORUBA"@) =~= "YORUBA"@);
    assert(spec_ascii_uppercase("ZULU"@) =~= "ZULU"@);
}

} // verus!
