use vstd::prelude::*;

use crate::alphabet::Alphabet;
use crate::isocode::IsoCode639_1;
use crate::isocode::IsoCode639_3;

verus! {

/// The closed catalogue of supported languages. The set of values is
/// fixed at build time: the four lookups below are total over it and
/// cannot fail.
#[derive(Clone, Copy, Debug, PartialEq, Eq, Hash, Structural)]
pub enum Language {
    Afrikaans,
    Albanian,
    Arabic,
    Armenian,
    Azerbaijani,
    Basque,
    Belarusian,
    Bengali,
    Bosnian,
    Bulgarian,
    Catalan,
    Chinese,
    Croatian,
    Czech,
    Danish,
    Dutch,
    English,
    Esperanto,
    Estonian,
    Finnish,
    French,
    Georgian,
    German,
    Greek,
    Gujarati,
    Hebrew,
    Hindi,
    Hungarian,
    Icelandic,
    Indonesian,
    Irish,
    Italian,
    Japanese,
    Kazakh,
    Korean,
    Latin,
    Latvian,
    Lithuanian,
    Macedonian,
    Malay,
    Marathi,
    Mongolian,
    Norwegian,
    Persian,
    Polish,
    Portuguese,
    Punjabi,
    Romanian,
    Russian,
    Serbian,
    Slovak,
    Slovene,
    Somali,
    Spanish,
    Swahili,
    Swedish,
    Tagalog,
    Tamil,
    Telugu,
    Thai,
    Turkish,
    Ukrainian,
    Urdu,
    Vietnamese,
    Welsh,
    Yoruba,
    Zulu,
}

/// How many languages the catalogue holds.
pub const LANGUAGE_COUNT: usize = 67;

/// The two-letter code of a language.
pub open spec fn spec_iso_code_639_1(l: Language) -> IsoCode639_1 {
    match l {
        Language::Afrikaans => IsoCode639_1::AF,
        Language::Albanian => IsoCode639_1::SQ,
        Language::Arabic => IsoCode639_1::AR,
        Language::Armenian => IsoCode639_1::HY,
        Language::Azerbaijani => IsoCode639_1::AZ,
        Language::Basque => IsoCode639_1::EU,
        Language::Belarusian => IsoCode639_1::BE,
        Language::Bengali => IsoCode639_1::BN,
        Language::Bosnian => IsoCode639_1::BS,
        Language::Bulgarian => IsoCode639_1::BG,
        Language::Catalan => IsoCode639_1::CA,
        Language::Chinese => IsoCode639_1::ZH,
        Language::Croatian => IsoCode639_1::HR,
        Language::Czech => IsoCode639_1::CS,
        Language::Danish => IsoCode639_1::DA,
        Language::Dutch => IsoCode639_1::NL,
        Language::English => IsoCode639_1::EN,
        Language::Esperanto => IsoCode639_1::EO,
        Language::Estonian => IsoCode639_1::ET,
        Language::Finnish => IsoCode639_1::FI,
        Language::French => IsoCode639_1::FR,
        Language::Georgian => IsoCode639_1::KA,
        Language::German => IsoCode639_1::DE,
        Language::Greek => IsoCode639_1::EL,
        Language::Gujarati => IsoCode639_1::GU,
        Language::Hebrew => IsoCode639_1::HE,
        Language::Hindi => IsoCode639_1::HI,
        Language::Hungarian => IsoCode639_1::HU,
        Language::Icelandic => IsoCode639_1::IS,
        Language::Indonesian => IsoCode639_1::ID,
        Language::Irish => IsoCode639_1::GA,
        Language::Italian => IsoCode639_1::IT,
        Language::Japanese => IsoCode639_1::JA,
        Language::Kazakh => IsoCode639_1::KK,
        Language::Korean => IsoCode639_1::KO,
        Language::Latin => IsoCode639_1::LA,
        Language::Latvian => IsoCode639_1::LV,
        Language::Lithuanian => IsoCode639_1::LT,
        Language::Macedonian => IsoCode639_1::MK,
        Language::Malay => IsoCode639_1::MS,
        Language::Marathi => IsoCode639_1::MR,
        Language::Mongolian => IsoCode639_1::MN,
        Language::Norwegian => IsoCode639_1::NO,
        Language::Persian => IsoCode639_1::FA,
        Language::Polish => IsoCode639_1::PL,
        Language::Portuguese => IsoCode639_1::PT,
        Language::Punjabi => IsoCode639_1::PA,
        Language::Romanian => IsoCode639_1::RO,
        Language::Russian => IsoCode639_1::RU,
        Language::Serbian => IsoCode639_1::SR,
        Language::Slovak => IsoCode639_1::SK,
        Language::Slovene => IsoCode639_1::SL,
        Language::Somali => IsoCode639_1::SO,
        Language::Spanish => IsoCode639_1::ES,
        Language::Swahili => IsoCode639_1::SW,
        Language::Swedish => IsoCode639_1::SV,
        Language::Tagalog => IsoCode639_1::TL,
        Language::Tamil => IsoCode639_1::TA,
        Language::Telugu => IsoCode639_1::TE,
        Language::Thai => IsoCode639_1::TH,
        Language::Turkish => IsoCode639_1::TR,
        Language::Ukrainian => IsoCode639_1::UK,
        Language::Urdu => IsoCode639_1::UR,
        Language::Vietnamese => IsoCode639_1::VI,
        Language::Welsh => IsoCode639_1::CY,
        Language::Yoruba => IsoCode639_1::YO,
        Language::Zulu => IsoCode639_1::ZU,
    }
}

/// The three-letter code of a language.
pub open spec fn spec_iso_code_639_3(l: Language) -> IsoCode639_3 {
    match l {
        Language::Afrikaans => IsoCode639_3::AFR,
        Language::Albanian => IsoCode639_3::SQI,
        Language::Arabic => IsoCode639_3::ARA,
        Language::Armenian => IsoCode639_3::HYE,
        Language::Azerbaijani => IsoCode639_3::AZE,
        Language::Basque => IsoCode639_3::EUS,
        Language::Belarusian => IsoCode639_3::BEL,
        Language::Bengali => IsoCode639_3::BEN,
        Language::Bosnian => IsoCode639_3::BOS,
        Language::Bulgarian => IsoCode639_3::BUL,
        Language::Catalan => IsoCode639_3::CAT,
        Language::Chinese => IsoCode639_3::ZHO,
        Language::Croatian => IsoCode639_3::HRV,
        Language::Czech => IsoCode639_3::CES,
        Language::Danish => IsoCode639_3::DAN,
        Language::Dutch => IsoCode639_3::NLD,
        Language::English => IsoCode639_3::ENG,
        Language::Esperanto => IsoCode639_3::EPO,
        Language::Estonian => IsoCode639_3::EST,
        Language::Finnish => IsoCode639_3::FIN,
        Language::French => IsoCode639_3::FRA,
        Language::Georgian => IsoCode639_3::KAT,
        Language::German => IsoCode639_3::DEU,
        Language::Greek => IsoCode639_3::ELL,
        Language::Gujarati => IsoCode639_3::GUJ,
        Language::Hebrew => IsoCode639_3::HEB,
        Language::Hindi => IsoCode639_3::HIN,
        Language::Hungarian => IsoCode639_3::HUN,
        Language::Icelandic => IsoCode639_3::ISL,
        Language::Indonesian => IsoCode639_3::IND,
        Language::Irish => IsoCode639_3::GLE,
        Language::Italian => IsoCode639_3::ITA,
        Language::Japanese => IsoCode639_3::JPN,
        Language::Kazakh => IsoCode639_3::KAZ,
        Language::Korean => IsoCode639_3::KOR,
        Language::Latin => IsoCode639_3::LAT,
        Language::Latvian => IsoCode639_3::LAV,
        Language::Lithuanian => IsoCode639_3::LIT,
        Language::Macedonian => IsoCode639_3::MKD,
        Language::Malay => IsoCode639_3::MSA,
        Language::Marathi => IsoCode639_3::MAR,
        Language::Mongolian => IsoCode639_3::MON,
        Language::Norwegian => IsoCode639_3::NOR,
        Language::Persian => IsoCode639_3::FAS,
        Language::Polish => IsoCode639_3::POL,
        Language::Portuguese => IsoCode639_3::POR,
        Language::Punjabi => IsoCode639_3::PAN,
        Language::Romanian => IsoCode639_3::RON,
        Language::Russian => IsoCode639_3::RUS,
        Language::Serbian => IsoCode639_3::SRP,
        Language::Slovak => IsoCode639_3::SLK,
        Language::Slovene => IsoCode639_3::SLV,
        Language::Somali => IsoCode639_3::SOM,
        Language::Spanish => IsoCode639_3::SPA,
        Language::Swahili => IsoCode639_3::SWA,
        Language::Swedish => IsoCode639_3::SWE,
        Language::Tagalog => IsoCode639_3::TGL,
        Language::Tamil => IsoCode639_3::TAM,
        Language::Telugu => IsoCode639_3::TEL,
        Language::Thai => IsoCode639_3::THA,
        Language::Turkish => IsoCode639_3::TUR,
        Language::Ukrainian => IsoCode639_3::UKR,
        Language::Urdu => IsoCode639_3::URD,
        Language::Vietnamese => IsoCode639_3::VIE,
        Language::Welsh => IsoCode639_3::CYM,
        Language::Yoruba => IsoCode639_3::YOR,
        Language::Zulu => IsoCode639_3::ZUL,
    }
}

/// The writing systems of a language, as a duplicate-free sequence.
pub open spec fn spec_alphabets(l: Language) -> Seq<Alphabet> {
    match l {
        Language::Afrikaans => seq![Alphabet::Latin],
        Language::Albanian => seq![Alphabet::Latin],
        Language::Arabic => seq![Alphabet::Arabic],
        Language::Armenian => seq![Alphabet::Armenian],
        Language::Azerbaijani => seq![Alphabet::Latin],
        Language::Basque => seq![Alphabet::Latin],
        Language::Belarusian => seq![Alphabet::Cyrillic],
        Language::Bengali => seq![Alphabet::Bengali],
        Language::Bosnian => seq![Alphabet::Latin],
        Language::Bulgarian => seq![Alphabet::Cyrillic],
        Language::Catalan => seq![Alphabet::Latin],
        Language::Chinese => seq![Alphabet::Han],
        Language::Croatian => seq![Alphabet::Latin],
        Language::Czech => seq![Alphabet::Latin],
        Language::Danish => seq![Alphabet::Latin],
        Language::Dutch => seq![Alphabet::Latin],
        Language::English => seq![Alphabet::Latin],
        Language::Esperanto => seq![Alphabet::Latin],
        Language::Estonian => seq![Alphabet::Latin],
        Language::Finnish => seq![Alphabet::Latin],
        Language::French => seq![Alphabet::Latin],
        Language::Georgian => seq![Alphabet::Georgian],
        Language::German => seq![Alphabet::Latin],
        Language::Greek => seq![Alphabet::Greek],
        Language::Gujarati => seq![Alphabet::Gujarati],
        Language::Hebrew => seq![Alphabet::Hebrew],
        Language::Hindi => seq![Alphabet::Devanagari],
        Language::Hungarian => seq![Alphabet::Latin],
        Language::Icelandic => seq![Alphabet::Latin],
        Language::Indonesian => seq![Alphabet::Latin],
        Language::Irish => seq![Alphabet::Latin],
        Language::Italian => seq![Alphabet::Latin],
        Language::Japanese => seq![Alphabet::Hiragana, Alphabet::Katakana, Alphabet::Han],
        Language::Kazakh => seq![Alphabet::Cyrillic],
        Language::Korean => seq![Alphabet::Hangul],
        Language::Latin => seq![Alphabet::Latin],
        Language::Latvian => seq![Alphabet::Latin],
        Language::Lithuanian => seq![Alphabet::Latin],
        Language::Macedonian => seq![Alphabet::Cyrillic],
        Language::Malay => seq![Alphabet::Latin],
        Language::Marathi => seq![Alphabet::Devanagari],
        Language::Mongolian => seq![Alphabet::Cyrillic],
        Language::Norwegian => seq![Alphabet::Latin],
        Language::Persian => seq![Alphabet::Arabic],
        Language::Polish => seq![Alphabet::Latin],
        Language::Portuguese => seq![Alphabet::Latin],
        Language::Punjabi => seq![Alphabet::Gurmukhi],
        Language::Romanian => seq![Alphabet::Latin],
        Language::Russian => seq![Alphabet::Cyrillic],
        Language::Serbian => seq![Alphabet::Cyrillic],
        Language::Slovak => seq![Alphabet::Latin],
        Language::Slovene => seq![Alphabet::Latin],
        Language::Somali => seq![Alphabet::Latin],
        Language::Spanish => seq![Alphabet::Latin],
        Language::Swahili => seq![Alphabet::Latin],
        Language::Swedish => seq![Alphabet::Latin],
        Language::Tagalog => seq![Alphabet::Latin],
        Language::Tamil => seq![Alphabet::Tamil],
        Language::Telugu => seq![Alphabet::Telugu],
        Language::Thai => seq![Alphabet::Thai],
        Language::Turkish => seq![Alphabet::Latin],
        Language::Ukrainian => seq![Alphabet::Cyrillic],
        Language::Urdu => seq![Alphabet::Arabic],
        Language::Vietnamese => seq![Alphabet::Latin],
        Language::Welsh => seq![Alphabet::Latin],
        Language::Yoruba => seq![Alphabet::Latin],
        Language::Zulu => seq![Alphabet::Latin],
    }
}

/// The characters peculiar to the orthography of a language; empty when
/// no such characters are catalogued.
pub open spec fn spec_unique_characters(l: Language) -> Seq<char> {
    match l {
        Language::Albanian => "Ëë"@,
        Language::Azerbaijani => "Əə"@,
        Language::Catalan => "Ïï"@,
        Language::Czech => "ĚěŘřŮů"@,
        Language::Esperanto => "ĈĉĜĝĤĥĴĵŜŝŬŭ"@,
        Language::German => "ß"@,
        Language::Hungarian => "ŐőŰű"@,
        Language::Kazakh => "ӘәҒғҚқҢңҰұ"@,
        Language::Latvian => "ĢģĶķĻļŅņ"@,
        Language::Lithuanian => "ĖėĮįŲų"@,
        Language::Macedonian => "ЃѓЅѕЌќЏџ"@,
        Language::Marathi => "ळ"@,
        Language::Mongolian => "ӨөҮү"@,
        Language::Polish => "ŁłŃńŚśŹź"@,
        Language::Romanian => "Țţ"@,
        Language::Serbian => "ЂђЋћ"@,
        Language::Slovak => "ĹĺĽľŔŕ"@,
        Language::Spanish => "¿¡"@,
        Language::Ukrainian => "ҐґЄєЇї"@,
        Language::Vietnamese => "ẰằẦầẲẳẨẩẴẵẪẫẮắẤấẠạẶặẬậỀềẺẻỂểẼẽỄễẾếỆệỈỉĨĩỊịƠơỒồỜờỎỏỔổỞởỖỗỠỡỐốỚớỘộỢợƯưỪừỦủỬửŨũỮữỨứỤụỰựỲỳỶỷỸỹỴỵ"@,
        Language::Yoruba => "ŌōṢṣ"@,
        _ => ""@,
    }
}

/// The textual name of a language, as an uppercase token.
pub open spec fn spec_uppercase_name(l: Language) -> Seq<char> {
    match l {
        Language::Afrikaans => "AFRIKAANS"@,
        Language::Albanian => "ALBANIAN"@,
        Language::Arabic => "ARABIC"@,
        Language::Armenian => "ARMENIAN"@,
        Language::Azerbaijani => "AZERBAIJANI"@,
        Language::Basque => "BASQUE"@,
        Language::Belarusian => "BELARUSIAN"@,
        Language::Bengali => "BENGALI"@,
        Language::Bosnian => "BOSNIAN"@,
        Language::Bulgarian => "BULGARIAN"@,
        Language::Catalan => "CATALAN"@,
        Language::Chinese => "CHINESE"@,
        Language::Croatian => "CROATIAN"@,
        Language::Czech => "CZECH"@,
        Language::Danish => "DANISH"@,
        Language::Dutch => "DUTCH"@,
        Language::English => "ENGLISH"@,
        Language::Esperanto => "ESPERANTO"@,
        Language::Estonian => "ESTONIAN"@,
        Language::Finnish => "FINNISH"@,
        Language::French => "FRENCH"@,
        Language::Georgian => "GEORGIAN"@,
        Language::German => "GERMAN"@,
        Language::Greek => "GREEK"@,
        Language::Gujarati => "GUJARATI"@,
        Language::Hebrew => "HEBREW"@,
        Language::Hindi => "HINDI"@,
        Language::Hungarian => "HUNGARIAN"@,
        Language::Icelandic => "ICELANDIC"@,
        Language::Indonesian => "INDONESIAN"@,
        Language::Irish => "IRISH"@,
        Language::Italian => "ITALIAN"@,
        Language::Japanese => "JAPANESE"@,
        Language::Kazakh => "KAZAKH"@,
        Language::Korean => "KOREAN"@,
        Language::Latin => "LATIN"@,
        Language::Latvian => "LATVIAN"@,
        Language::Lithuanian => "LITHUANIAN"@,
        Language::Macedonian => "MACEDONIAN"@,
        Language::Malay => "MALAY"@,
        Language::Marathi => "MARATHI"@,
        Language::Mongolian => "MONGOLIAN"@,
        Language::Norwegian => "NORWEGIAN"@,
        Language::Persian => "PERSIAN"@,
        Language::Polish => "POLISH"@,
        Language::Portuguese => "PORTUGUESE"@,
        Language::Punjabi => "PUNJABI"@,
        Language::Romanian => "ROMANIAN"@,
        Language::Russian => "RUSSIAN"@,
        Language::Serbian => "SERBIAN"@,
        Language::Slovak => "SLOVAK"@,
        Language::Slovene => "SLOVENE"@,
        Language::Somali => "SOMALI"@,
        Language::Spanish => "SPANISH"@,
        Language::Swahili => "SWAHILI"@,
        Language::Swedish => "SWEDISH"@,
        Language::Tagalog => "TAGALOG"@,
        Language::Tamil => "TAMIL"@,
        Language::Telugu => "TELUGU"@,
        Language::Thai => "THAI"@,
        Language::Turkish => "TURKISH"@,
        Language::Ukrainian => "UKRAINIAN"@,
        Language::Urdu => "URDU"@,
        Language::Vietnamese => "VIETNAMESE"@,
        Language::Welsh => "WELSH"@,
        Language::Yoruba => "YORUBA"@,
        Language::Zulu => "ZULU"@,
    }
}

/// The position of a language in the declaration order of the catalogue.
pub open spec fn spec_language_index(l: Language) -> int {
    match l {
        Language::Afrikaans => 0,
        Language::Albanian => 1,
        Language::Arabic => 2,
        Language::Armenian => 3,
        Language::Azerbaijani => 4,
        Language::Basque => 5,
        Language::Belarusian => 6,
        Language::Bengali => 7,
        Language::Bosnian => 8,
        Language::Bulgarian => 9,
        Language::Catalan => 10,
        Language::Chinese => 11,
        Language::Croatian => 12,
        Language::Czech => 13,
        Language::Danish => 14,
        Language::Dutch => 15,
        Language::English => 16,
        Language::Esperanto => 17,
        Language::Estonian => 18,
        Language::Finnish => 19,
        Language::French => 20,
        Language::Georgian => 21,
        Language::German => 22,
        Language::Greek => 23,
        Language::Gujarati => 24,
        Language::Hebrew => 25,
        Language::Hindi => 26,
        Language::Hungarian => 27,
        Language::Icelandic => 28,
        Language::Indonesian => 29,
        Language::Irish => 30,
        Language::Italian => 31,
        Language::Japanese => 32,
        Language::Kazakh => 33,
        Language::Korean => 34,
        Language::Latin => 35,
        Language::Latvian => 36,
        Language::Lithuanian => 37,
        Language::Macedonian => 38,
        Language::Malay => 39,
        Language::Marathi => 40,
        Language::Mongolian => 41,
        Language::Norwegian => 42,
        Language::Persian => 43,
        Language::Polish => 44,
        Language::Portuguese => 45,
        Language::Punjabi => 46,
        Language::Romanian => 47,
        Language::Russian => 48,
        Language::Serbian => 49,
        Language::Slovak => 50,
        Language::Slovene => 51,
        Language::Somali => 52,
        Language::Spanish => 53,
        Language::Swahili => 54,
        Language::Swedish => 55,
        Language::Tagalog => 56,
        Language::Tamil => 57,
        Language::Telugu => 58,
        Language::Thai => 59,
        Language::Turkish => 60,
        Language::Ukrainian => 61,
        Language::Urdu => 62,
        Language::Vietnamese => 63,
        Language::Welsh => 64,
        Language::Yoruba => 65,
        Language::Zulu => 66,
    }
}

/// The language at a given position of the declaration order.
pub open spec fn spec_language_at(i: int) -> Language {
    if i == 0 {
        Language::Afrikaans
    } else if i == 1 {
        Language::Albanian
    } else if i == 2 {
        Language::Arabic
    } else if i == 3 {
        Language::Armenian
    } else if i == 4 {
        Language::Azerbaijani
    } else if i == 5 {
        Language::Basque
    } else if i == 6 {
        Language::Belarusian
    } else if i == 7 {
        Language::Bengali
    } else if i == 8 {
        Language::Bosnian
    } else if i == 9 {
        Language::Bulgarian
    } else if i == 10 {
        Language::Catalan
    } else if i == 11 {
        Language::Chinese
    } else if i == 12 {
        Language::Croatian
    } else if i == 13 {
        Language::Czech
    } else if i == 14 {
        Language::Danish
    } else if i == 15 {
        Language::Dutch
    } else if i == 16 {
        Language::English
    } else if i == 17 {
        Language::Esperanto
    } else if i == 18 {
        Language::Estonian
    } else if i == 19 {
        Language::Finnish
    } else if i == 20 {
        Language::French
    } else if i == 21 {
        Language::Georgian
    } else if i == 22 {
        Language::German
    } else if i == 23 {
        Language::Greek
    } else if i == 24 {
        Language::Gujarati
    } else if i == 25 {
        Language::Hebrew
    } else if i == 26 {
        Language::Hindi
    } else if i == 27 {
        Language::Hungarian
    } else if i == 28 {
        Language::Icelandic
    } else if i == 29 {
        Language::Indonesian
    } else if i == 30 {
        Language::Irish
    } else if i == 31 {
        Language::Italian
    } else if i == 32 {
        Language::Japanese
    } else if i == 33 {
        Language::Kazakh
    } else if i == 34 {
        Language::Korean
    } else if i == 35 {
        Language::Latin
    } else if i == 36 {
        Language::Latvian
    } else if i == 37 {
        Language::Lithuanian
    } else if i == 38 {
        Language::Macedonian
    } else if i == 39 {
        Language::Malay
    } else if i == 40 {
        Language::Marathi
    } else if i == 41 {
        Language::Mongolian
    } else if i == 42 {
        Language::Norwegian
    } else if i == 43 {
        Language::Persian
    } else if i == 44 {
        Language::Polish
    } else if i == 45 {
        Language::Portuguese
    } else if i == 46 {
        Language::Punjabi
    } else if i == 47 {
        Language::Romanian
    } else if i == 48 {
        Language::Russian
    } else if i == 49 {
        Language::Serbian
    } else if i == 50 {
        Language::Slovak
    } else if i == 51 {
        Language::Slovene
    } else if i == 52 {
        Language::Somali
    } else if i == 53 {
        Language::Spanish
    } else if i == 54 {
        Language::Swahili
    } else if i == 55 {
        Language::Swedish
    } else if i == 56 {
        Language::Tagalog
    } else if i == 57 {
        Language::Tamil
    } else if i == 58 {
        Language::Telugu
    } else if i == 59 {
        Language::Thai
    } else if i == 60 {
        Language::Turkish
    } else if i == 61 {
        Language::Ukrainian
    } else if i == 62 {
        Language::Urdu
    } else if i == 63 {
        Language::Vietnamese
    } else if i == 64 {
        Language::Welsh
    } else if i == 65 {
        Language::Yoruba
    } else {
        Language::Zulu
    }
}

/// The full catalogue, in declaration order.
pub open spec fn spec_all_languages() -> Seq<Language> {
    Seq::new(LANGUAGE_COUNT as nat, |i: int| spec_language_at(i))
}

impl Language {
    /// Every supported language, in a fixed, stable declaration order.
    pub fn all_languages() -> (r: Vec<Language>)
        ensures
            r@ == spec_all_languages(),
    {
        let r: Vec<Language> = vec![
            Language::Afrikaans,
            Language::Albanian,
            Language::Arabic,
            Language::Armenian,
            Language::Azerbaijani,
            Language::Basque,
            Language::Belarusian,
            Language::Bengali,
            Language::Bosnian,
            Language::Bulgarian,
            Language::Catalan,
            Language::Chinese,
            Language::Croatian,
            Language::Czech,
            Language::Danish,
            Language::Dutch,
            Language::English,
            Language::Esperanto,
            Language::Estonian,
            Language::Finnish,
            Language::French,
            Language::Georgian,
            Language::German,
            Language::Greek,
            Language::Gujarati,
            Language::Hebrew,
            Language::Hindi,
            Language::Hungarian,
            Language::Icelandic,
            Language::Indonesian,
            Language::Irish,
            Language::Italian,
            Language::Japanese,
            Language::Kazakh,
            Language::Korean,
            Language::Latin,
            Language::Latvian,
            Language::Lithuanian,
            Language::Macedonian,
            Language::Malay,
            Language::Marathi,
            Language::Mongolian,
            Language::Norwegian,
            Language::Persian,
            Language::Polish,
            Language::Portuguese,
            Language::Punjabi,
            Language::Romanian,
            Language::Russian,
            Language::Serbian,
            Language::Slovak,
            Language::Slovene,
            Language::Somali,
            Language::Spanish,
            Language::Swahili,
            Language::Swedish,
            Language::Tagalog,
            Language::Tamil,
            Language::Telugu,
            Language::Thai,
            Language::Turkish,
            Language::Ukrainian,
            Language::Urdu,
            Language::Vietnamese,
            Language::Welsh,
            Language::Yoruba,
            Language::Zulu,
        ];
        proof {
            assert(r@ =~= spec_all_languages());
        }
        r
    }

    /// The standardized two-letter code of this language.
    pub fn iso_code_639_1(&self) -> (r: IsoCode639_1)
        ensures
            r == spec_iso_code_639_1(*self),
    {
        match *self {
            Language::Afrikaans => IsoCode639_1::AF,
            Language::Albanian => IsoCode639_1::SQ,
            Language::Arabic => IsoCode639_1::AR,
            Language::Armenian => IsoCode639_1::HY,
            Language::Azerbaijani => IsoCode639_1::AZ,
            Language::Basque => IsoCode639_1::EU,
            Language::Belarusian => IsoCode639_1::BE,
            Language::Bengali => IsoCode639_1::BN,
            Language::Bosnian => IsoCode639_1::BS,
            Language::Bulgarian => IsoCode639_1::BG,
            Language::Catalan => IsoCode639_1::CA,
            Language::Chinese => IsoCode639_1::ZH,
            Language::Croatian => IsoCode639_1::HR,
            Language::Czech => IsoCode639_1::CS,
            Language::Danish => IsoCode639_1::DA,
            Language::Dutch => IsoCode639_1::NL,
            Language::English => IsoCode639_1::EN,
            Language::Esperanto => IsoCode639_1::EO,
            Language::Estonian => IsoCode639_1::ET,
            Language::Finnish => IsoCode639_1::FI,
            Language::French => IsoCode639_1::FR,
            Language::Georgian => IsoCode639_1::KA,
            Language::German => IsoCode639_1::DE,
            Language::Greek => IsoCode639_1::EL,
            Language::Gujarati => IsoCode639_1::GU,
            Language::Hebrew => IsoCode639_1::HE,
            Language::Hindi => IsoCode639_1::HI,
            Language::Hungarian => IsoCode639_1::HU,
            Language::Icelandic => IsoCode639_1::IS,
            Language::Indonesian => IsoCode639_1::ID,
            Language::Irish => IsoCode639_1::GA,
            Language::Italian => IsoCode639_1::IT,
            Language::Japanese => IsoCode639_1::JA,
            Language::Kazakh => IsoCode639_1::KK,
            Language::Korean => IsoCode639_1::KO,
            Language::Latin => IsoCode639_1::LA,
            Language::Latvian => IsoCode639_1::LV,
            Language::Lithuanian => IsoCode639_1::LT,
            Language::Macedonian => IsoCode639_1::MK,
            Language::Malay => IsoCode639_1::MS,
            Language::Marathi => IsoCode639_1::MR,
            Language::Mongolian => IsoCode639_1::MN,
            Language::Norwegian => IsoCode639_1::NO,
            Language::Persian => IsoCode639_1::FA,
            Language::Polish => IsoCode639_1::PL,
            Language::Portuguese => IsoCode639_1::PT,
            Language::Punjabi => IsoCode639_1::PA,
            Language::Romanian => IsoCode639_1::RO,
            Language::Russian => IsoCode639_1::RU,
            Language::Serbian => IsoCode639_1::SR,
            Language::Slovak => IsoCode639_1::SK,
            Language::Slovene => IsoCode639_1::SL,
            Language::Somali => IsoCode639_1::SO,
            Language::Spanish => IsoCode639_1::ES,
            Language::Swahili => IsoCode639_1::SW,
            Language::Swedish => IsoCode639_1::SV,
            Language::Tagalog => IsoCode639_1::TL,
            Language::Tamil => IsoCode639_1::TA,
            Language::Telugu => IsoCode639_1::TE,
            Language::Thai => IsoCode639_1::TH,
            Language::Turkish => IsoCode639_1::TR,
            Language::Ukrainian => IsoCode639_1::UK,
            Language::Urdu => IsoCode639_1::UR,
            Language::Vietnamese => IsoCode639_1::VI,
            Language::Welsh => IsoCode639_1::CY,
            Language::Yoruba => IsoCode639_1::YO,
            Language::Zulu => IsoCode639_1::ZU,
        }
    }

    /// The standardized three-letter code of this language.
    pub fn iso_code_639_3(&self) -> (r: IsoCode639_3)
        ensures
            r == spec_iso_code_639_3(*self),
    {
        match *self {
            Language::Afrikaans => IsoCode639_3::AFR,
            Language::Albanian => IsoCode639_3::SQI,
            Language::Arabic => IsoCode639_3::ARA,
            Language::Armenian => IsoCode639_3::HYE,
            Language::Azerbaijani => IsoCode639_3::AZE,
            Language::Basque => IsoCode639_3::EUS,
            Language::Belarusian => IsoCode639_3::BEL,
            Language::Bengali => IsoCode639_3::BEN,
            Language::Bosnian => IsoCode639_3::BOS,
            Language::Bulgarian => IsoCode639_3::BUL,
            Language::Catalan => IsoCode639_3::CAT,
            Language::Chinese => IsoCode639_3::ZHO,
            Language::Croatian => IsoCode639_3::HRV,
            Language::Czech => IsoCode639_3::CES,
            Language::Danish => IsoCode639_3::DAN,
            Language::Dutch => IsoCode639_3::NLD,
            Language::English => IsoCode639_3::ENG,
            Language::Esperanto => IsoCode639_3::EPO,
            Language::Estonian => IsoCode639_3::EST,
            Language::Finnish => IsoCode639_3::FIN,
            Language::French => IsoCode639_3::FRA,
            Language::Georgian => IsoCode639_3::KAT,
            Language::German => IsoCode639_3::DEU,
            Language::Greek => IsoCode639_3::ELL,
            Language::Gujarati => IsoCode639_3::GUJ,
            Language::Hebrew => IsoCode639_3::HEB,
            Language::Hindi => IsoCode639_3::HIN,
            Language::Hungarian => IsoCode639_3::HUN,
            Language::Icelandic => IsoCode639_3::ISL,
            Language::Indonesian => IsoCode639_3::IND,
            Language::Irish => IsoCode639_3::GLE,
            Language::Italian => IsoCode639_3::ITA,
            Language::Japanese => IsoCode639_3::JPN,
            Language::Kazakh => IsoCode639_3::KAZ,
            Language::Korean => IsoCode639_3::KOR,
            Language::Latin => IsoCode639_3::LAT,
            Language::Latvian => IsoCode639_3::LAV,
            Language::Lithuanian => IsoCode639_3::LIT,
            Language::Macedonian => IsoCode639_3::MKD,
            Language::Malay => IsoCode639_3::MSA,
            Language::Marathi => IsoCode639_3::MAR,
            Language::Mongolian => IsoCode639_3::MON,
            Language::Norwegian => IsoCode639_3::NOR,
            Language::Persian => IsoCode639_3::FAS,
            Language::Polish => IsoCode639_3::POL,
            Language::Portuguese => IsoCode639_3::POR,
            Language::Punjabi => IsoCode639_3::PAN,
            Language::Romanian => IsoCode639_3::RON,
            Language::Russian => IsoCode639_3::RUS,
            Language::Serbian => IsoCode639_3::SRP,
            Language::Slovak => IsoCode639_3::SLK,
            Language::Slovene => IsoCode639_3::SLV,
            Language::Somali => IsoCode639_3::SOM,
            Language::Spanish => IsoCode639_3::SPA,
            Language::Swahili => IsoCode639_3::SWA,
            Language::Swedish => IsoCode639_3::SWE,
            Language::Tagalog => IsoCode639_3::TGL,
            Language::Tamil => IsoCode639_3::TAM,
            Language::Telugu => IsoCode639_3::TEL,
            Language::Thai => IsoCode639_3::THA,
            Language::Turkish => IsoCode639_3::TUR,
            Language::Ukrainian => IsoCode639_3::UKR,
            Language::Urdu => IsoCode639_3::URD,
            Language::Vietnamese => IsoCode639_3::VIE,
            Language::Welsh => IsoCode639_3::CYM,
            Language::Yoruba => IsoCode639_3::YOR,
            Language::Zulu => IsoCode639_3::ZUL,
        }
    }

    /// The writing systems used to write this language: never empty, and
    /// free of duplicates.
    pub fn alphabets(&self) -> (r: Vec<Alphabet>)
        ensures
            r@ == spec_alphabets(*self),
    {
        let r: Vec<Alphabet> = match *self {
            Language::Afrikaans => vec![Alphabet::Latin],
            Language::Albanian => vec![Alphabet::Latin],
            Language::Arabic => vec![Alphabet::Arabic],
            Language::Armenian => vec![Alphabet::Armenian],
            Language::Azerbaijani => vec![Alphabet::Latin],
            Language::Basque => vec![Alphabet::Latin],
            Language::Belarusian => vec![Alphabet::Cyrillic],
            Language::Bengali => vec![Alphabet::Bengali],
            Language::Bosnian => vec![Alphabet::Latin],
            Language::Bulgarian => vec![Alphabet::Cyrillic],
            Language::Catalan => vec![Alphabet::Latin],
            Language::Chinese => vec![Alphabet::Han],
            Language::Croatian => vec![Alphabet::Latin],
            Language::Czech => vec![Alphabet::Latin],
            Language::Danish => vec![Alphabet::Latin],
            Language::Dutch => vec![Alphabet::Latin],
            Language::English => vec![Alphabet::Latin],
            Language::Esperanto => vec![Alphabet::Latin],
            Language::Estonian => vec![Alphabet::Latin],
            Language::Finnish => vec![Alphabet::Latin],
            Language::French => vec![Alphabet::Latin],
            Language::Georgian => vec![Alphabet::Georgian],
            Language::German => vec![Alphabet::Latin],
            Language::Greek => vec![Alphabet::Greek],
            Language::Gujarati => vec![Alphabet::Gujarati],
            Language::Hebrew => vec![Alphabet::Hebrew],
            Language::Hindi => vec![Alphabet::Devanagari],
            Language::Hungarian => vec![Alphabet::Latin],
            Language::Icelandic => vec![Alphabet::Latin],
            Language::Indonesian => vec![Alphabet::Latin],
            Language::Irish => vec![Alphabet::Latin],
            Language::Italian => vec![Alphabet::Latin],
            Language::Japanese => vec![Alphabet::Hiragana, Alphabet::Katakana, Alphabet::Han],
            Language::Kazakh => vec![Alphabet::Cyrillic],
            Language::Korean => vec![Alphabet::Hangul],
            Language::Latin => vec![Alphabet::Latin],
            Language::Latvian => vec![Alphabet::Latin],
            Language::Lithuanian => vec![Alphabet::Latin],
            Language::Macedonian => vec![Alphabet::Cyrillic],
            Language::Malay => vec![Alphabet::Latin],
            Language::Marathi => vec![Alphabet::Devanagari],
            Language::Mongolian => vec![Alphabet::Cyrillic],
            Language::Norwegian => vec![Alphabet::Latin],
            Language::Persian => vec![Alphabet::Arabic],
            Language::Polish => vec![Alphabet::Latin],
            Language::Portuguese => vec![Alphabet::Latin],
            Language::Punjabi => vec![Alphabet::Gurmukhi],
            Language::Romanian => vec![Alphabet::Latin],
            Language::Russian => vec![Alphabet::Cyrillic],
            Language::Serbian => vec![Alphabet::Cyrillic],
            Language::Slovak => vec![Alphabet::Latin],
            Language::Slovene => vec![Alphabet::Latin],
            Language::Somali => vec![Alphabet::Latin],
            Language::Spanish => vec![Alphabet::Latin],
            Language::Swahili => vec![Alphabet::Latin],
            Language::Swedish => vec![Alphabet::Latin],
            Language::Tagalog => vec![Alphabet::Latin],
            Language::Tamil => vec![Alphabet::Tamil],
            Language::Telugu => vec![Alphabet::Telugu],
            Language::Thai => vec![Alphabet::Thai],
            Language::Turkish => vec![Alphabet::Latin],
            Language::Ukrainian => vec![Alphabet::Cyrillic],
            Language::Urdu => vec![Alphabet::Arabic],
            Language::Vietnamese => vec![Alphabet::Latin],
            Language::Welsh => vec![Alphabet::Latin],
            Language::Yoruba => vec![Alphabet::Latin],
            Language::Zulu => vec![Alphabet::Latin],
        };
        proof {
            assert(r@ =~= spec_alphabets(*self));
        }
        r
    }

    /// The characters peculiar to the orthography of this language;
    /// the empty string when none are catalogued.
    pub fn unique_characters(&self) -> (r: &str)
        ensures
            r@ == spec_unique_characters(*self),
    {
        match *self {
            Language::Albanian => "Ëë",
            Language::Azerbaijani => "Əə",
            Language::Catalan => "Ïï",
            Language::Czech => "ĚěŘřŮů",
            Language::Esperanto => "ĈĉĜĝĤĥĴĵŜŝŬŭ",
            Language::German => "ß",
            Language::Hungarian => "ŐőŰű",
            Language::Kazakh => "ӘәҒғҚқҢңҰұ",
            Language::Latvian => "ĢģĶķĻļŅņ",
            Language::Lithuanian => "ĖėĮįŲų",
            Language::Macedonian => "ЃѓЅѕЌќЏџ",
            Language::Marathi => "ळ",
            Language::Mongolian => "ӨөҮү",
            Language::Polish => "ŁłŃńŚśŹź",
            Language::Romanian => "Țţ",
            Language::Serbian => "ЂђЋћ",
            Language::Slovak => "ĹĺĽľŔŕ",
            Language::Spanish => "¿¡",
            Language::Ukrainian => "ҐґЄєЇї",
            Language::Vietnamese => "ẰằẦầẲẳẨẩẴẵẪẫẮắẤấẠạẶặẬậỀềẺẻỂểẼẽỄễẾếỆệỈỉĨĩỊịƠơỒồỜờỎỏỔổỞởỖỗỠỡỐốỚớỘộỢợƯưỪừỦủỬửŨũỮữỨứỤụỰựỲỳỶỷỸỹỴỵ",
            Language::Yoruba => "ŌōṢṣ",
            _ => "",
        }
    }

    /// The textual name of this language, rendered as an uppercase token.
    pub fn uppercase_name(&self) -> (r: &str)
        ensures
            r@ == spec_uppercase_name(*self),
    {
        match *self {
            Language::Afrikaans => "AFRIKAANS",
            Language::Albanian => "ALBANIAN",
            Language::Arabic => "ARABIC",
            Language::Armenian => "ARMENIAN",
            Language::Azerbaijani => "AZERBAIJANI",
            Language::Basque => "BASQUE",
            Language::Belarusian => "BELARUSIAN",
            Language::Bengali => "BENGALI",
            Language::Bosnian => "BOSNIAN",
            Language::Bulgarian => "BULGARIAN",
            Language::Catalan => "CATALAN",
            Language::Chinese => "CHINESE",
            Language::Croatian => "CROATIAN",
            Language::Czech => "CZECH",
            Language::Danish => "DANISH",
            Language::Dutch => "DUTCH",
            Language::English => "ENGLISH",
            Language::Esperanto => "ESPERANTO",
            Language::Estonian => "ESTONIAN",
            Language::Finnish => "FINNISH",
            Language::French => "FRENCH",
            Language::Georgian => "GEORGIAN",
            Language::German => "GERMAN",
            Language::Greek => "GREEK",
            Language::Gujarati => "GUJARATI",
            Language::Hebrew => "HEBREW",
            Language::Hindi => "HINDI",
            Language::Hungarian => "HUNGARIAN",
            Language::Icelandic => "ICELANDIC",
            Language::Indonesian => "INDONESIAN",
            Language::Irish => "IRISH",
            Language::Italian => "ITALIAN",
            Language::Japanese => "JAPANESE",
            Language::Kazakh => "KAZAKH",
            Language::Korean => "KOREAN",
            Language::Latin => "LATIN",
            Language::Latvian => "LATVIAN",
            Language::Lithuanian => "LITHUANIAN",
            Language::Macedonian => "MACEDONIAN",
            Language::Malay => "MALAY",
            Language::Marathi => "MARATHI",
            Language::Mongolian => "MONGOLIAN",
            Language::Norwegian => "NORWEGIAN",
            Language::Persian => "PERSIAN",
            Language::Polish => "POLISH",
            Language::Portuguese => "PORTUGUESE",
            Language::Punjabi => "PUNJABI",
            Language::Romanian => "ROMANIAN",
            Language::Russian => "RUSSIAN",
            Language::Serbian => "SERBIAN",
            Language::Slovak => "SLOVAK",
            Language::Slovene => "SLOVENE",
            Language::Somali => "SOMALI",
            Language::Spanish => "SPANISH",
            Language::Swahili => "SWAHILI",
            Language::Swedish => "SWEDISH",
            Language::Tagalog => "TAGALOG",
            Language::Tamil => "TAMIL",
            Language::Telugu => "TELUGU",
            Language::Thai => "THAI",
            Language::Turkish => "TURKISH",
            Language::Ukrainian => "UKRAINIAN",
            Language::Urdu => "URDU",
            Language::Vietnamese => "VIETNAMESE",
            Language::Welsh => "WELSH",
            Language::Yoruba => "YORUBA",
            Language::Zulu => "ZULU",
        }
    }
}

/// The one failure of the registry: a textual name that matches no
/// cataloged language. It carries the offending input.
#[derive(Clone, Debug, PartialEq, Eq)]
pub enum LanguageParseError {
    UnrecognizedLanguage(String),
}

/// A character with any ASCII lower-case letter replaced by its
/// upper-case form.
pub open spec fn spec_ascii_upper(c: char) -> char {
    if 'a' <= c && c <= 'z' {
        ((c as u8) - 32) as char
    } else {
        c
    }
}

/// A string canonicalized to upper case, character by character.
pub open spec fn spec_ascii_uppercase(s: Seq<char>) -> Seq<char> {
    Seq::new(s.len(), |i: int| spec_ascii_upper(s[i]))
}

/// Whether the upper-case canonical form of one string equals another.
fn eq_uppercase(a: &str, b: &str) -> (r: bool)
    ensures
        r <==> spec_ascii_uppercase(a@) == b@,
{
    let alen: usize = a.unicode_len();
    let blen: usize = b.unicode_len();
    if alen != blen {
        return false;
    }
    let mut i: usize = 0;
    while i < alen
        invariant
            i <= alen,
            alen == a@.len(),
            alen == b@.len(),
            forall|j: int| 0 <= j < i ==> spec_ascii_upper(a@[j]) == b@[j],
        decreases alen - i,
    {
        let c = a.get_char(i);
        let u = if 'a' <= c && c <= 'z' {
            ((c as u8) - 32) as char
        } else {
            c
        };
        if u != b.get_char(i) {
            return false;
        }
        i += 1;
    }
    proof {
        assert(spec_ascii_uppercase(a@) =~= b@);
    }
    true
}

impl Language {
    fn find_by_uppercase_name(text: &str) -> (r: Option<Language>)
        ensures
            match r {
                Some(l) => spec_ascii_uppercase(text@) == spec_uppercase_name(l),
                None => forall|l: Language| spec_ascii_uppercase(text@) != spec_uppercase_name(l),
            },
    {
        if eq_uppercase(text, "AFRIKAANS") {
            return Some(Language::Afrikaans);
        }
        if eq_uppercase(text, "ALBANIAN") {
            return Some(Language::Albanian);
        }
        if eq_uppercase(text, "ARABIC") {
            return Some(Language::Arabic);
        }
        if eq_uppercase(text, "ARMENIAN") {
            return Some(Language::Armenian);
        }
        if eq_uppercase(text, "AZERBAIJANI") {
            return Some(Language::Azerbaijani);
        }
        if eq_uppercase(text, "BASQUE") {
            return Some(Language::Basque);
        }
        if eq_uppercase(text, "BELARUSIAN") {
            return Some(Language::Belarusian);
        }
        if eq_uppercase(text, "BENGALI") {
            return Some(Language::Bengali);
        }
        if eq_uppercase(text, "BOSNIAN") {
            return Some(Language::Bosnian);
        }
        if eq_uppercase(text, "BULGARIAN") {
            return Some(Language::Bulgarian);
        }
        if eq_uppercase(text, "CATALAN") {
            return Some(Language::Catalan);
        }
        if eq_uppercase(text, "CHINESE") {
            return Some(Language::Chinese);
        }
        if eq_uppercase(text, "CROATIAN") {
            return Some(Language::Croatian);
        }
        if eq_uppercase(text, "CZECH") {
            return Some(Language::Czech);
        }
        if eq_uppercase(text, "DANISH") {
            return Some(Language::Danish);
        }
        if eq_uppercase(text, "DUTCH") {
            return Some(Language::Dutch);
        }
        if eq_uppercase(text, "ENGLISH") {
            return Some(Language::English);
        }
        if eq_uppercase(text, "ESPERANTO") {
            return Some(Language::Esperanto);
        }
        if eq_uppercase(text, "ESTONIAN") {
            return Some(Language::Estonian);
        }
        if eq_uppercase(text, "FINNISH") {
            return Some(Language::Finnish);
        }
        if eq_uppercase(text, "FRENCH") {
            return Some(Language::French);
        }
        if eq_uppercase(text, "GEORGIAN") {
            return Some(Language::Georgian);
        }
        if eq_uppercase(text, "GERMAN") {
            return Some(Language::German);
        }
        if eq_uppercase(text, "GREEK") {
            return Some(Language::Greek);
        }
        if eq_uppercase(text, "GUJARATI") {
            return Some(Language::Gujarati);
        }
        if eq_uppercase(text, "HEBREW") {
            return Some(Language::Hebrew);
        }
        if eq_uppercase(text, "HINDI") {
            return Some(Language::Hindi);
        }
        if eq_uppercase(text, "HUNGARIAN") {
            return Some(Language::Hungarian);
        }
        if eq_uppercase(text, "ICELANDIC") {
            return Some(Language::Icelandic);
        }
        if eq_uppercase(text, "INDONESIAN") {
            return Some(Language::Indonesian);
        }
        if eq_uppercase(text, "IRISH") {
            return Some(Language::Irish);
        }
        if eq_uppercase(text, "ITALIAN") {
            return Some(Language::Italian);
        }
        if eq_uppercase(text, "JAPANESE") {
            return Some(Language::Japanese);
        }
        if eq_uppercase(text, "KAZAKH") {
            return Some(Language::Kazakh);
        }
        if eq_uppercase(text, "KOREAN") {
            return Some(Language::Korean);
        }
        if eq_uppercase(text, "LATIN") {
            return Some(Language::Latin);
        }
        if eq_uppercase(text, "LATVIAN") {
            return Some(Language::Latvian);
        }
        if eq_uppercase(text, "LITHUANIAN") {
            return Some(Language::Lithuanian);
        }
        if eq_uppercase(text, "MACEDONIAN") {
            return Some(Language::Macedonian);
        }
        if eq_uppercase(text, "MALAY") {
            return Some(Language::Malay);
        }
        if eq_uppercase(text, "MARATHI") {
            return Some(Language::Marathi);
        }
        if eq_uppercase(text, "MONGOLIAN") {
            return Some(Language::Mongolian);
        }
        if eq_uppercase(text, "NORWEGIAN") {
            return Some(Language::Norwegian);
        }
        if eq_uppercase(text, "PERSIAN") {
            return Some(Language::Persian);
        }
        if eq_uppercase(text, "POLISH") {
            return Some(Language::Polish);
        }
        if eq_uppercase(text, "PORTUGUESE") {
            return Some(Language::Portuguese);
        }
        if eq_uppercase(text, "PUNJABI") {
            return Some(Language::Punjabi);
        }
        if eq_uppercase(text, "ROMANIAN") {
            return Some(Language::Romanian);
        }
        if eq_uppercase(text, "RUSSIAN") {
            return Some(Language::Russian);
        }
        if eq_uppercase(text, "SERBIAN") {
            return Some(Language::Serbian);
        }
        if eq_uppercase(text, "SLOVAK") {
            return Some(Language::Slovak);
        }
        if eq_uppercase(text, "SLOVENE") {
            return Some(Language::Slovene);
        }
        if eq_uppercase(text, "SOMALI") {
            return Some(Language::Somali);
        }
        if eq_uppercase(text, "SPANISH") {
            return Some(Language::Spanish);
        }
        if eq_uppercase(text, "SWAHILI") {
            return Some(Language::Swahili);
        }
        if eq_uppercase(text, "SWEDISH") {
            return Some(Language::Swedish);
        }
        if eq_uppercase(text, "TAGALOG") {
            return Some(Language::Tagalog);
        }
        if eq_uppercase(text, "TAMIL") {
            return Some(Language::Tamil);
        }
        if eq_uppercase(text, "TELUGU") {
            return Some(Language::Telugu);
        }
        if eq_uppercase(text, "THAI") {
            return Some(Language::Thai);
        }
        if eq_uppercase(text, "TURKISH") {
            return Some(Language::Turkish);
        }
        if eq_uppercase(text, "UKRAINIAN") {
            return Some(Language::Ukrainian);
        }
        if eq_uppercase(text, "URDU") {
            return Some(Language::Urdu);
        }
        if eq_uppercase(text, "VIETNAMESE") {
            return Some(Language::Vietnamese);
        }
        if eq_uppercase(text, "WELSH") {
            return Some(Language::Welsh);
        }
        if eq_uppercase(text, "YORUBA") {
            return Some(Language::Yoruba);
        }
        if eq_uppercase(text, "ZULU") {
            return Some(Language::Zulu);
        }
        None
    }

    /// Parses the case-insensitive textual name of a language back into
    /// its tag: the text is canonicalized to upper case before the
    /// comparison. Text that names no cataloged language is reported as
    /// unrecognized, never defaulted.
    pub fn parse(text: &str) -> (r: Result<Language, LanguageParseError>)
        ensures
            match r {
                Ok(l) => spec_ascii_uppercase(text@) == spec_uppercase_name(l),
                Err(LanguageParseError::UnrecognizedLanguage(t)) => {
                    &&& t@ == text@
                    &&& forall|l: Language| spec_ascii_uppercase(text@) != spec_uppercase_name(l)
                },
            },
            forall|l: Language| spec_ascii_uppercase(text@) == spec_uppercase_name(l)
                ==> r == Ok::<Language, LanguageParseError>(l),
    {
        match Self::find_by_uppercase_name(text) {
            Some(l) => {
                proof {
                    assert forall|x: Language| spec_ascii_uppercase(text@) == spec_uppercase_name(x)
                        implies x == l by {
                        if x != l {
                            crate::laws::lemma_uppercase_name_injective(x, l);
                        }
                    }
                }
                Ok(l)
            }
            None => Err(LanguageParseError::UnrecognizedLanguage(text.to_owned())),
        }
    }
}

} // verus!
