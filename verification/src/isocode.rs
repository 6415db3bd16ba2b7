use vstd::prelude::*;

verus! {

/// Standardized two-letter language identifiers (ISO 639-1).
#[derive(Clone, Copy, Debug, PartialEq, Eq, Hash, Structural)]
pub enum IsoCode639_1 {
    AF,
    AR,
    AZ,
    BE,
    BG,
    BN,
    BS,
    CA,
    CS,
    CY,
    DA,
    DE,
    EL,
    EN,
    EO,
    ES,
    ET,
    EU,
    FA,
    FI,
    FR,
    GA,
    GU,
    HE,
    HI,
    HR,
    HU,
    HY,
    ID,
    IS,
    IT,
    JA,
    KA,
    KK,
    KO,
    LA,
    LT,
    LV,
    MK,
    MN,
    MR,
    MS,
    NL,
    NO,
    PA,
    PL,
    PT,
    RO,
    RU,
    SK,
    SL,
    SO,
    SQ,
    SR,
    SV,
    SW,
    TA,
    TE,
    TH,
    TL,
    TR,
    UK,
    UR,
    VI,
    YO,
    ZH,
    ZU,
}

/// Standardized three-letter language identifiers (ISO 639-3).
#[derive(Clone, Copy, Debug, PartialEq, Eq, Hash, Structural)]
pub enum IsoCode639_3 {
    AFR,
    ARA,
    AZE,
    BEL,
    BEN,
    BOS,
    BUL,
    CAT,
    CES,
    CYM,
    DAN,
    DEU,
    ELL,
    ENG,
    EPO,
    EST,
    EUS,
    FAS,
    FIN,
    FRA,
    GLE,
    GUJ,
    HEB,
    HIN,
    HRV,
    HUN,
    HYE,
    IND,
    ISL,
    ITA,
    JPN,
    KAT,
    KAZ,
    KOR,
    LAT,
    LAV,
    LIT,
    MAR,
    MKD,
    MON,
    MSA,
    NLD,
    NOR,
    PAN,
    POL,
    POR,
    RON,
    RUS,
    SLK,
    SLV,
    SOM,
    SPA,
    SQI,
    SRP,
    SWA,
    SWE,
    TAM,
    TEL,
    TGL,
    THA,
    TUR,
    UKR,
    URD,
    VIE,
    YOR,
    ZHO,
    ZUL,
}

} // verus!
