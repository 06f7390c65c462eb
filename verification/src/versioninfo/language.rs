//! The languages a block of strings can be written in.

use crate::digits::is_upper_hex_digit;
use vstd::prelude::*;

verus! {

/// The language of a block of strings. The set is closed: a resource
/// compiler knows these identifiers and no others.
#[derive(Clone, Copy, Debug, PartialEq, Eq, Structural)]
pub enum Language {
    Arabic,
    Polish,
    Bulgarian,
    PortugueseBrazil,
    Catalan,
    RhaetoRomanic,
    TraditionalChinese,
    Romanian,
    Czech,
    Russian,
    Danish,
    CroatoSerbianLatin,
    German,
    Slovak,
    Greek,
    Albanian,
    USEnglish,
    Swedish,
    CastilianSpanish,
    Thai,
    Finnish,
    Turkish,
    French,
    Urdu,
    Hebrew,
    Bahasa,
    Hungarian,
    SimplifiedChinese,
    Icelandic,
    SwissGerman,
    Italian,
    UKEnglish,
    Japanese,
    SpanishMexico,
    Korean,
    BelgianFrench,
    Dutch,
    CanadianFrench,
    NorwegianBokmal,
    SwissFrench,
    SwissItalian,
    PortuguesePortugal,
    BelgianDutch,
    SerboCyrillicCroatian,
    NorwegianNynorsk,
}

impl Language {
    /// The code of the language as the script writes it: three or four
    /// hexadecimal digits, letters in upper case. Most codes have four
    /// digits; `NorwegianBokmal`, `SwissItalian` and `BelgianDutch` are
    /// written with three.
    pub open spec fn code(self) -> Seq<char> {
        match self {
            Language::Arabic => "0401"@,
            Language::Polish => "0415"@,
            Language::Bulgarian => "0402"@,
            Language::PortugueseBrazil => "0416"@,
            Language::Catalan => "0403"@,
            Language::RhaetoRomanic => "0417"@,
            Language::TraditionalChinese => "0404"@,
            Language::Romanian => "0418"@,
            Language::Czech => "0405"@,
            Language::Russian => "0419"@,
            Language::Danish => "0406"@,
            Language::CroatoSerbianLatin => "041A"@,
            Language::German => "0407"@,
            Language::Slovak => "041B"@,
            Language::Greek => "0408"@,
            Language::Albanian => "041C"@,
            Language::USEnglish => "0409"@,
            Language::Swedish => "041D"@,
            Language::CastilianSpanish => "040A"@,
            Language::Thai => "041E"@,
            Language::Finnish => "040B"@,
            Language::Turkish => "041F"@,
            Language::French => "040C"@,
            Language::Urdu => "0420"@,
            Language::Hebrew => "040D"@,
            Language::Bahasa => "0421"@,
            Language::Hungarian => "040E"@,
            Language::SimplifiedChinese => "0804"@,
            Language::Icelandic => "040F"@,
            Language::SwissGerman => "0807"@,
            Language::Italian => "0410"@,
            Language::UKEnglish => "0809"@,
            Language::Japanese => "0411"@,
            Language::SpanishMexico => "080A"@,
            Language::Korean => "0412"@,
            Language::BelgianFrench => "080C"@,
            Language::Dutch => "0413"@,
            Language::CanadianFrench => "0C0C"@,
            Language::NorwegianBokmal => "041"@,
            Language::SwissFrench => "100C"@,
            Language::SwissItalian => "810"@,
            Language::PortuguesePortugal => "0816"@,
            Language::BelgianDutch => "813"@,
            Language::SerboCyrillicCroatian => "081A"@,
            Language::NorwegianNynorsk => "0814"@,
        }
    }

    /// The code of the language in hexadecimal digits.
    pub fn to_hex(&self) -> (r: &'static str)
        ensures
            r@ == self.code(),
    {
        match self {
            Language::Arabic => "0401",
            Language::Polish => "0415",
            Language::Bulgarian => "0402",
            Language::PortugueseBrazil => "0416",
            Language::Catalan => "0403",
            Language::RhaetoRomanic => "0417",
            Language::TraditionalChinese => "0404",
            Language::Romanian => "0418",
            Language::Czech => "0405",
            Language::Russian => "0419",
            Language::Danish => "0406",
            Language::CroatoSerbianLatin => "041A",
            Language::German => "0407",
            Language::Slovak => "041B",
            Language::Greek => "0408",
            Language::Albanian => "041C",
            Language::USEnglish => "0409",
            Language::Swedish => "041D",
            Language::CastilianSpanish => "040A",
            Language::Thai => "041E",
            Language::Finnish => "040B",
            Language::Turkish => "041F",
            Language::French => "040C",
            Language::Urdu => "0420",
            Language::Hebrew => "040D",
            Language::Bahasa => "0421",
            Language::Hungarian => "040E",
            Language::SimplifiedChinese => "0804",
            Language::Icelandic => "040F",
            Language::SwissGerman => "0807",
            Language::Italian => "0410",
            Language::UKEnglish => "0809",
            Language::Japanese => "0411",
            Language::SpanishMexico => "080A",
            Language::Korean => "0412",
            Language::BelgianFrench => "080C",
            Language::Dutch => "0413",
            Language::CanadianFrench => "0C0C",
            Language::NorwegianBokmal => "041",
            Language::SwissFrench => "100C",
            Language::SwissItalian => "810",
            Language::PortuguesePortugal => "0816",
            Language::BelgianDutch => "813",
            Language::SerboCyrillicCroatian => "081A",
            Language::NorwegianNynorsk => "0814",
        }
    }
}

/// Every language has a code of three or four hexadecimal digits, letters
/// in upper case, and no two languages have the same code.
pub proof fn lemma_language_codes(a: Language, b: Language)
    ensures
        3 <= a.code().len() <= 4,
        forall|i: int| 0 <= i < a.code().len() ==> is_upper_hex_digit(#[trigger] a.code()[i]),
        a.code() == b.code() ==> a == b,
{
    reveal_strlit("0401");
    reveal_strlit("0415");
    reveal_strlit("0402");
    reveal_strlit("0416");
    reveal_strlit("0403");
    reveal_strlit("0417");
    reveal_strlit("0404");
    reveal_strlit("0418");
    reveal_strlit("0405");
    reveal_strlit("0419");
    reveal_strlit("0406");
    reveal_strlit("041A");
    reveal_strlit("0407");
    reveal_strlit("041B");
    reveal_strlit("0408");
    reveal_strlit("041C");
    reveal_strlit("0409");
    reveal_strlit("041D");
    reveal_strlit("040A");
    reveal_strlit("041E");
    reveal_strlit("040B");
    reveal_strlit("041F");
    reveal_strlit("040C");
    reveal_strlit("0420");
    reveal_strlit("040D");
    reveal_strlit("0421");
    reveal_strlit("040E");
    reveal_strlit("0804");
    reveal_strlit("040F");
    reveal_strlit("0807");
    reveal_strlit("0410");
    reveal_strlit("0809");
    reveal_strlit("0411");
    reveal_strlit("080A");
    reveal_strlit("0412");
    reveal_strlit("080C");
    reveal_strlit("0413");
    reveal_strlit("0C0C");
    reveal_strlit("041");
    reveal_strlit("100C");
    reveal_strlit("810");
    reveal_strlit("0816");
    reveal_strlit("813");
    reveal_strlit("081A");
    reveal_strlit("0814");
    if a.code() == b.code() {
        assert(a.code().len() == b.code().len());
        assert(a.code()[0] == b.code()[0]);
        assert(a.code()[1] == b.code()[1]);
        assert(a.code()[2] == b.code()[2]);
        if a.code().len() == 4 {
            assert(a.code()[3] == b.code()[3]);
        }
    }
}

} // verus!
