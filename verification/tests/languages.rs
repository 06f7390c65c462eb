use windows_exe_info::versioninfo::{CharacterSet, Language};

#[test]
fn language_codes() {
    let cases = [
        (Language::Arabic, "0401"),
        (Language::Polish, "0415"),
        (Language::Bulgarian, "0402"),
        (Language::PortugueseBrazil, "0416"),
        (Language::Catalan, "0403"),
        (Language::RhaetoRomanic, "0417"),
        (Language::TraditionalChinese, "0404"),
        (Language::Romanian, "0418"),
        (Language::Czech, "0405"),
        (Language::Russian, "0419"),
        (Language::Danish, "0406"),
        (Language::CroatoSerbianLatin, "041A"),
        (Language::German, "0407"),
        (Language::Slovak, "041B"),
        (Language::Greek, "0408"),
        (Language::Albanian, "041C"),
        (Language::USEnglish, "0409"),
        (Language::Swedish, "041D"),
        (Language::CastilianSpanish, "040A"),
        (Language::Thai, "041E"),
        (Language::Finnish, "040B"),
        (Language::Turkish, "041F"),
        (Language::French, "040C"),
        (Language::Urdu, "0420"),
        (Language::Hebrew, "040D"),
        (Language::Bahasa, "0421"),
        (Language::Hungarian, "040E"),
        (Language::SimplifiedChinese, "0804"),
        (Language::Icelandic, "040F"),
        (Language::SwissGerman, "0807"),
        (Language::Italian, "0410"),
        (Language::UKEnglish, "0809"),
        (Language::Japanese, "0411"),
        (Language::SpanishMexico, "080A"),
        (Language::Korean, "0412"),
        (Language::BelgianFrench, "080C"),
        (Language::Dutch, "0413"),
        (Language::CanadianFrench, "0C0C"),
        (Language::NorwegianBokmal, "041"),
        (Language::SwissFrench, "100C"),
        (Language::SwissItalian, "810"),
        (Language::PortuguesePortugal, "0816"),
        (Language::BelgianDutch, "813"),
        (Language::SerboCyrillicCroatian, "081A"),
        (Language::NorwegianNynorsk, "0814"),
    ];
    assert_eq!(cases.len(), 45);
    for (language, code) in cases {
        assert_eq!(language.to_hex(), code);
        // the same variant gives the same code again, whatever was asked before
        assert_eq!(language.to_hex(), language.to_hex());
    }
    for (i, (_, a)) in cases.iter().enumerate() {
        assert!(a.len() == 3 || a.len() == 4);
        assert!(a.chars().all(|c| c.is_ascii_digit() || ('A'..='F').contains(&c)));
        for (_, b) in cases.iter().skip(i + 1) {
            assert_ne!(a, b);
        }
    }
}

#[test]
fn character_set_codes() {
    let cases = [
        (CharacterSet::ASCII7bit, "0000", "0"),
        (CharacterSet::JapanShiftJISX0208, "03A4", "932"),
        (CharacterSet::KoreaShiftKSC5601, "03B5", "949"),
        (CharacterSet::TaiwanBig5, "03B6", "950"),
        (CharacterSet::Unicode, "04B0", "1200"),
        (CharacterSet::Latin2EasternEuropean, "04E2", "1250"),
        (CharacterSet::Cyrillic, "04E3", "1251"),
        (CharacterSet::Multilingual, "04E4", "1252"),
        (CharacterSet::Greek, "04E5", "1253"),
        (CharacterSet::Turkish, "04E6", "1254"),
        (CharacterSet::Hebrew, "04E7", "1255"),
        (CharacterSet::Arabic, "04E8", "1256"),
    ];
    for (charset, hex, decimal) in cases {
        assert_eq!(charset.to_hex(), hex);
        assert_eq!(charset.to_decimal(), decimal);
        // both write the same code page
        assert_eq!(u32::from_str_radix(charset.to_hex(), 16).unwrap().to_string(), decimal);
        assert_eq!(format!("{:04X}", decimal.parse::<u32>().unwrap()), hex);
    }
}
