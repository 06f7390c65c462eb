//! The character sets a block of strings can be written in.

use crate::digits::{decimal, hex4};
use vstd::prelude::*;

verus! {

/// The character set of a block of strings, one of twelve code pages.
#[derive(Clone, Copy, Debug, PartialEq, Eq, Structural)]
pub enum CharacterSet {
    /// 7-bit ASCII.
    ASCII7bit,
    /// Japan, Shift JIS X-0208.
    JapanShiftJISX0208,
    /// Korea, Shift KSC 5601.
    KoreaShiftKSC5601,
    /// Taiwan, Big5.
    TaiwanBig5,
    /// Unicode.
    Unicode,
    /// Latin-2, Eastern European.
    Latin2EasternEuropean,
    /// Cyrillic.
    Cyrillic,
    /// Multilingual.
    Multilingual,
    /// Greek.
    Greek,
    /// Turkish.
    Turkish,
    /// Hebrew.
    Hebrew,
    /// Arabic.
    Arabic,
}

impl CharacterSet {
    /// The number of the code page.
    pub open spec fn code_page(self) -> nat {
        match self {
            CharacterSet::ASCII7bit => 0,
            CharacterSet::JapanShiftJISX0208 => 932,
            CharacterSet::KoreaShiftKSC5601 => 949,
            CharacterSet::TaiwanBig5 => 950,
            CharacterSet::Unicode => 1200,
            CharacterSet::Latin2EasternEuropean => 1250,
            CharacterSet::Cyrillic => 1251,
            CharacterSet::Multilingual => 1252,
            CharacterSet::Greek => 1253,
            CharacterSet::Turkish => 1254,
            CharacterSet::Hebrew => 1255,
            CharacterSet::Arabic => 1256,
        }
    }

    /// The code page in four hexadecimal digits, as the key of a block of
    /// strings has it.
    pub open spec fn hex(self) -> Seq<char> {
        hex4(self.code_page())
    }

    /// The code page in decimal, as the translation table has it.
    pub open spec fn dec(self) -> Seq<char> {
        decimal(self.code_page())
    }

    /// The code page in four hexadecimal digits.
    pub fn to_hex(&self) -> (r: &'static str)
        ensures
            r@ == self.hex(),
    {
        proof {
            reveal_strlit("0000");
            reveal_strlit("03A4");
            reveal_strlit("03B5");
            reveal_strlit("03B6");
            reveal_strlit("04B0");
            reveal_strlit("04E2");
            reveal_strlit("04E3");
            reveal_strlit("04E4");
            reveal_strlit("04E5");
            reveal_strlit("04E6");
            reveal_strlit("04E7");
            reveal_strlit("04E8");
        }
        let r = match self {
            CharacterSet::ASCII7bit => "0000",
            CharacterSet::JapanShiftJISX0208 => "03A4",
            CharacterSet::KoreaShiftKSC5601 => "03B5",
            CharacterSet::TaiwanBig5 => "03B6",
            CharacterSet::Unicode => "04B0",
            CharacterSet::Latin2EasternEuropean => "04E2",
            CharacterSet::Cyrillic => "04E3",
            CharacterSet::Multilingual => "04E4",
            CharacterSet::Greek => "04E5",
            CharacterSet::Turkish => "04E6",
            CharacterSet::Hebrew => "04E7",
            CharacterSet::Arabic => "04E8",
        };
        assert(r@ =~= self.hex());
        r
    }

    /// The code page in decimal.
    pub fn to_decimal(&self) -> (r: &'static str)
        ensures
            r@ == self.dec(),
    {
        proof {
            reveal_with_fuel(decimal, 4);
            reveal_strlit("0");
            reveal_strlit("932");
            reveal_strlit("949");
            reveal_strlit("950");
            reveal_strlit("1200");
            reveal_strlit("1250");
            reveal_strlit("1251");
            reveal_strlit("1252");
            reveal_strlit("1253");
            reveal_strlit("1254");
            reveal_strlit("1255");
            reveal_strlit("1256");
        }
        let r = match self {
            CharacterSet::ASCII7bit => "0",
            CharacterSet::JapanShiftJISX0208 => "932",
            CharacterSet::KoreaShiftKSC5601 => "949",
            CharacterSet::TaiwanBig5 => "950",
            CharacterSet::Unicode => "1200",
            CharacterSet::Latin2EasternEuropean => "1250",
            CharacterSet::Cyrillic => "1251",
            CharacterSet::Multilingual => "1252",
            CharacterSet::Greek => "1253",
            CharacterSet::Turkish => "1254",
            CharacterSet::Hebrew => "1255",
            CharacterSet::Arabic => "1256",
        };
        assert(r@ =~= self.dec());
        r
    }
}

} // verus!
