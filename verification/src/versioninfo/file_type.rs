//! The type of a file and, for drivers and fonts, its subtype.

use crate::digits::{decimal, decimal_string};
use vstd::prelude::*;

verus! {

/// The kind of a driver.
#[derive(Clone, Copy, Debug, PartialEq, Eq, Structural)]
pub enum SubTypeDriver {
    /// The kind of driver is not known.
    Unknown,
    /// A printer driver.
    Printer,
    /// A keyboard driver.
    Keyboard,
    /// A language driver.
    Language,
    /// A display driver.
    Display,
    /// A mouse driver.
    Mouse,
    /// A network driver.
    Network,
    /// A system driver.
    System,
    /// An installable driver.
    Installable,
    /// A sound driver.
    Sound,
    /// A communications driver.
    Comm,
    /// An input method driver.
    InputMethod,
    /// A versioned printer driver.
    VersionedPrinter,
    /// A kind that has no symbol, by its number.
    Custom(u32),
}

impl SubTypeDriver {
    /// How the kind of driver is written in a script: the symbol of a well-known
    /// value, or the caller's number in decimal.
    pub open spec fn text(self) -> Seq<char> {
        match self {
            SubTypeDriver::Unknown => "VFT2_UNKNOWN"@,
            SubTypeDriver::Printer => "VFT2_DRV_PRINTER"@,
            SubTypeDriver::Keyboard => "VFT2_DRV_KEYBOARD"@,
            SubTypeDriver::Language => "VFT2_DRV_LANGUAGE"@,
            SubTypeDriver::Display => "VFT2_DRV_DISPLAY"@,
            SubTypeDriver::Mouse => "VFT2_DRV_MOUSE"@,
            SubTypeDriver::Network => "VFT2_DRV_NETWORK"@,
            SubTypeDriver::System => "VFT2_DRV_SYSTEM"@,
            SubTypeDriver::Installable => "VFT2_DRV_INSTALLABLE"@,
            SubTypeDriver::Sound => "VFT2_DRV_SOUND"@,
            SubTypeDriver::Comm => "VFT2_DRV_COMM"@,
            SubTypeDriver::InputMethod => "VFT2_DRV_INPUTMETHOD"@,
            SubTypeDriver::VersionedPrinter => "VFT2_DRV_VERSIONED_PRINTER"@,
            SubTypeDriver::Custom(i) => decimal(i as nat),
        }
    }

    /// The text that stands for the kind of driver in a script.
    pub fn get_value(&self) -> (r: String)
        ensures
            r@ == self.text(),
    {
        match self {
            SubTypeDriver::Unknown => "VFT2_UNKNOWN".to_owned(),
            SubTypeDriver::Printer => "VFT2_DRV_PRINTER".to_owned(),
            SubTypeDriver::Keyboard => "VFT2_DRV_KEYBOARD".to_owned(),
            SubTypeDriver::Language => "VFT2_DRV_LANGUAGE".to_owned(),
            SubTypeDriver::Display => "VFT2_DRV_DISPLAY".to_owned(),
            SubTypeDriver::Mouse => "VFT2_DRV_MOUSE".to_owned(),
            SubTypeDriver::Network => "VFT2_DRV_NETWORK".to_owned(),
            SubTypeDriver::System => "VFT2_DRV_SYSTEM".to_owned(),
            SubTypeDriver::Installable => "VFT2_DRV_INSTALLABLE".to_owned(),
            SubTypeDriver::Sound => "VFT2_DRV_SOUND".to_owned(),
            SubTypeDriver::Comm => "VFT2_DRV_COMM".to_owned(),
            SubTypeDriver::InputMethod => "VFT2_DRV_INPUTMETHOD".to_owned(),
            SubTypeDriver::VersionedPrinter => "VFT2_DRV_VERSIONED_PRINTER".to_owned(),
            SubTypeDriver::Custom(i) => decimal_string(*i),
        }
    }

    /// Writes the kind of driver as the script has it.
    pub fn to_string(&self) -> (r: String)
        ensures
            r@ == self.text(),
    {
        self.get_value()
    }
}

/// The kind of a font.
#[derive(Clone, Copy, Debug, PartialEq, Eq, Structural)]
pub enum SubTypeFont {
    /// A raster font.
    RasterFont,
    /// A vector font.
    VectorFont,
    /// A TrueType font.
    TrueTypeFont,
    /// A kind that has no symbol, by its number.
    Custom(u32),
}

impl SubTypeFont {
    /// How the kind of font is written in a script: the symbol of a well-known
    /// value, or the caller's number in decimal.
    pub open spec fn text(self) -> Seq<char> {
        match self {
            SubTypeFont::RasterFont => "VFT2_FONT_RASTER"@,
            SubTypeFont::VectorFont => "VFT2_FONT_VECTOR"@,
            SubTypeFont::TrueTypeFont => "VFT2_FONT_TRUETYPE"@,
            SubTypeFont::Custom(i) => decimal(i as nat),
        }
    }

    /// The text that stands for the kind of font in a script.
    pub fn get_value(&self) -> (r: String)
        ensures
            r@ == self.text(),
    {
        match self {
            SubTypeFont::RasterFont => "VFT2_FONT_RASTER".to_owned(),
            SubTypeFont::VectorFont => "VFT2_FONT_VECTOR".to_owned(),
            SubTypeFont::TrueTypeFont => "VFT2_FONT_TRUETYPE".to_owned(),
            SubTypeFont::Custom(i) => decimal_string(*i),
        }
    }

    /// Writes the kind of font as the script has it.
    pub fn to_string(&self) -> (r: String)
        ensures
            r@ == self.text(),
    {
        self.get_value()
    }
}

/// The type of the file. A driver and a font carry their kind; a type
/// without a symbol carries its number and the number of its subtype.
#[derive(Clone, Copy, Debug, PartialEq, Eq, Structural)]
pub enum FileType {
    /// The type is not known.
    Unknown,
    /// An application.
    App,
    /// A dynamic-link library.
    Dll,
    /// A device driver of the given kind.
    Driver(SubTypeDriver),
    /// A font of the given kind.
    Font(SubTypeFont),
    /// A virtual device.
    VXD,
    /// A static-link library.
    StaticLibrary,
    /// A type that has no symbol: its number, then the number of its subtype.
    Custom(u32, u32),
}

impl FileType {
    /// How the type is written in a script: the symbol of a well-known
    /// type, or the caller's number in decimal.
    pub open spec fn text(self) -> Seq<char> {
        match self {
            FileType::Unknown => "VFT_UNKNOWN"@,
            FileType::App => "VFT_APP"@,
            FileType::Dll => "VFT_DLL"@,
            FileType::Driver(_) => "VFT_DRV"@,
            FileType::Font(_) => "VFT_FONT"@,
            FileType::VXD => "VFT_VXD"@,
            FileType::StaticLibrary => "VFT_STATIC_LIB"@,
            FileType::Custom(i, _) => decimal(i as nat),
        }
    }

    /// How the subtype is written in a script: the kind of a driver or of
    /// a font, the second number of a type without a symbol, and `0` for
    /// every other type.
    pub open spec fn subtype_text(self) -> Seq<char> {
        match self {
            FileType::Driver(kind) => kind.text(),
            FileType::Font(kind) => kind.text(),
            FileType::Custom(_, i) => decimal(i as nat),
            _ => "0"@,
        }
    }

    /// The text that stands for the type in a script.
    pub fn get_value(&self) -> (r: String)
        ensures
            r@ == self.text(),
    {
        match self {
            FileType::Unknown => "VFT_UNKNOWN".to_owned(),
            FileType::App => "VFT_APP".to_owned(),
            FileType::Dll => "VFT_DLL".to_owned(),
            FileType::Driver(_) => "VFT_DRV".to_owned(),
            FileType::Font(_) => "VFT_FONT".to_owned(),
            FileType::VXD => "VFT_VXD".to_owned(),
            FileType::StaticLibrary => "VFT_STATIC_LIB".to_owned(),
            FileType::Custom(i, _) => decimal_string(*i),
        }
    }

    /// The text that stands for the subtype in a script.
    pub fn get_subvalue(&self) -> (r: String)
        ensures
            r@ == self.subtype_text(),
    {
        match self {
            FileType::Driver(kind) => kind.get_value(),
            FileType::Font(kind) => kind.get_value(),
            FileType::Custom(_, i) => decimal_string(*i),
            _ => "0".to_owned(),
        }
    }

    /// Writes the type as the script has it; the subtype is not part of it.
    pub fn to_string(&self) -> (r: String)
        ensures
            r@ == self.text(),
    {
        self.get_value()
    }
}

} // verus!
