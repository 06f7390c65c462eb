//! The operating system a file was made for.

use crate::digits::{decimal, decimal_string};
use vstd::prelude::*;

verus! {

/// The operating system the file was made for.
#[derive(Clone, Copy, Debug, PartialEq, Eq, Structural)]
pub enum FileOS {
    /// The system the file was made for is not known.
    Unknown,
    /// MS-DOS.
    Dos,
    /// 16-bit OS/2.
    OS216Bit,
    /// 32-bit OS/2.
    OS232Bit,
    /// Windows NT.
    NT,
    /// Windows CE.
    WinCE,
    /// No windowing system.
    Base,
    /// 16-bit Windows.
    Windows16,
    /// 16-bit Presentation Manager.
    PM16,
    /// 32-bit Presentation Manager.
    PM32,
    /// 32-bit Windows.
    Windows32,
    /// 16-bit Windows on MS-DOS.
    DosWindows16,
    /// 32-bit Windows on MS-DOS.
    DosWindows32,
    /// 16-bit Presentation Manager on 16-bit OS/2.
    OS216BitPM16,
    /// 32-bit Presentation Manager on 32-bit OS/2.
    OS232BitPM32,
    /// 32-bit Windows on Windows NT.
    NTWindows32,
    /// A system that has no symbol, by its number.
    Custom(u32),
}

impl FileOS {
    /// How the system is written in a script: the symbol of a well-known
    /// value, or the caller's number in decimal.
    pub open spec fn text(self) -> Seq<char> {
        match self {
            FileOS::Unknown => "VOS_UNKNOWN"@,
            FileOS::Dos => "VOS_DOS"@,
            FileOS::OS216Bit => "VOS_OS216"@,
            FileOS::OS232Bit => "VOS_OS232"@,
            FileOS::NT => "VOS_NT"@,
            FileOS::WinCE => "VOS_WINCE"@,
            FileOS::Base => "VOS__BASE"@,
            FileOS::Windows16 => "VOS__WINDOWS16"@,
            FileOS::PM16 => "VOS__PM16"@,
            FileOS::PM32 => "VOS__PM32"@,
            FileOS::Windows32 => "VOS__WINDOWS32"@,
            FileOS::DosWindows16 => "VOS_DOS_WINDOWS16"@,
            FileOS::DosWindows32 => "VOS_DOS_WINDOWS32"@,
            FileOS::OS216BitPM16 => "VOS_OS216_PM16"@,
            FileOS::OS232BitPM32 => "VOS_OS232_PM32"@,
            FileOS::NTWindows32 => "VOS_NT_WINDOWS32"@,
            FileOS::Custom(i) => decimal(i as nat),
        }
    }

    /// The text that stands for the system in a script.
    pub fn get_value(&self) -> (r: String)
        ensures
            r@ == self.text(),
    {
        match self {
            FileOS::Unknown => "VOS_UNKNOWN".to_owned(),
            FileOS::Dos => "VOS_DOS".to_owned(),
            FileOS::OS216Bit => "VOS_OS216".to_owned(),
            FileOS::OS232Bit => "VOS_OS232".to_owned(),
            FileOS::NT => "VOS_NT".to_owned(),
            FileOS::WinCE => "VOS_WINCE".to_owned(),
            FileOS::Base => "VOS__BASE".to_owned(),
            FileOS::Windows16 => "VOS__WINDOWS16".to_owned(),
            FileOS::PM16 => "VOS__PM16".to_owned(),
            FileOS::PM32 => "VOS__PM32".to_owned(),
            FileOS::Windows32 => "VOS__WINDOWS32".to_owned(),
            FileOS::DosWindows16 => "VOS_DOS_WINDOWS16".to_owned(),
            FileOS::DosWindows32 => "VOS_DOS_WINDOWS32".to_owned(),
            FileOS::OS216BitPM16 => "VOS_OS216_PM16".to_owned(),
            FileOS::OS232BitPM32 => "VOS_OS232_PM32".to_owned(),
            FileOS::NTWindows32 => "VOS_NT_WINDOWS32".to_owned(),
            FileOS::Custom(i) => decimal_string(*i),
        }
    }

    /// Writes the system as the script has it.
    pub fn to_string(&self) -> (r: String)
        ensures
            r@ == self.text(),
    {
        self.get_value()
    }
}

} // verus!
