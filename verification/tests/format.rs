use windows_exe_info::guard::{LinkError, LinkGuard};
use windows_exe_info::versioninfo::{
    CharacterSet, FileFlagMask, FileFlags, FileInfo, FileOS, FileType, Language, RCString,
    SubTypeDriver, SubTypeFont, Version, VersionInfo,
};

const FORMATTED_VERSIONINFO: &str = r#"// This resource script was autogenerated
// Do not change manually!!!
#include<winver.h>
VS_VERSION_INFO VERSIONINFO
FILEVERSION     0, 1, 2, 3
PRODUCTVERSION  4, 5, 6, 7
FILEFLAGSMASK   VS_FFI_FILEFLAGSMASK
FILEFLAGS       VS_FF_SPECIALBUILD
FILEOS          VOS_NT
FILETYPE        VFT_APP
FILESUBTYPE     0
BEGIN
 BLOCK "StringFileInfo"
 BEGIN
  BLOCK "040904E4"
  BEGIN
   VALUE "CompanyName", "TEST\0"
   VALUE "FileDescription", "NONE\0"
   VALUE "FileVersion", "1.2.3.4RC5\0"
   VALUE "InternalName", "6.7.8.9RC0\0"
   VALUE "OriginalFilename", "test1234\0"
   VALUE "ProductName", "TestingApplication\0"
   VALUE "ProductVersion", "To be decided\0"
   VALUE "SpecialBuild", "Made for testing, who would have guessed\0"
  END
 END

 BLOCK "VarFileInfo"
 BEGIN
  VALUE "Translation", 0x0409, 1252
 END
END
"#;

fn no_flags() -> FileFlags {
    FileFlags {
        debug: false,
        patched: false,
        prerelease: false,
        privatebuild: false,
        infoinferred: false,
        specialbuild: false,
    }
}

fn sample_strings() -> FileInfo {
    FileInfo {
        lang: Language::USEnglish,
        charset: CharacterSet::Multilingual,
        comment: None,
        company_name: "TEST".into(),
        file_description: "NONE".into(),
        file_version: "1.2.3.4RC5".into(),
        internal_name: "6.7.8.9RC0".into(),
        legal_copyright: None,
        legal_trademarks: None,
        original_filename: "test1234".into(),
        product_name: "TestingApplication".into(),
        product_version: "To be decided".into(),
        private_build: None,
        special_build: Some("Made for testing, who would have guessed".into()),
    }
}

fn sample() -> VersionInfo {
    VersionInfo {
        file_version: Version(0, 1, 2, 3),
        product_version: Version(4, 5, 6, 7),
        file_flag_mask: FileFlagMask::Win16,
        file_flags: FileFlags { specialbuild: true, ..no_flags() },
        file_os: FileOS::NT,
        file_type: FileType::App,
        file_info: vec![sample_strings()],
    }
}

#[test]
fn format_version_info() {
    let rc = sample();
    // check formatting
    assert_eq!(rc.to_string(), FORMATTED_VERSIONINFO);

    // check double linking prevention
    let mut guard = LinkGuard::new();
    assert!(!guard.is_linked());
    let mut written = String::new();
    rc.link(&mut guard, |script| {
        written = script;
        Ok::<(), String>(())
    })
    .unwrap();
    assert_eq!(written, FORMATTED_VERSIONINFO);
    assert!(guard.is_linked());
    assert!(rc.link(&mut guard, |_| Ok::<(), String>(())).is_err());
}

#[test]
fn formatting_twice_gives_the_same_text() {
    let rc = sample();
    let first = rc.to_string();
    let second = rc.to_string();
    assert_eq!(first, second);
    assert_eq!(first.as_bytes(), second.as_bytes());
    assert_eq!(sample().to_string(), first);
}

#[test]
fn empty_string_list_gives_a_bare_root_block() {
    let rc = VersionInfo { file_info: vec![], ..sample() };
    let expected = "// This resource script was autogenerated\n\
// Do not change manually!!!\n\
#include<winver.h>\n\
VS_VERSION_INFO VERSIONINFO\n\
FILEVERSION     0, 1, 2, 3\n\
PRODUCTVERSION  4, 5, 6, 7\n\
FILEFLAGSMASK   VS_FFI_FILEFLAGSMASK\n\
FILEFLAGS       VS_FF_SPECIALBUILD\n\
FILEOS          VOS_NT\n\
FILETYPE        VFT_APP\n\
FILESUBTYPE     0\n\
BEGIN\n\
END\n";
    let text = rc.to_string();
    assert_eq!(text, expected);
    assert!(!text.contains("StringFileInfo"));
    assert!(!text.contains("VarFileInfo"));
    assert!(!text.contains("Translation"));
    assert_eq!(text.lines().filter(|l| l.trim() == "BEGIN").count(), 1);
    assert_eq!(text.lines().filter(|l| l.trim() == "END").count(), 1);
}

#[test]
fn blocks_and_translations_keep_the_order_of_the_list() {
    let german = FileInfo {
        lang: Language::German,
        charset: CharacterSet::Unicode,
        comment: Some("Hinweis".into()),
        legal_copyright: Some("(c) 2024".into()),
        legal_trademarks: Some("TM".into()),
        private_build: Some("privat".into()),
        special_build: None,
        ..sample_strings()
    };
    let rc = VersionInfo { file_info: vec![sample_strings(), german], ..sample() };
    let text = rc.to_string();
    let english_at = text.find("  BLOCK \"040904E4\"\n").unwrap();
    let german_at = text.find("  BLOCK \"040704B0\"\n").unwrap();
    assert!(english_at < german_at);
    assert!(text.contains("  VALUE \"Translation\", 0x0409, 1252, 0x0407, 1200\n"));
    let block = &text[german_at..];
    let expected_block = "  BLOCK \"040704B0\"\n\
\x20 BEGIN\n\
\x20  VALUE \"CompanyName\", \"TEST\\0\"\n\
\x20  VALUE \"FileDescription\", \"NONE\\0\"\n\
\x20  VALUE \"FileVersion\", \"1.2.3.4RC5\\0\"\n\
\x20  VALUE \"InternalName\", \"6.7.8.9RC0\\0\"\n\
\x20  VALUE \"OriginalFilename\", \"test1234\\0\"\n\
\x20  VALUE \"ProductName\", \"TestingApplication\\0\"\n\
\x20  VALUE \"ProductVersion\", \"To be decided\\0\"\n\
\x20  VALUE \"Comments\", \"Hinweis\\0\"\n\
\x20  VALUE \"LegalCopyright\", \"(c) 2024\\0\"\n\
\x20  VALUE \"LegalTrademarks\", \"TM\\0\"\n\
\x20  VALUE \"PrivateBuild\", \"privat\\0\"\n\
\x20 END\n\
\x20END\n";
    assert!(block.starts_with(expected_block));
}

#[test]
fn optional_strings_have_a_line_only_where_set() {
    let names = ["Comments", "LegalCopyright", "LegalTrademarks", "PrivateBuild", "SpecialBuild"];
    for mask in 0u32..32 {
        let pick = |k: usize| -> Option<RCString> {
            if mask & (1 << k) != 0 {
                Some(RCString::new("x"))
            } else {
                None
            }
        };
        let strings = FileInfo {
            comment: pick(0),
            legal_copyright: pick(1),
            legal_trademarks: pick(2),
            private_build: pick(3),
            special_build: pick(4),
            ..sample_strings()
        };
        let mut block = String::new();
        strings.write_block(&mut block);
        for (k, name) in names.iter().enumerate() {
            let line = format!("   VALUE \"{}\", \"x\\0\"\n", name);
            let head = format!("   VALUE \"{}\", ", name);
            assert_eq!(block.contains(&line), mask & (1 << k) != 0);
            assert_eq!(block.contains(&head), mask & (1 << k) != 0);
        }
        assert_eq!(block.lines().count(), 3 + 7 + mask.count_ones() as usize);
    }
}

#[test]
fn required_strings_have_a_line_even_where_empty() {
    let strings = FileInfo {
        lang: Language::USEnglish,
        charset: CharacterSet::Multilingual,
        comment: None,
        company_name: RCString::default(),
        file_description: "".into(),
        file_version: String::new().into(),
        internal_name: "".into(),
        legal_copyright: None,
        legal_trademarks: None,
        original_filename: "".into(),
        product_name: "".into(),
        product_version: "".into(),
        private_build: None,
        special_build: None,
    };
    let mut block = String::new();
    strings.write_block(&mut block);
    let expected = "  BLOCK \"040904E4\"\n\
\x20 BEGIN\n\
\x20  VALUE \"CompanyName\", \"\\0\"\n\
\x20  VALUE \"FileDescription\", \"\\0\"\n\
\x20  VALUE \"FileVersion\", \"\\0\"\n\
\x20  VALUE \"InternalName\", \"\\0\"\n\
\x20  VALUE \"OriginalFilename\", \"\\0\"\n\
\x20  VALUE \"ProductName\", \"\\0\"\n\
\x20  VALUE \"ProductVersion\", \"\\0\"\n\
\x20 END\n";
    assert_eq!(block, expected);
}

#[test]
fn an_optional_string_set_to_the_empty_text_is_written() {
    let strings = FileInfo { comment: Some("".into()), special_build: None, ..sample_strings() };
    let mut block = String::new();
    strings.write_block(&mut block);
    assert!(block.contains("   VALUE \"Comments\", \"\\0\"\n"));
}

#[test]
fn write_block_and_write_translation_append() {
    let strings = sample_strings();
    let mut out = String::from("kept");
    strings.write_translation(&mut out);
    assert_eq!(out, "kept, 0x0409, 1252");
    let mut out = String::from("kept\n");
    strings.write_block(&mut out);
    assert!(out.starts_with("kept\n  BLOCK \"040904E4\"\n  BEGIN\n"));
    assert!(out.ends_with("  END\n"));
}

#[test]
fn rcstring_is_quoted_and_closed_by_a_nul_escape() {
    assert_eq!(RCString::new("TEST").to_string(), "\"TEST\\0\"");
    assert_eq!(RCString::new("").to_string(), "\"\\0\"");
    assert_eq!(RCString::default().to_string(), "\"\\0\"");
    assert_eq!(RCString::from(String::from("a b")).to_string(), "\"a b\\0\"");
    let from_str: RCString = "say \"hi\" \\".into();
    assert_eq!(from_str.to_string(), "\"say \"hi\" \\\\0\"");
    assert_eq!(from_str.as_str(), "say \"hi\" \\");
    assert_eq!(from_str.clone().as_str(), from_str.as_str());
}

#[test]
fn version_is_four_numbers_with_commas() {
    assert_eq!(Version(0, 1, 2, 3).to_string(), "0, 1, 2, 3");
    assert_eq!(Version(65535, 0, 10, 999).to_string(), "65535, 0, 10, 999");
}

#[test]
fn flag_mask_is_a_symbol_or_a_number() {
    assert_eq!(FileFlagMask::Win16.to_string(), "VS_FFI_FILEFLAGSMASK");
    assert_eq!(FileFlagMask::Custom(63).to_string(), "63");
    assert_eq!(FileFlagMask::Custom(0).to_string(), "0");
    assert_eq!(FileFlagMask::Custom(u32::MAX).to_string(), "4294967295");
}

#[test]
fn no_flag_set_is_written_as_zero() {
    assert_eq!(no_flags().to_string(), "0");
}

#[test]
fn all_flags_are_written_in_the_order_of_the_declaration() {
    let all = FileFlags {
        debug: true,
        patched: true,
        prerelease: true,
        privatebuild: true,
        infoinferred: true,
        specialbuild: true,
    };
    assert_eq!(
        all.to_string(),
        "VS_FF_DEBUG | VS_FF_PATCHED | VS_FF_PRERELEASE | VS_FF_PRIVATEBUILD | VS_FF_INFOINFERRED | VS_FF_SPECIALBUILD"
    );
}

#[test]
fn each_flag_has_its_own_token() {
    assert_eq!(FileFlags { debug: true, ..no_flags() }.to_string(), "VS_FF_DEBUG");
    assert_eq!(FileFlags { patched: true, ..no_flags() }.to_string(), "VS_FF_PATCHED");
    assert_eq!(FileFlags { prerelease: true, ..no_flags() }.to_string(), "VS_FF_PRERELEASE");
    assert_eq!(FileFlags { privatebuild: true, ..no_flags() }.to_string(), "VS_FF_PRIVATEBUILD");
    assert_eq!(FileFlags { infoinferred: true, ..no_flags() }.to_string(), "VS_FF_INFOINFERRED");
    assert_eq!(FileFlags { specialbuild: true, ..no_flags() }.to_string(), "VS_FF_SPECIALBUILD");
}

#[test]
fn every_combination_of_flags_keeps_the_order() {
    let tokens = [
        "VS_FF_DEBUG",
        "VS_FF_PATCHED",
        "VS_FF_PRERELEASE",
        "VS_FF_PRIVATEBUILD",
        "VS_FF_INFOINFERRED",
        "VS_FF_SPECIALBUILD",
    ];
    for mask in 0u32..64 {
        let flags = FileFlags {
            debug: mask & 1 != 0,
            patched: mask & 2 != 0,
            prerelease: mask & 4 != 0,
            privatebuild: mask & 8 != 0,
            infoinferred: mask & 16 != 0,
            specialbuild: mask & 32 != 0,
        };
        let set: Vec<&str> =
            (0..6).filter(|k| mask & (1 << k) != 0).map(|k| tokens[k as usize]).collect();
        let expected = if set.is_empty() { String::from("0") } else { set.join(" | ") };
        assert_eq!(flags.to_string(), expected);
    }
}

#[test]
fn file_os_symbols() {
    let cases = [
        (FileOS::Unknown, "VOS_UNKNOWN"),
        (FileOS::Dos, "VOS_DOS"),
        (FileOS::OS216Bit, "VOS_OS216"),
        (FileOS::OS232Bit, "VOS_OS232"),
        (FileOS::NT, "VOS_NT"),
        (FileOS::WinCE, "VOS_WINCE"),
        (FileOS::Base, "VOS__BASE"),
        (FileOS::Windows16, "VOS__WINDOWS16"),
        (FileOS::PM16, "VOS__PM16"),
        (FileOS::PM32, "VOS__PM32"),
        (FileOS::Windows32, "VOS__WINDOWS32"),
        (FileOS::DosWindows16, "VOS_DOS_WINDOWS16"),
        (FileOS::DosWindows32, "VOS_DOS_WINDOWS32"),
        (FileOS::OS216BitPM16, "VOS_OS216_PM16"),
        (FileOS::OS232BitPM32, "VOS_OS232_PM32"),
        (FileOS::NTWindows32, "VOS_NT_WINDOWS32"),
    ];
    for (os, text) in cases {
        assert_eq!(os.get_value(), text);
        assert_eq!(os.to_string(), text);
    }
    assert_eq!(FileOS::Custom(262148).get_value(), "262148");
    assert_eq!(FileOS::Custom(0).to_string(), "0");
}

#[test]
fn file_type_symbols_and_subtypes() {
    let cases = [
        (FileType::Unknown, "VFT_UNKNOWN", "0"),
        (FileType::App, "VFT_APP", "0"),
        (FileType::Dll, "VFT_DLL", "0"),
        (FileType::Driver(SubTypeDriver::Keyboard), "VFT_DRV", "VFT2_DRV_KEYBOARD"),
        (FileType::Driver(SubTypeDriver::Custom(77)), "VFT_DRV", "77"),
        (FileType::Font(SubTypeFont::TrueTypeFont), "VFT_FONT", "VFT2_FONT_TRUETYPE"),
        (FileType::Font(SubTypeFont::Custom(9)), "VFT_FONT", "9"),
        (FileType::VXD, "VFT_VXD", "0"),
        (FileType::StaticLibrary, "VFT_STATIC_LIB", "0"),
        (FileType::Custom(12, 34), "12", "34"),
    ];
    for (file_type, text, subtype) in cases {
        assert_eq!(file_type.get_value(), text);
        assert_eq!(file_type.to_string(), text);
        assert_eq!(file_type.get_subvalue(), subtype);
    }
}

#[test]
fn driver_and_font_kinds() {
    let drivers = [
        (SubTypeDriver::Unknown, "VFT2_UNKNOWN"),
        (SubTypeDriver::Printer, "VFT2_DRV_PRINTER"),
        (SubTypeDriver::Keyboard, "VFT2_DRV_KEYBOARD"),
        (SubTypeDriver::Language, "VFT2_DRV_LANGUAGE"),
        (SubTypeDriver::Display, "VFT2_DRV_DISPLAY"),
        (SubTypeDriver::Mouse, "VFT2_DRV_MOUSE"),
        (SubTypeDriver::Network, "VFT2_DRV_NETWORK"),
        (SubTypeDriver::System, "VFT2_DRV_SYSTEM"),
        (SubTypeDriver::Installable, "VFT2_DRV_INSTALLABLE"),
        (SubTypeDriver::Sound, "VFT2_DRV_SOUND"),
        (SubTypeDriver::Comm, "VFT2_DRV_COMM"),
        (SubTypeDriver::InputMethod, "VFT2_DRV_INPUTMETHOD"),
        (SubTypeDriver::VersionedPrinter, "VFT2_DRV_VERSIONED_PRINTER"),
        (SubTypeDriver::Custom(13), "13"),
    ];
    for (kind, text) in drivers {
        assert_eq!(kind.get_value(), text);
        assert_eq!(kind.to_string(), text);
    }
    let fonts = [
        (SubTypeFont::RasterFont, "VFT2_FONT_RASTER"),
        (SubTypeFont::VectorFont, "VFT2_FONT_VECTOR"),
        (SubTypeFont::TrueTypeFont, "VFT2_FONT_TRUETYPE"),
        (SubTypeFont::Custom(4), "4"),
    ];
    for (kind, text) in fonts {
        assert_eq!(kind.get_value(), text);
        assert_eq!(kind.to_string(), text);
    }
}

#[test]
fn the_subtype_line_follows_the_type() {
    let rc = VersionInfo {
        file_type: FileType::Driver(SubTypeDriver::Sound),
        file_info: vec![],
        ..sample()
    };
    let text = rc.to_string();
    assert!(text.contains("FILETYPE        VFT_DRV\nFILESUBTYPE     VFT2_DRV_SOUND\nBEGIN\n"));
    let rc = VersionInfo {
        file_type: FileType::Custom(8, 15),
        file_os: FileOS::Custom(3),
        file_flag_mask: FileFlagMask::Custom(63),
        file_flags: no_flags(),
        file_info: vec![],
        ..sample()
    };
    let text = rc.to_string();
    assert!(text.contains(
        "FILEFLAGSMASK   63\nFILEFLAGS       0\nFILEOS          3\nFILETYPE        8\nFILESUBTYPE     15\n"
    ));
}

#[test]
fn a_failed_sink_is_handed_on_and_leaves_the_guard_unset() {
    let rc = sample();
    let mut guard = LinkGuard::new();
    let r = rc.link(&mut guard, |_| Err::<(), String>(String::from("disk full")));
    match r {
        Err(LinkError::Sink(e)) => assert_eq!(e, "disk full"),
        _ => panic!("the failure of the sink was not handed on"),
    }
    assert!(!guard.is_linked());
    assert!(rc.link(&mut guard, |_| Ok::<(), String>(())).is_ok());
    assert!(guard.is_linked());
}
