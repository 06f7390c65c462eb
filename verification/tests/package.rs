use windows_exe_info::guard::{link_cargo_env, LinkError, LinkGuard};
use windows_exe_info::versioninfo::{
    CargoEnv, CharacterSet, FileFlagMask, FileOS, FileType, Language, Version, VersionInfo,
};

fn text(s: &str) -> Option<String> {
    Some(String::from(s))
}

fn env() -> CargoEnv {
    CargoEnv {
        version_major: text("1"),
        version_minor: text("22"),
        version_patch: text("333"),
        version_pre: text(""),
        version: text("1.22.333"),
        name: text("demo"),
        description: text("A demonstration"),
        profile: text("release"),
    }
}

#[test]
fn resource_of_a_package() {
    let rc = VersionInfo::from_cargo_env(&env());
    assert_eq!(rc.file_version, Version(1, 22, 333, 0));
    assert_eq!(rc.product_version, Version(1, 22, 333, 0));
    assert_eq!(rc.file_flag_mask, FileFlagMask::Win16);
    assert!(!rc.file_flags.debug);
    assert!(!rc.file_flags.patched);
    assert!(!rc.file_flags.prerelease);
    assert!(!rc.file_flags.privatebuild);
    assert!(!rc.file_flags.infoinferred);
    assert!(!rc.file_flags.specialbuild);
    assert_eq!(rc.file_os, FileOS::Windows32);
    assert_eq!(rc.file_type, FileType::App);
    assert_eq!(rc.file_info.len(), 1);
    let strings = &rc.file_info[0];
    assert_eq!(strings.lang, Language::USEnglish);
    assert_eq!(strings.charset, CharacterSet::Multilingual);
    assert!(strings.comment.is_none());
    assert_eq!(strings.company_name.as_str(), "");
    assert_eq!(strings.file_description.as_str(), "A demonstration");
    assert_eq!(strings.file_version.as_str(), "1.22.333");
    assert_eq!(strings.internal_name.as_str(), "demo");
    assert!(strings.legal_copyright.is_none());
    assert!(strings.legal_trademarks.is_none());
    assert_eq!(strings.original_filename.as_str(), "demo.exe");
    assert_eq!(strings.product_name.as_str(), "demo");
    assert_eq!(strings.product_version.as_str(), "1.22.333");
    assert!(strings.private_build.is_none());
    assert!(strings.special_build.is_none());
}

#[test]
fn resource_of_a_package_with_added_strings() {
    let rc = VersionInfo::from_cargo_env_ex(
        &env(),
        Some("a comment"),
        Some("ACME"),
        Some("(c) ACME"),
        Some("ACME(tm)"),
    );
    let strings = &rc.file_info[0];
    assert_eq!(strings.comment.as_ref().unwrap().as_str(), "a comment");
    assert_eq!(strings.company_name.as_str(), "ACME");
    assert_eq!(strings.legal_copyright.as_ref().unwrap().as_str(), "(c) ACME");
    assert_eq!(strings.legal_trademarks.as_ref().unwrap().as_str(), "ACME(tm)");
    assert!(strings.private_build.is_none());
    assert!(strings.special_build.is_none());
}

#[test]
fn unset_and_unreadable_variables() {
    let empty = CargoEnv {
        version_major: None,
        version_minor: text("x"),
        version_patch: text("70000"),
        version_pre: text("alpha.1"),
        version: None,
        name: None,
        description: None,
        profile: None,
    };
    let rc = VersionInfo::from_cargo_env(&empty);
    assert_eq!(rc.file_version, Version(0, 0, 0, 0));
    assert!(rc.file_flags.debug);
    let strings = &rc.file_info[0];
    assert_eq!(strings.file_description.as_str(), "");
    assert_eq!(strings.file_version.as_str(), "");
    assert_eq!(strings.internal_name.as_str(), "");
    assert_eq!(strings.original_filename.as_str(), ".exe");
    assert_eq!(strings.product_name.as_str(), "");
    assert_eq!(strings.product_version.as_str(), "");
}

#[test]
fn any_profile_but_release_is_a_debug_build() {
    for (profile, debug) in [
        (text("release"), false),
        (text("debug"), true),
        (text("Release"), true),
        (text("release "), true),
        (text(""), true),
        (None, true),
    ] {
        let rc = VersionInfo::from_cargo_env(&CargoEnv { profile, ..env() });
        assert_eq!(rc.file_flags.debug, debug);
    }
}

#[test]
fn a_numeric_pre_release_part_is_the_build_number() {
    let rc = VersionInfo::from_cargo_env(&CargoEnv { version_pre: text("4"), ..env() });
    assert_eq!(rc.file_version, Version(1, 22, 333, 4));
}

#[test]
fn script_of_a_package() {
    let rc = VersionInfo::from_cargo_env(&CargoEnv { profile: text("debug"), ..env() });
    let expected = "// This resource script was autogenerated\n\
// Do not change manually!!!\n\
#include<winver.h>\n\
VS_VERSION_INFO VERSIONINFO\n\
FILEVERSION     1, 22, 333, 0\n\
PRODUCTVERSION  1, 22, 333, 0\n\
FILEFLAGSMASK   VS_FFI_FILEFLAGSMASK\n\
FILEFLAGS       VS_FF_DEBUG\n\
FILEOS          VOS__WINDOWS32\n\
FILETYPE        VFT_APP\n\
FILESUBTYPE     0\n\
BEGIN\n\
\x20BLOCK \"StringFileInfo\"\n\
\x20BEGIN\n\
\x20 BLOCK \"040904E4\"\n\
\x20 BEGIN\n\
\x20  VALUE \"CompanyName\", \"\\0\"\n\
\x20  VALUE \"FileDescription\", \"A demonstration\\0\"\n\
\x20  VALUE \"FileVersion\", \"1.22.333\\0\"\n\
\x20  VALUE \"InternalName\", \"demo\\0\"\n\
\x20  VALUE \"OriginalFilename\", \"demo.exe\\0\"\n\
\x20  VALUE \"ProductName\", \"demo\\0\"\n\
\x20  VALUE \"ProductVersion\", \"1.22.333\\0\"\n\
\x20 END\n\
\x20END\n\
\n\
\x20BLOCK \"VarFileInfo\"\n\
\x20BEGIN\n\
\x20 VALUE \"Translation\", 0x0409, 1252\n\
\x20END\n\
END\n";
    assert_eq!(rc.to_string(), expected);
}

#[test]
fn linking_a_package() {
    let mut guard = LinkGuard::new();
    let mut written = String::new();
    let r = link_cargo_env(&env(), &mut guard, |script| {
        written = script;
        Ok::<(), String>(())
    });
    assert!(r.is_ok());
    assert!(guard.is_linked());
    assert_eq!(written, VersionInfo::from_cargo_env(&env()).to_string());
    let mut called = false;
    let r = link_cargo_env(&env(), &mut guard, |_| {
        called = true;
        Ok::<(), String>(())
    });
    assert!(matches!(r, Err(LinkError::AlreadyLinked(_))));
    assert!(!called);
}
