//! A resource made from what the build environment says of the package.

use crate::digits::{parse_u16, parsed_u16};
use crate::versioninfo::charset::CharacterSet;
use crate::versioninfo::file_info::{FileInfo, FileInfoView};
use crate::versioninfo::file_os::FileOS;
use crate::versioninfo::file_type::FileType;
use crate::versioninfo::flags::{FileFlagMask, FileFlags};
use crate::versioninfo::language::Language;
use crate::versioninfo::rcstring::RCString;
use crate::versioninfo::script::{VersionInfo, VersionInfoView};
use crate::versioninfo::version::Version;
use vstd::prelude::*;

verus! {

/// The variables of the build environment that describe the package, each
/// with its value where it is set and holds valid text.
#[derive(Debug)]
pub struct CargoEnv {
    /// `CARGO_PKG_VERSION_MAJOR`
    pub version_major: Option<String>,
    /// `CARGO_PKG_VERSION_MINOR`
    pub version_minor: Option<String>,
    /// `CARGO_PKG_VERSION_PATCH`
    pub version_patch: Option<String>,
    /// `CARGO_PKG_VERSION_PRE`
    pub version_pre: Option<String>,
    /// `CARGO_PKG_VERSION`
    pub version: Option<String>,
    /// `CARGO_PKG_NAME`
    pub name: Option<String>,
    /// `CARGO_PKG_DESCRIPTION`
    pub description: Option<String>,
    /// `PROFILE`
    pub profile: Option<String>,
}

/// What the variables hold, as plain text.
pub struct CargoEnvView {
    pub version_major: Option<Seq<char>>,
    pub version_minor: Option<Seq<char>>,
    pub version_patch: Option<Seq<char>>,
    pub version_pre: Option<Seq<char>>,
    pub version: Option<Seq<char>>,
    pub name: Option<Seq<char>>,
    pub description: Option<Seq<char>>,
    pub profile: Option<Seq<char>>,
}

/// The text of a variable, where it is set.
pub open spec fn value_of(variable: Option<String>) -> Option<Seq<char>> {
    match variable {
        Some(s) => Some(s@),
        None => None,
    }
}

/// The text of an argument, where it is given.
pub open spec fn given(argument: Option<&str>) -> Option<Seq<char>> {
    match argument {
        Some(s) => Some(s@),
        None => None,
    }
}

impl View for CargoEnv {
    type V = CargoEnvView;

    open spec fn view(&self) -> CargoEnvView {
        CargoEnvView {
            version_major: value_of(self.version_major),
            version_minor: value_of(self.version_minor),
            version_patch: value_of(self.version_patch),
            version_pre: value_of(self.version_pre),
            version: value_of(self.version),
            name: value_of(self.name),
            description: value_of(self.description),
            profile: value_of(self.profile),
        }
    }
}

/// The text, or the empty text where there is none.
pub open spec fn text_or_empty(text: Option<Seq<char>>) -> Seq<char> {
    match text {
        Some(t) => t,
        None => Seq::empty(),
    }
}

/// The number that the text writes, or zero where there is no text or the
/// text does not write a 16-bit number.
pub open spec fn number_or_zero(text: Option<Seq<char>>) -> u16 {
    match text {
        Some(t) => match parsed_u16(t) {
            Some(n) => n,
            None => 0,
        },
        None => 0,
    }
}

impl CargoEnvView {
    /// The version of the package: major, minor, patch and pre-release
    /// part, each zero where its variable gives no number.
    pub open spec fn package_version(self) -> Version {
        Version(
            number_or_zero(self.version_major),
            number_or_zero(self.version_minor),
            number_or_zero(self.version_patch),
            number_or_zero(self.version_pre),
        )
    }

    /// Whether the build is one for debugging: any profile but `release`.
    pub open spec fn debug_build(self) -> bool {
        text_or_empty(self.profile) != "release"@
    }

    /// The one block of strings of the package, in US English and the
    /// multilingual character set, with the strings that the caller adds.
    pub open spec fn strings(
        self,
        comment: Option<Seq<char>>,
        company_name: Option<Seq<char>>,
        legal_copyright: Option<Seq<char>>,
        legal_trademarks: Option<Seq<char>>,
    ) -> FileInfoView {
        FileInfoView {
            lang: Language::USEnglish,
            charset: CharacterSet::Multilingual,
            comment: comment,
            company_name: text_or_empty(company_name),
            file_description: text_or_empty(self.description),
            file_version: text_or_empty(self.version),
            internal_name: text_or_empty(self.name),
            legal_copyright: legal_copyright,
            legal_trademarks: legal_trademarks,
            original_filename: text_or_empty(self.name) + ".exe"@,
            product_name: text_or_empty(self.name),
            product_version: text_or_empty(self.version),
            private_build: None,
            special_build: None,
        }
    }

    /// The resource of the package: an application for 32-bit Windows,
    /// file and product at the version of the package, flagged as a debug
    /// build unless the profile is `release`, with one block of strings.
    pub open spec fn resource(
        self,
        comment: Option<Seq<char>>,
        company_name: Option<Seq<char>>,
        legal_copyright: Option<Seq<char>>,
        legal_trademarks: Option<Seq<char>>,
    ) -> VersionInfoView {
        VersionInfoView {
            file_version: self.package_version(),
            product_version: self.package_version(),
            file_flag_mask: FileFlagMask::Win16,
            file_flags: FileFlags {
                debug: self.debug_build(),
                patched: false,
                prerelease: false,
                privatebuild: false,
                infoinferred: false,
                specialbuild: false,
            },
            file_os: FileOS::Windows32,
            file_type: FileType::App,
            file_info: seq![
                self.strings(comment, company_name, legal_copyright, legal_trademarks),
            ],
        }
    }
}

/// Whether two texts are the same.
fn same_text(a: &str, b: &str) -> (r: bool)
    ensures
        r == (a@ == b@),
{
    a.to_owned() == b.to_owned()
}

/// The text of a variable, empty where the variable is not set.
fn or_empty(variable: &Option<String>) -> (r: &str)
    ensures
        r@ == text_or_empty(value_of(*variable)),
{
    match variable {
        Some(s) => s.as_str(),
        None => {
            proof {
                reveal_strlit("");
            }
            let r = "";
            assert(r@ =~= Seq::<char>::empty());
            r
        },
    }
}

/// The number a variable writes, zero where it writes none.
fn or_zero(variable: &Option<String>) -> (r: u16)
    ensures
        r == number_or_zero(value_of(*variable)),
{
    match variable {
        Some(s) => match parse_u16(s.as_str()) {
            Some(n) => n,
            None => 0,
        },
        None => 0,
    }
}

/// An optional string with the text of the argument, where one is given.
fn optional_string(argument: Option<&str>) -> (r: Option<RCString>)
    ensures
        crate::versioninfo::file_info::content(r) == given(argument),
{
    match argument {
        Some(s) => Some(RCString::new(s)),
        None => None,
    }
}

impl VersionInfo {
    /// The resource of the package that `env` describes, without a comment,
    /// a company name, a copyright or a trademark notice.
    pub fn from_cargo_env(env: &CargoEnv) -> (r: Self)
        ensures
            r@ == env@.resource(None, None, None, None),
    {
        Self::from_cargo_env_ex(env, None, None, None, None)
    }

    /// The resource of the package that `env` describes, with the comment,
    /// the company name, the copyright and the trademark notice given.
    pub fn from_cargo_env_ex(
        env: &CargoEnv,
        comment: Option<&str>,
        company_name: Option<&str>,
        legal_copyright: Option<&str>,
        legal_trademarks: Option<&str>,
    ) -> (r: Self)
        ensures
            r@ == env@.resource(
                given(comment),
                given(company_name),
                given(legal_copyright),
                given(legal_trademarks),
            ),
    {
        let version = Version(
            or_zero(&env.version_major),
            or_zero(&env.version_minor),
            or_zero(&env.version_patch),
            or_zero(&env.version_pre),
        );
        let name = or_empty(&env.name);
        let mut original_filename = name.to_owned();
        original_filename.append(".exe");
        let company = match company_name {
            Some(s) => RCString::new(s),
            None => RCString::default(),
        };
        let strings = FileInfo {
            lang: Language::USEnglish,
            charset: CharacterSet::Multilingual,
            comment: optional_string(comment),
            company_name: company,
            file_description: RCString::new(or_empty(&env.description)),
            file_version: RCString::new(or_empty(&env.version)),
            internal_name: RCString::new(name),
            legal_copyright: optional_string(legal_copyright),
            legal_trademarks: optional_string(legal_trademarks),
            original_filename: RCString::from(original_filename),
            product_name: RCString::new(name),
            product_version: RCString::new(or_empty(&env.version)),
            private_build: None,
            special_build: None,
        };
        let ghost expected = env@.strings(
            given(comment),
            given(company_name),
            given(legal_copyright),
            given(legal_trademarks),
        );
        assert(strings@ == expected);
        let r = VersionInfo {
            file_version: version,
            product_version: version,
            file_flag_mask: FileFlagMask::Win16,
            file_flags: FileFlags {
                debug: !same_text(or_empty(&env.profile), "release"),
                patched: false,
                prerelease: false,
                privatebuild: false,
                infoinferred: false,
                specialbuild: false,
            },
            file_os: FileOS::Windows32,
            file_type: FileType::App,
            file_info: vec![strings],
        };
        assert(r@.file_info =~= seq![expected]);
        r
    }
}

} // verus!
