//! The version-information resource: its fields and the script that states them.

pub mod cargo_env;
pub mod charset;
pub mod file_info;
pub mod file_os;
pub mod file_type;
pub mod flags;
pub mod language;
pub mod rcstring;
pub mod script;
pub mod version;

pub use crate::guard::{link_cargo_env, AlreadyLinkedError, LinkError, LinkGuard};
pub use cargo_env::{CargoEnv, CargoEnvView};
pub use charset::CharacterSet;
pub use file_info::{FileInfo, FileInfoView};
pub use file_os::FileOS;
pub use file_type::{FileType, SubTypeDriver, SubTypeFont};
pub use flags::{FileFlagMask, FileFlags};
pub use language::Language;
pub use rcstring::RCString;
pub use script::{VersionInfo, VersionInfoView};
pub use version::Version;
