//! Identity facts about the running machine and its user, normalised from
//! the raw values that the operating system hands out: the real name, the
//! login name, the device name, the host name, the distribution label, the
//! desktop session and the platform family.
//!
//! The functions here compute; reading the password database, the host name
//! buffer, configuration files and the environment is left to the caller,
//! which hands the raw values in.
use vstd::prelude::*;

pub mod config;
pub mod desktop;
pub mod humanize;
pub mod identity;
pub mod plist;
pub mod text;

pub use config::{devicename, distro};
pub use desktop::{desktop_env, platform, DesktopEnv, Platform};
pub use humanize::{fancy_fallback, fancy_fallback_os};
pub use identity::{
    devicename_os, hostname, hostname_os, name_from_record, realname, realname_os, username,
};
pub use plist::distro_xml;
pub use text::string_from_os;

verus! {

} // verus!
