//! Acquisition, installation and supervision of the geckodriver executable.

pub mod archive;
pub mod capabilities;
pub mod error;
pub mod install;
pub mod json;
pub mod platform;
pub mod process;
pub mod release;
pub mod text;
pub mod unpack;

pub use archive::{read_entries, unpack_plan};
pub use capabilities::{Args, Capabilities};
pub use error::Error;
pub use install::{InstallAction, InstallEvent, Installer};
pub use platform::{ArchiveFormat, HostFamily, Platform};
pub use process::{launch_command, LaunchCommand, Lifecycle, Signal};
pub use release::{find_download_url, Assets, Releases};
pub use unpack::{plan_entries, plan_entry, FsAction, ZipEntry};
