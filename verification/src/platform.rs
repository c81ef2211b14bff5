//! The platforms for which the driver is published, and what each implies.

use vstd::prelude::*;

verus! {

/// An operating system and CPU architecture for which a driver build exists.
#[derive(Clone, Copy, Debug, PartialEq, Eq, Structural)]
pub enum Platform {
    /// 32-bit Linux.
    Linux32,
    /// 64-bit Linux.
    Linux64,
    /// macOS.
    MacOs,
    /// 32-bit Windows.
    Windows32,
    /// 64-bit Windows.
    Windows64,
}

/// The two archive formats in which the driver is published.
#[derive(Clone, Copy, Debug, PartialEq, Eq, Structural)]
pub enum ArchiveFormat {
    /// A gzip-compressed tarball.
    TarGz,
    /// A zip archive.
    Zip,
}

/// How the host names files and whether it keeps permission bits.
#[derive(Clone, Copy, Debug, PartialEq, Eq, Structural)]
pub enum HostFamily {
    /// POSIX path rules, with permission bits.
    Unix,
    /// Windows path rules, without permission bits.
    Windows,
}

impl Platform {
    /// The end of the file name under which the release feed publishes the
    /// build for this platform.
    pub open spec fn suffix(&self) -> Seq<char> {
        match self {
            Platform::Linux32 => "linux32.tar.gz"@,
            Platform::Linux64 => "linux64.tar.gz"@,
            Platform::MacOs => "macos.tar.gz"@,
            Platform::Windows32 => "win32.zip"@,
            Platform::Windows64 => "win64.zip"@,
        }
    }

    /// The host family that this platform belongs to.
    pub open spec fn spec_family(&self) -> HostFamily {
        match self {
            Platform::Windows32 | Platform::Windows64 => HostFamily::Windows,
            _ => HostFamily::Unix,
        }
    }

    /// The archive format of this platform's build: a tarball on the Unix
    /// family, a zip archive on Windows.
    pub open spec fn spec_archive_format(&self) -> ArchiveFormat {
        match self.spec_family() {
            HostFamily::Unix => ArchiveFormat::TarGz,
            HostFamily::Windows => ArchiveFormat::Zip,
        }
    }

    /// The lowercase suffix that selects this platform's asset.
    pub fn asset_suffix(&self) -> (s: &'static str)
        ensures
            s@ == self.suffix(),
    {
        match self {
            Platform::Linux32 => "linux32.tar.gz",
            Platform::Linux64 => "linux64.tar.gz",
            Platform::MacOs => "macos.tar.gz",
            Platform::Windows32 => "win32.zip",
            Platform::Windows64 => "win64.zip",
        }
    }

    /// The host family of this platform.
    #[verifier::when_used_as_spec(spec_family)]
    pub fn family(&self) -> (f: HostFamily)
        ensures
            f == self.spec_family(),
    {
        match self {
            Platform::Windows32 | Platform::Windows64 => HostFamily::Windows,
            _ => HostFamily::Unix,
        }
    }

    /// The format in which this platform's build is packed.
    #[verifier::when_used_as_spec(spec_archive_format)]
    pub fn archive_format(&self) -> (f: ArchiveFormat)
        ensures
            f == self.spec_archive_format(),
    {
        match self.family() {
            HostFamily::Unix => ArchiveFormat::TarGz,
            HostFamily::Windows => ArchiveFormat::Zip,
        }
    }
}

impl HostFamily {
    /// Whether files on this host carry POSIX permission bits.
    pub open spec fn spec_has_permission_bits(&self) -> bool {
        *self == HostFamily::Unix
    }

    /// Whether files on this host carry POSIX permission bits.
    #[verifier::when_used_as_spec(spec_has_permission_bits)]
    pub fn has_permission_bits(&self) -> (b: bool)
        ensures
            b == self.spec_has_permission_bits(),
    {
        match self {
            HostFamily::Unix => true,
            HostFamily::Windows => false,
        }
    }
}

} // verus!
