use vstd::prelude::*;
use vstd::string::*;

use crate::text::str_eq;

verus! {

/// The operating systems the launcher runs on.
#[derive(Debug, PartialEq, Eq, Structural, Clone, Copy)]
pub enum OS {
    Linux,
    Windows,
    Mac,
}

/// The CPU architectures the launcher runs on.
#[derive(Debug, PartialEq, Eq, Structural, Clone, Copy)]
pub enum Arch {
    ARM64,
    X64,
}

/// Which operating system a `std::env::consts::OS` name stands for.
pub open spec fn os_for_name(name: Seq<char>) -> Option<OS> {
    if name == "linux"@ {
        Some(OS::Linux)
    } else if name == "windows"@ {
        Some(OS::Windows)
    } else if name == "macos"@ {
        Some(OS::Mac)
    } else {
        None
    }
}

/// Which architecture a `std::env::consts::ARCH` name stands for.
pub open spec fn arch_for_name(name: Seq<char>) -> Option<Arch> {
    if name == "aarch64"@ {
        Some(Arch::ARM64)
    } else if name == "x86_64"@ {
        Some(Arch::X64)
    } else {
        None
    }
}

/// The operating system name is not one the launcher supports.
#[derive(Debug)]
pub struct OSNotSupportedError {
    pub os: &'static str,
}

/// The architecture name is not one the launcher supports.
#[derive(Debug)]
pub struct ArchNotSupportedError {
    pub arch: &'static str,
}

pub fn get_os_enum(os: &'static str) -> (res: Result<OS, OSNotSupportedError>)
    ensures
        match os_for_name(os@) {
            Some(o) => res == Ok::<OS, OSNotSupportedError>(o),
            None => res is Err && res->Err_0.os == os,
        },
{
    if str_eq(os, "linux") {
        Ok(OS::Linux)
    } else if str_eq(os, "windows") {
        Ok(OS::Windows)
    } else if str_eq(os, "macos") {
        Ok(OS::Mac)
    } else {
        Err(OSNotSupportedError { os })
    }
}


pub fn get_arch_enum(arch: &'static str) -> (res: Result<Arch, ArchNotSupportedError>)
    ensures
        match arch_for_name(arch@) {
            Some(a) => res == Ok::<Arch, ArchNotSupportedError>(a),
            None => res is Err && res->Err_0.arch == arch,
        },
{
    if str_eq(arch, "aarch64") {
        Ok(Arch::ARM64)
    } else if str_eq(arch, "x86_64") {
        Ok(Arch::X64)
    } else {
        Err(ArchNotSupportedError { arch })
    }
}

/// The operating system and architecture the launcher runs on.
#[derive(Debug, PartialEq, Eq, Structural, Clone, Copy)]
pub struct HostSystem {
    pub os: OS,
    pub arch: Arch,
}

/// Why the host system is not supported; the operating system is checked first.
#[derive(Debug)]
pub enum HostSystemError {
    Os(OSNotSupportedError),
    Arch(ArchNotSupportedError),
}

impl OSNotSupportedError {
    /// The human-readable description of this error.
    pub fn message(&self) -> (s: String)
        ensures
            s@ == "OS not supported: "@ + self.os@,
    {
        let s = String::from_str("OS not supported: ");
        s.concat(self.os)
    }
}

impl ArchNotSupportedError {
    /// The human-readable description of this error.
    pub fn message(&self) -> (s: String)
        ensures
            s@ == "Architecture not supported: "@ + self.arch@,
    {
        let s = String::from_str("Architecture not supported: ");
        s.concat(self.arch)
    }
}

impl HostSystemError {
    /// The human-readable description of this error, wrapping the inner one.
    pub fn message(&self) -> (s: String)
        ensures
            match self {
                HostSystemError::Os(e) => s@ == "OS not supported: "@ + ("OS not supported: "@ + e.os@),
                HostSystemError::Arch(e) => s@ == "Architecture not supported: "@ + (
                "Architecture not supported: "@ + e.arch@),
            },
    {
        match self {
            HostSystemError::Os(e) => {
                let inner = e.message();
                String::from_str("OS not supported: ").concat(inner.as_str())
            },
            HostSystemError::Arch(e) => {
                let inner = e.message();
                String::from_str("Architecture not supported: ").concat(inner.as_str())
            },
        }
    }
}

impl HostSystem {
    /// Parses the host's operating system and architecture names.
    pub fn current(os: &'static str, arch: &'static str) -> (res: Result<HostSystem, HostSystemError>)
        ensures
            match (os_for_name(os@), arch_for_name(arch@)) {
                (None, _) => res is Err && res->Err_0 is Os && res->Err_0->Os_0.os == os,
                (Some(_), None) => res is Err && res->Err_0 is Arch && res->Err_0->Arch_0.arch
                    == arch,
                (Some(o), Some(a)) => res is Ok && res->Ok_0 == (HostSystem { os: o, arch: a }),
            },
    {
        let o = match get_os_enum(os) {
            Ok(o) => o,
            Err(e) => return Err(HostSystemError::Os(e)),
        };
        let a = match get_arch_enum(arch) {
            Ok(a) => a,
            Err(e) => return Err(HostSystemError::Arch(e)),
        };
        Ok(HostSystem { os: o, arch: a })
    }
}

/// The game variants the launcher manages.
#[derive(Debug, PartialEq, Eq, Structural, Clone, Copy)]
pub enum GameVariant {
    DarkDaysAhead,
    BrightNights,
    TheLastGeneration,
}

/// The GitHub repository ("owner/name") that publishes each variant's releases.
pub open spec fn github_repo_of(variant: GameVariant) -> Seq<char> {
    match variant {
        GameVariant::DarkDaysAhead => "CleverRaven/Cataclysm-DDA"@,
        GameVariant::BrightNights => "cataclysmbnteam/Cataclysm-BN"@,
        GameVariant::TheLastGeneration => "Cataclysm-TLG/Cataclysm-TLG"@,
    }
}

/// Returns the GitHub repository string for a given game variant.
pub fn get_github_repo_for_variant(variant: &GameVariant) -> (repo: &'static str)
    ensures
        repo@ == github_repo_of(*variant),
{
    match variant {
        GameVariant::DarkDaysAhead => "CleverRaven/Cataclysm-DDA",
        GameVariant::BrightNights => "cataclysmbnteam/Cataclysm-BN",
        GameVariant::TheLastGeneration => "Cataclysm-TLG/Cataclysm-TLG",
    }
}

} // verus!
