//! The platforms a launcher is built for, and which of them a scenario needs.
use vstd::prelude::*;

verus! {

/// An operating system and CPU architecture pair.
#[derive(Clone, Copy, Debug, PartialEq, Eq, Structural)]
pub enum Platform {
    LinuxAarch64,
    LinuxX86_64,
    MacOSAarch64,
    MacOSX86_64,
    WindowsX86_64,
}

/// The platforms a scenario can run on.
#[derive(Clone, Copy, Debug, PartialEq, Eq, Structural)]
pub enum Requirement {
    /// Every platform.
    Any,
    /// Where wheels for the newer interpreter were released: Linux x86_64
    /// and both macOS architectures.
    ModernWheels,
    /// Where wheels for the older interpreter were released: Linux and macOS
    /// on x86_64.
    LegacyWheels,
    /// Linux on x86_64 alone.
    LinuxX86_64Only,
}

pub open spec fn applies_spec(req: Requirement, p: Platform) -> bool {
    match req {
        Requirement::Any => true,
        Requirement::ModernWheels => p == Platform::LinuxX86_64 || p == Platform::MacOSAarch64
            || p == Platform::MacOSX86_64,
        Requirement::LegacyWheels => p == Platform::LinuxX86_64 || p == Platform::MacOSX86_64,
        Requirement::LinuxX86_64Only => p == Platform::LinuxX86_64,
    }
}

impl Requirement {
    /// Whether a scenario with this requirement runs on `p`.
    pub fn applies(&self, p: Platform) -> (r: bool)
        ensures
            r == applies_spec(*self, p),
    {
        match self {
            Requirement::Any => true,
            Requirement::ModernWheels => match p {
                Platform::LinuxX86_64 | Platform::MacOSAarch64 | Platform::MacOSX86_64 => true,
                _ => false,
            },
            Requirement::LegacyWheels => match p {
                Platform::LinuxX86_64 | Platform::MacOSX86_64 => true,
                _ => false,
            },
            Requirement::LinuxX86_64Only => match p {
                Platform::LinuxX86_64 => true,
                _ => false,
            },
        }
    }
}

/// The platform named by an operating system and architecture as Rust names
/// them (`linux`, `macos`, `windows`; `aarch64`, `x86_64`).
pub open spec fn platform_of(os: Seq<char>, arch: Seq<char>) -> Option<Platform> {
    if os == "linux"@ && arch == "aarch64"@ {
        Some(Platform::LinuxAarch64)
    } else if os == "linux"@ && arch == "x86_64"@ {
        Some(Platform::LinuxX86_64)
    } else if os == "macos"@ && arch == "aarch64"@ {
        Some(Platform::MacOSAarch64)
    } else if os == "macos"@ && arch == "x86_64"@ {
        Some(Platform::MacOSX86_64)
    } else if os == "windows"@ && arch == "x86_64"@ {
        Some(Platform::WindowsX86_64)
    } else {
        None
    }
}

impl Platform {
    /// Identifies the platform from an operating system and architecture
    /// name; `None` for a pair no launcher is built for.
    pub fn from_os_arch(os: &str, arch: &str) -> (r: Option<Platform>)
        ensures
            r == platform_of(os@, arch@),
    {
        let os = String::from_str(os);
        let arch = String::from_str(arch);
        let linux = String::from_str("linux");
        let macos = String::from_str("macos");
        let windows = String::from_str("windows");
        let aarch64 = String::from_str("aarch64");
        let x86_64 = String::from_str("x86_64");
        if os == linux && arch == aarch64 {
            Some(Platform::LinuxAarch64)
        } else if os == linux && arch == x86_64 {
            Some(Platform::LinuxX86_64)
        } else if os == macos && arch == aarch64 {
            Some(Platform::MacOSAarch64)
        } else if os == macos && arch == x86_64 {
            Some(Platform::MacOSX86_64)
        } else if os == windows && arch == x86_64 {
            Some(Platform::WindowsX86_64)
        } else {
            None
        }
    }
}

} // verus!
