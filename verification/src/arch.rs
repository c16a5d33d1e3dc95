//! The instruction set architectures that a trace can come from.

use vstd::prelude::*;
use vstd::string::StringExecFns;

verus! {

/// A supported architecture.
#[derive(Clone, Copy, Debug, PartialEq, Eq, Structural)]
pub enum Arch {
    ARM64,
    X86_64,
}

/// The architecture that an object file reader reports.
#[derive(Clone, Copy, Debug, PartialEq, Eq, Structural)]
pub enum Architecture {
    Aarch64,
    X86_64,
    Other,
}

/// Why no architecture could be chosen.
#[derive(Clone, Copy, Debug, PartialEq, Eq, Structural)]
pub enum ArchError {
    /// The ELF header names a machine that is not supported.
    UnknownMachine(u16),
    /// The object file is for an architecture that is not supported.
    UnknownArchitecture,
}

/// The ELF machine number of AArch64.
pub const EM_AARCH64: u16 = 0xB7;

/// The ELF machine number of x86-64.
pub const EM_X86_64: u16 = 0x3E;

impl Arch {
    /// The architecture of an ELF machine number.
    pub fn from_elf(machine: u16) -> (r: Result<Self, ArchError>)
        ensures
            r == (if machine == EM_AARCH64 {
                Ok::<Arch, ArchError>(Arch::ARM64)
            } else if machine == EM_X86_64 {
                Ok(Arch::X86_64)
            } else {
                Err(ArchError::UnknownMachine(machine))
            }),
    {
        if machine == EM_AARCH64 {
            Ok(Arch::ARM64)
        } else if machine == EM_X86_64 {
            Ok(Arch::X86_64)
        } else {
            Err(ArchError::UnknownMachine(machine))
        }
    }

    /// The supported architecture behind what an object file reader found.
    pub open spec fn from_object_spec(architecture: Architecture) -> Option<Arch> {
        match architecture {
            Architecture::Aarch64 => Some(Arch::ARM64),
            Architecture::X86_64 => Some(Arch::X86_64),
            Architecture::Other => None,
        }
    }

    /// The architecture that an object file reader found.
    pub fn from_object(architecture: Architecture) -> (r: Result<Self, ArchError>)
        ensures
            r == (match Self::from_object_spec(architecture) {
                Some(arch) => Ok::<Arch, ArchError>(arch),
                None => Err(ArchError::UnknownArchitecture),
            }),
    {
        match architecture {
            Architecture::Aarch64 => Ok(Arch::ARM64),
            Architecture::X86_64 => Ok(Arch::X86_64),
            Architecture::Other => Err(ArchError::UnknownArchitecture),
        }
    }

    /// The architecture that a name stands for, if it is one of the known names.
    pub open spec fn named(value: Seq<char>) -> Option<Arch> {
        if value == "arm64"@ || value == "arm"@ || value == "aarch64"@ {
            Some(Arch::ARM64)
        } else if value == "x86_64"@ || value == "amd64"@ || value == "amd"@ || value == "x64"@ {
            Some(Arch::X86_64)
        } else {
            None
        }
    }

    /// The architecture that a name from the command line stands for.
    pub fn from_arg_value(value: &str) -> (r: Result<Self, String>)
        ensures
            match Self::named(value@) {
                Some(arch) => r == Ok::<Arch, String>(arch),
                None => r matches Err(text) && text@ == "Unknown arch: "@ + value@,
            },
    {
        if crate::text::str_eq(value, "arm64") || crate::text::str_eq(value, "arm")
            || crate::text::str_eq(value, "aarch64") {
            Ok(Arch::ARM64)
        } else if crate::text::str_eq(value, "x86_64") || crate::text::str_eq(value, "amd64")
            || crate::text::str_eq(value, "amd") || crate::text::str_eq(value, "x64") {
            Ok(Arch::X86_64)
        } else {
            Err(String::from_str("Unknown arch: ").concat(value))
        }
    }

    /// The name of the user-mode emulator for this architecture.
    pub open spec fn qemu_user_bin_name(self) -> Seq<char> {
        match self {
            Arch::ARM64 => "qemu-aarch64"@,
            Arch::X86_64 => "qemu-x86_64"@,
        }
    }

    /// The name of the user-mode emulator for this architecture.
    pub fn qemu_user_bin(&self) -> (name: &'static str)
        ensures
            name@ == self.qemu_user_bin_name(),
    {
        match self {
            Arch::ARM64 => "qemu-aarch64",
            Arch::X86_64 => "qemu-x86_64",
        }
    }

    /// The root file system that the Qiling tracer uses for this architecture.
    pub open spec fn qiling_rootfs_name(self) -> Seq<char> {
        match self {
            Arch::ARM64 => "rootfs/arm64_linux"@,
            Arch::X86_64 => "rootfs/x8664_linux"@,
        }
    }

    /// The root file system that the Qiling tracer uses for this architecture.
    pub fn qiling_rootfs(&self) -> (name: &'static str)
        ensures
            name@ == self.qiling_rootfs_name(),
    {
        match self {
            Arch::ARM64 => "rootfs/arm64_linux",
            Arch::X86_64 => "rootfs/x8664_linux",
        }
    }

    /// The platform name by which a container runtime knows this architecture.
    pub open spec fn docker_platform_name(self) -> Seq<char> {
        match self {
            Arch::ARM64 => "linux/arm64"@,
            Arch::X86_64 => "linux/amd64"@,
        }
    }

    /// The platform name by which a container runtime knows this architecture.
    pub fn docker_platform(&self) -> (name: &'static str)
        ensures
            name@ == self.docker_platform_name(),
    {
        match self {
            Arch::ARM64 => "linux/arm64",
            Arch::X86_64 => "linux/amd64",
        }
    }

    /// The short name of this architecture, as used in image tags.
    pub open spec fn architecture_name(self) -> Seq<char> {
        match self {
            Arch::ARM64 => "arm64"@,
            Arch::X86_64 => "amd64"@,
        }
    }

    /// The short name of this architecture, as used in image tags.
    pub fn architecture_str(&self) -> (name: &'static str)
        ensures
            name@ == self.architecture_name(),
    {
        match self {
            Arch::ARM64 => "arm64",
            Arch::X86_64 => "amd64",
        }
    }
}

} // verus!
