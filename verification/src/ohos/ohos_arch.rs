//! The architectures of OpenHarmony and the names each goes by: in the
//! package layout, for the C toolchain, for the Rust linker variable and
//! as a Rust target.

use vstd::prelude::*;
use vstd::string::*;
use crate::common::text::{lowercase, str_eq, to_lowercase};

verus! {

#[allow(non_camel_case_types)]
#[derive(Clone, Copy, Debug, PartialEq, Eq, Structural)]
pub enum OhosArch {
    ARM64,
    ARM32,
    X86_64,
}

/// All architectures, in the order in which they are offered.
pub open spec fn all_archs() -> Seq<OhosArch> {
    seq![OhosArch::ARM64, OhosArch::ARM32, OhosArch::X86_64]
}

/// The directory of an architecture inside a package.
pub open spec fn arch_name(arch: OhosArch) -> Seq<char> {
    match arch {
        OhosArch::ARM64 => "arm64-v8a"@,
        OhosArch::ARM32 => "armeabi-v7a"@,
        OhosArch::X86_64 => "x86_64"@,
    }
}

/// The target that the C compiler is given.
pub open spec fn c_target_name(arch: OhosArch) -> Seq<char> {
    match arch {
        OhosArch::ARM64 => "aarch64-linux-ohos"@,
        OhosArch::ARM32 => "arm-linux-ohos"@,
        OhosArch::X86_64 => "x86_64-linux-ohos"@,
    }
}

/// The Rust target as it appears in the name of the linker variable.
pub open spec fn rust_link_target_name(arch: OhosArch) -> Seq<char> {
    match arch {
        OhosArch::ARM64 => "AARCH64_UNKNOWN_LINUX_OHOS"@,
        OhosArch::ARM32 => "ARMV7_UNKNOWN_LINUX_OHOS"@,
        OhosArch::X86_64 => "X86_64_UNKNOWN_LINUX_OHOS"@,
    }
}

/// The Rust target triple.
pub open spec fn rust_target_name(arch: OhosArch) -> Seq<char> {
    match arch {
        OhosArch::ARM64 => "aarch64-unknown-linux-ohos"@,
        OhosArch::ARM32 => "armv7-unknown-linux-ohos"@,
        OhosArch::X86_64 => "x86_64-unknown-linux-ohos"@,
    }
}

/// The architecture that a name stands for, once the name was brought to
/// lower case. Each architecture answers to a short name, a second short
/// name, its C target, its Rust target and its linker name.
pub open spec fn arch_of_lowered(name: Seq<char>) -> Option<OhosArch> {
    if name == "aarch"@ || name == "arm64"@ || name == "aarch64-linux-ohos"@ || name
        == "aarch64-unknown-linux-ohos"@ || name == "AARCH64_UNKNOWN_LINUX_OHOS"@ {
        Some(OhosArch::ARM64)
    } else if name == "arm"@ || name == "arm32"@ || name == "arm-linux-ohos"@ || name
        == "armv7-unknown-linux-ohos"@ || name == "ARMV7_UNKNOWN_LINUX_OHOS"@ {
        Some(OhosArch::ARM32)
    } else if name == "x86_64"@ || name == "x64"@ || name == "x86_64-linux-ohos"@ || name
        == "x86_64-unknown-linux-ohos"@ || name == "X86_64_UNKNOWN_LINUX_OHOS"@ {
        Some(OhosArch::X86_64)
    } else {
        None
    }
}

/// What is said of a name that stands for no architecture.
pub open spec fn unsupported_message() -> Seq<char> {
    "Only supports aarch/arm64, arm/arm32, and x86_64/x64 architectures."@
}

impl OhosArch {
    pub fn all() -> (r: [Self; 3])
        ensures
            r@ == all_archs(),
    {
        let r = [Self::ARM64, Self::ARM32, Self::X86_64];
        assert(r@ =~= all_archs());
        r
    }

    pub fn to_arch(self) -> (r: &'static str)
        ensures
            r@ == arch_name(self),
    {
        match self {
            OhosArch::ARM64 => "arm64-v8a",
            OhosArch::ARM32 => "armeabi-v7a",
            OhosArch::X86_64 => "x86_64",
        }
    }

    pub fn c_target(self) -> (r: &'static str)
        ensures
            r@ == c_target_name(self),
    {
        match self {
            OhosArch::ARM64 => "aarch64-linux-ohos",
            OhosArch::ARM32 => "arm-linux-ohos",
            OhosArch::X86_64 => "x86_64-linux-ohos",
        }
    }

    pub fn rust_link_target(self) -> (r: &'static str)
        ensures
            r@ == rust_link_target_name(self),
    {
        match self {
            OhosArch::ARM64 => "AARCH64_UNKNOWN_LINUX_OHOS",
            OhosArch::ARM32 => "ARMV7_UNKNOWN_LINUX_OHOS",
            OhosArch::X86_64 => "X86_64_UNKNOWN_LINUX_OHOS",
        }
    }

    pub fn rust_target(self) -> (r: &'static str)
        ensures
            r@ == rust_target_name(self),
    {
        match self {
            OhosArch::ARM64 => "aarch64-unknown-linux-ohos",
            OhosArch::ARM32 => "armv7-unknown-linux-ohos",
            OhosArch::X86_64 => "x86_64-unknown-linux-ohos",
        }
    }

    /// Reads a name that is already in lower case.
    pub fn from_lowered(name: &str) -> (r: Result<OhosArch, String>)
        ensures
            match r {
                Ok(arch) => arch_of_lowered(name@) == Some(arch),
                Err(message) => arch_of_lowered(name@) is None && message@
                    == unsupported_message(),
            },
    {
        if str_eq(name, "aarch") || str_eq(name, "arm64") || str_eq(name, "aarch64-linux-ohos")
            || str_eq(name, "aarch64-unknown-linux-ohos") || str_eq(
            name,
            "AARCH64_UNKNOWN_LINUX_OHOS",
        ) {
            Ok(OhosArch::ARM64)
        } else if str_eq(name, "arm") || str_eq(name, "arm32") || str_eq(name, "arm-linux-ohos")
            || str_eq(name, "armv7-unknown-linux-ohos") || str_eq(
            name,
            "ARMV7_UNKNOWN_LINUX_OHOS",
        ) {
            Ok(OhosArch::ARM32)
        } else if str_eq(name, "x86_64") || str_eq(name, "x64") || str_eq(
            name,
            "x86_64-linux-ohos",
        ) || str_eq(name, "x86_64-unknown-linux-ohos") || str_eq(
            name,
            "X86_64_UNKNOWN_LINUX_OHOS",
        ) {
            Ok(OhosArch::X86_64)
        } else {
            Err(
                String::from_str(
                    "Only supports aarch/arm64, arm/arm32, and x86_64/x64 architectures.",
                ),
            )
        }
    }

    /// Reads the name of an architecture, in any mix of upper and lower case.
    pub fn from_str(s: &str) -> (r: Result<OhosArch, String>)
        ensures
            match r {
                Ok(arch) => arch_of_lowered(lowercase(s@)) == Some(arch),
                Err(message) => arch_of_lowered(lowercase(s@)) is None && message@
                    == unsupported_message(),
            },
    {
        let ret = to_lowercase(s);
        OhosArch::from_lowered(ret.as_str())
    }
}

} // verus!
