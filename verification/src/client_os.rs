//! The operating system of the running host, as one closed enumeration.

use vstd::prelude::*;

use os_info::Type as OsInfo;

use crate::text::str_eq;

verus! {

/// One well-known operating system, or `Unknown` where detection gave
/// nothing this crate recognises. Every value but `Linux`, `Macos`,
/// `Windows` and `Unknown` is a Linux distribution.
#[derive(Clone, Copy, Debug, PartialEq, Eq, Structural)]
pub enum Type {
    Alpine,
    Amazon,
    Arch,
    Centos,
    Debian,
    Fedora,
    Linux,
    Macos,
    Manjaro,
    OpenSUSE,
    OracleLinux,
    Pop,
    Redhat,
    RedHatEnterprise,
    Redox,
    Solus,
    SUSE,
    Ubuntu,
    Windows,
    Unknown,
}

/// `true` of every value that stands for Linux, either the family itself or
/// one of its distributions.
pub open spec fn is_linux_family(os: Type) -> bool {
    os != Type::Macos && os != Type::Windows && os != Type::Unknown
}

impl Type {
    /// Every value of the enumeration, in declaration order.
    pub fn all() -> (r: Vec<Type>)
        ensures
            r@ =~= seq![
                Type::Alpine,
                Type::Amazon,
                Type::Arch,
                Type::Centos,
                Type::Debian,
                Type::Fedora,
                Type::Linux,
                Type::Macos,
                Type::Manjaro,
                Type::OpenSUSE,
                Type::OracleLinux,
                Type::Pop,
                Type::Redhat,
                Type::RedHatEnterprise,
                Type::Redox,
                Type::Solus,
                Type::SUSE,
                Type::Ubuntu,
                Type::Windows,
                Type::Unknown,
            ],
    {
        let mut v: Vec<Type> = Vec::new();
        v.push(Type::Alpine);
        v.push(Type::Amazon);
        v.push(Type::Arch);
        v.push(Type::Centos);
        v.push(Type::Debian);
        v.push(Type::Fedora);
        v.push(Type::Linux);
        v.push(Type::Macos);
        v.push(Type::Manjaro);
        v.push(Type::OpenSUSE);
        v.push(Type::OracleLinux);
        v.push(Type::Pop);
        v.push(Type::Redhat);
        v.push(Type::RedHatEnterprise);
        v.push(Type::Redox);
        v.push(Type::Solus);
        v.push(Type::SUSE);
        v.push(Type::Ubuntu);
        v.push(Type::Windows);
        v.push(Type::Unknown);
        v
    }

    /// The operating system a lower-case name denotes, `Unknown` for any
    /// name not recognised.
    pub fn from_name(s: &str) -> (r: Type)
        ensures
            r == spec_from_name(s@),
    {
        if str_eq(s, "alpine") {
            Type::Alpine
        } else if str_eq(s, "amazon") {
            Type::Amazon
        } else if str_eq(s, "arch") {
            Type::Arch
        } else if str_eq(s, "centos") {
            Type::Centos
        } else if str_eq(s, "debian") {
            Type::Debian
        } else if str_eq(s, "fedora") {
            Type::Fedora
        } else if str_eq(s, "linux") {
            Type::Linux
        } else if str_eq(s, "macos") {
            Type::Macos
        } else if str_eq(s, "manjaro") {
            Type::Manjaro
        } else if str_eq(s, "opensuse") {
            Type::OpenSUSE
        } else if str_eq(s, "oraclelinux") {
            Type::OracleLinux
        } else if str_eq(s, "pop") {
            Type::Pop
        } else if str_eq(s, "redhat") {
            Type::Redhat
        } else if str_eq(s, "redhatenterprise") {
            Type::RedHatEnterprise
        } else if str_eq(s, "redox") {
            Type::Redox
        } else if str_eq(s, "solus") {
            Type::Solus
        } else if str_eq(s, "suse") {
            Type::SUSE
        } else if str_eq(s, "ubuntu") {
            Type::Ubuntu
        } else if str_eq(s, "windows") {
            Type::Windows
        } else {
            Type::Unknown
        }
    }
}

/// The operating system a lower-case name denotes.
pub open spec fn spec_from_name(s: Seq<char>) -> Type {
    if s == "alpine"@ {
        Type::Alpine
    } else if s == "amazon"@ {
        Type::Amazon
    } else if s == "arch"@ {
        Type::Arch
    } else if s == "centos"@ {
        Type::Centos
    } else if s == "debian"@ {
        Type::Debian
    } else if s == "fedora"@ {
        Type::Fedora
    } else if s == "linux"@ {
        Type::Linux
    } else if s == "macos"@ {
        Type::Macos
    } else if s == "manjaro"@ {
        Type::Manjaro
    } else if s == "opensuse"@ {
        Type::OpenSUSE
    } else if s == "oraclelinux"@ {
        Type::OracleLinux
    } else if s == "pop"@ {
        Type::Pop
    } else if s == "redhat"@ {
        Type::Redhat
    } else if s == "redhatenterprise"@ {
        Type::RedHatEnterprise
    } else if s == "redox"@ {
        Type::Redox
    } else if s == "solus"@ {
        Type::Solus
    } else if s == "suse"@ {
        Type::SUSE
    } else if s == "ubuntu"@ {
        Type::Ubuntu
    } else if s == "windows"@ {
        Type::Windows
    } else {
        Type::Unknown
    }
}

/// Relies on os_info::get, which inspects the host (release files, system
/// queries) to identify the operating system. The answer depends on the
/// machine the process runs on, so nothing is promised of it; every value
/// this crate recognises maps to its own, the rest to `Unknown`.
#[verifier::external_body]
fn detect_os() -> (r: Type) {
    match os_info::get().os_type() {
        OsInfo::Alpine => Type::Alpine, OsInfo::Amazon => Type::Amazon,
        OsInfo::Arch => Type::Arch, OsInfo::CentOS => Type::Centos,
        OsInfo::Debian => Type::Debian, OsInfo::Fedora => Type::Fedora,
        OsInfo::Linux => Type::Linux, OsInfo::Macos => Type::Macos,
        OsInfo::Manjaro => Type::Manjaro, OsInfo::openSUSE => Type::OpenSUSE,
        OsInfo::OracleLinux => Type::OracleLinux, OsInfo::Pop => Type::Pop,
        OsInfo::Redhat => Type::Redhat, OsInfo::RedHatEnterprise => Type::RedHatEnterprise,
        OsInfo::Redox => Type::Redox, OsInfo::Solus => Type::Solus,
        OsInfo::SUSE => Type::SUSE, OsInfo::Ubuntu => Type::Ubuntu,
        OsInfo::Windows => Type::Windows,
        _ => Type::Unknown,
    }
}

/// The operating system this run works against: the caller's choice where
/// one was given, else the one detected on the host.
pub fn digest(input: Option<Type>) -> (r: Type)
    ensures
        input matches Some(t) ==> r == t,
{
    match input {
        Some(t) => t,
        None => detect_os(),
    }
}

} // verus!
