//! Targets: which operating systems a configuration section applies to,
//! and how the best match for the detected one is chosen.

use vstd::prelude::*;

use crate::client_os;
use crate::client_os::is_linux_family;

verus! {

/// An operating-system family or distribution a section may be scoped to,
/// plus the wildcard `Any` that accepts every host.
#[derive(Clone, Copy, Debug, PartialEq, Eq, Structural)]
pub enum Target {
    Linux,
    Alpine,
    Amazon,
    Arch,
    Centos,
    Debian,
    Fedora,
    Manjaro,
    OpenSUSE,
    OracleLinux,
    Pop,
    Redhat,
    RedHatEnterprise,
    Redox,
    Solus,
    SUSE,
    Ubuntu,
    Macos,
    Windows,
    Any,
}

/// The specificity weight of a target: `Any` is 1, a single distribution is
/// 2, an operating-system family (`Linux`, `Macos`, `Windows`) is 3.
pub open spec fn spec_weight(t: Target) -> u8 {
    match t {
        Target::Any => 1,
        Target::Linux | Target::Macos | Target::Windows => 3,
        _ => 2,
    }
}

/// The order in which `pick` prefers compatible targets: a distribution
/// before a family, and the wildcard `Any` strictly last, so that `Any`
/// never shadows a concrete match.
pub open spec fn spec_rank(t: Target) -> int {
    if t == Target::Any {
        4
    } else {
        spec_weight(t) as int
    }
}

/// Whether a target accepts the given detected operating system: `Any`
/// accepts every one, `Linux` accepts the family and all its distributions,
/// and every other target accepts exactly its own operating system.
pub open spec fn spec_compatible(t: Target, os: client_os::Type) -> bool {
    match t {
        Target::Any => true,
        Target::Linux => is_linux_family(os),
        Target::Macos => os == client_os::Type::Macos,
        Target::Windows => os == client_os::Type::Windows,
        Target::Alpine => os == client_os::Type::Alpine,
        Target::Amazon => os == client_os::Type::Amazon,
        Target::Arch => os == client_os::Type::Arch,
        Target::Centos => os == client_os::Type::Centos,
        Target::Debian => os == client_os::Type::Debian,
        Target::Fedora => os == client_os::Type::Fedora,
        Target::Manjaro => os == client_os::Type::Manjaro,
        Target::OpenSUSE => os == client_os::Type::OpenSUSE,
        Target::OracleLinux => os == client_os::Type::OracleLinux,
        Target::Pop => os == client_os::Type::Pop,
        Target::Redhat => os == client_os::Type::Redhat,
        Target::RedHatEnterprise => os == client_os::Type::RedHatEnterprise,
        Target::Redox => os == client_os::Type::Redox,
        Target::Solus => os == client_os::Type::Solus,
        Target::SUSE => os == client_os::Type::SUSE,
        Target::Ubuntu => os == client_os::Type::Ubuntu,
    }
}

/// The directory name that source paths substitute for the chosen target;
/// empty for `Any`.
pub open spec fn spec_dir(t: Target) -> Seq<char> {
    match t {
        Target::Macos => "macos"@,
        Target::Linux => "linux"@,
        Target::Windows => "windows"@,
        Target::Alpine => "alpine"@,
        Target::Amazon => "amazon"@,
        Target::Arch => "arch"@,
        Target::Centos => "centos"@,
        Target::Debian => "debian"@,
        Target::Fedora => "fedora"@,
        Target::Manjaro => "manjaro"@,
        Target::OpenSUSE => "opensuse"@,
        Target::OracleLinux => "oraclelinux"@,
        Target::Pop => "pop"@,
        Target::Redhat => "redhat"@,
        Target::RedHatEnterprise => "redhatenterprise"@,
        Target::Redox => "redox"@,
        Target::Solus => "solus"@,
        Target::SUSE => "suse"@,
        Target::Ubuntu => "ubuntu"@,
        Target::Any => ""@,
    }
}

/// The target `pick` resolves for `os` out of the first `ts.len()` declared
/// candidates: the compatible one of smallest rank, the earliest declared
/// among equals, or `None` where none is compatible.
pub open spec fn spec_pick(os: client_os::Type, ts: Seq<Target>) -> Option<Target>
    decreases ts.len(),
{
    if ts.len() == 0 {
        None
    } else {
        let prev = spec_pick(os, ts.drop_last());
        let t = ts.last();
        if spec_compatible(t, os) && (prev is None || spec_rank(t) < spec_rank(prev->0)) {
            Some(t)
        } else {
            prev
        }
    }
}

impl Default for Target {
    /// A section that declares no targets applies to every host.
    fn default() -> (r: Self)
        ensures
            r == Target::Any,
    {
        Target::Any
    }
}

impl Target {
    /// The specificity weight: 1 for `Any`, 2 for a distribution, 3 for a
    /// family. `pick` orders candidates by specificity, with `Any` last.
    pub fn weight(&self) -> (r: u8)
        ensures
            r == spec_weight(*self),
    {
        match self {
            Target::Any => 1,
            Target::Linux | Target::Macos | Target::Windows => 3,
            _ => 2,
        }
    }

    /// The directory name used when resolving source paths for this target.
    pub fn dir(&self) -> (r: &'static str)
        ensures
            r@ == spec_dir(*self),
    {
        match self {
            Target::Macos => "macos",
            Target::Linux => "linux",
            Target::Windows => "windows",
            Target::Alpine => "alpine",
            Target::Amazon => "amazon",
            Target::Arch => "arch",
            Target::Centos => "centos",
            Target::Debian => "debian",
            Target::Fedora => "fedora",
            Target::Manjaro => "manjaro",
            Target::OpenSUSE => "opensuse",
            Target::OracleLinux => "oraclelinux",
            Target::Pop => "pop",
            Target::Redhat => "redhat",
            Target::RedHatEnterprise => "redhatenterprise",
            Target::Redox => "redox",
            Target::Solus => "solus",
            Target::SUSE => "suse",
            Target::Ubuntu => "ubuntu",
            Target::Any => "",
        }
    }

    /// Whether this target accepts the detected operating system `os`.
    pub fn is_compatible(&self, os: &client_os::Type) -> (r: bool)
        ensures
            r == spec_compatible(*self, *os),
    {
        match (self, os) {
            (Target::Any, _) => true,
            (Target::Windows, client_os::Type::Windows) => true,
            (Target::Macos, client_os::Type::Macos) => true,
            (Target::Alpine, client_os::Type::Alpine) => true,
            (Target::Amazon, client_os::Type::Amazon) => true,
            (Target::Arch, client_os::Type::Arch) => true,
            (Target::Centos, client_os::Type::Centos) => true,
            (Target::Debian, client_os::Type::Debian) => true,
            (Target::Fedora, client_os::Type::Fedora) => true,
            (Target::Manjaro, client_os::Type::Manjaro) => true,
            (Target::OpenSUSE, client_os::Type::OpenSUSE) => true,
            (Target::OracleLinux, client_os::Type::OracleLinux) => true,
            (Target::Pop, client_os::Type::Pop) => true,
            (Target::Redhat, client_os::Type::Redhat) => true,
            (Target::RedHatEnterprise, client_os::Type::RedHatEnterprise) => true,
            (Target::Redox, client_os::Type::Redox) => true,
            (Target::Solus, client_os::Type::Solus) => true,
            (Target::SUSE, client_os::Type::SUSE) => true,
            (Target::Ubuntu, client_os::Type::Ubuntu) => true,
            (Target::Linux, _) => match os {
                client_os::Type::Macos | client_os::Type::Windows | client_os::Type::Unknown => false,
                _ => true,
            },
            _ => false,
        }
    }

    /// Out of the targets a section declares, the one that best matches the
    /// detected operating system: the most specific compatible candidate,
    /// the earliest declared among equally specific ones, and `None` where
    /// the list is empty or nothing is compatible.
    pub fn pick(os: &client_os::Type, targets: &[Target]) -> (r: Option<Target>)
        ensures
            r == spec_pick(*os, targets@),
            targets@.len() == 0 ==> r is None,
    {
        let mut best: Option<Target> = None;
        let n = targets.len();
        for i in 0..n
            invariant
                n == targets@.len(),
                best == spec_pick(*os, targets@.take(i as int)),
        {
            let t = targets[i];
            let replace = t.is_compatible(os) && match best {
                None => true,
                Some(b) => rank(&t) < rank(&b),
            };
            if replace {
                best = Some(t);
            }
            proof {
                assert(targets@.take(i + 1 as int).drop_last() =~= targets@.take(i as int));
                assert(targets@.take(i + 1 as int).last() == targets@[i as int]);
            }
        }
        proof {
            assert(targets@.take(n as int) =~= targets@);
        }
        best
    }
}

/// The preference order `pick` uses: distribution first, family next, the
/// wildcard strictly last.
fn rank(t: &Target) -> (r: u8)
    ensures
        r as int == spec_rank(*t),
{
    match t {
        Target::Any => 4,
        _ => t.weight(),
    }
}

/// What `spec_pick` resolves, characterised: `None` only where nothing in
/// the list is compatible, else a compatible member of the list whose rank
/// no compatible member beats.
pub proof fn lemma_pick_characterization(os: client_os::Type, ts: Seq<Target>)
    ensures
        spec_pick(os, ts) is None ==> forall|i: int|
            0 <= i < ts.len() ==> !spec_compatible(ts[i], os),
        spec_pick(os, ts) matches Some(t) ==> ts.contains(t) && spec_compatible(t, os) && (forall|
            i: int,
        |
            0 <= i < ts.len() && spec_compatible(ts[i], os) ==> spec_rank(t) <= spec_rank(ts[i])),
    decreases ts.len(),
{
    if ts.len() > 0 {
        lemma_pick_characterization(os, ts.drop_last());
        assert(ts[ts.len() - 1] == ts.last());
        match spec_pick(os, ts.drop_last()) {
            Some(p) => {
                let j = choose|j: int| 0 <= j < ts.drop_last().len() && ts.drop_last()[j] == p;
                assert(ts[j] == p);
                assert(ts.contains(p));
            },
            None => {},
        }
        assert(forall|i: int| 0 <= i < ts.len() - 1 ==> ts.drop_last()[i] == ts[i]);
    }
}

/// The wildcard is the fallback: where a section's targets hold `Any` and
/// no other one is compatible with the detected operating system, `Any` is
/// resolved.
pub proof fn lemma_pick_any_fallback(os: client_os::Type, ts: Seq<Target>)
    requires
        ts.contains(Target::Any),
        forall|i: int| 0 <= i < ts.len() && ts[i] != Target::Any ==> !spec_compatible(ts[i], os),
    ensures
        spec_pick(os, ts) == Some(Target::Any),
{
    lemma_pick_characterization(os, ts);
    let k = choose|k: int| 0 <= k < ts.len() && ts[k] == Target::Any;
    assert(spec_compatible(ts[k], os));
    match spec_pick(os, ts) {
        Some(t) => {
            if t != Target::Any {
                let j = choose|j: int| 0 <= j < ts.len() && ts[j] == t;
                assert(!spec_compatible(ts[j], os));
                assert(false);
            }
        },
        None => {
            assert(false);
        },
    }
}

/// The wildcard never shadows a concrete match: where some target other
/// than `Any` is compatible with the detected operating system, the
/// resolved target is a compatible one other than `Any`.
pub proof fn lemma_pick_prefers_concrete(os: client_os::Type, ts: Seq<Target>)
    requires
        exists|i: int| 0 <= i < ts.len() && ts[i] != Target::Any && spec_compatible(ts[i], os),
    ensures
        spec_pick(os, ts) matches Some(t) && t != Target::Any && spec_compatible(t, os),
{
    lemma_pick_characterization(os, ts);
    let i = choose|i: int| 0 <= i < ts.len() && ts[i] != Target::Any && spec_compatible(ts[i], os);
    match spec_pick(os, ts) {
        Some(t) => {
            assert(spec_rank(t) <= spec_rank(ts[i]));
            assert(spec_rank(ts[i]) <= 3);
        },
        None => {
            assert(!spec_compatible(ts[i], os));
            assert(false);
        },
    }
}

/// Two distribution targets compatible with the same detected operating
/// system are the same target.
proof fn lemma_distro_unique(a: Target, b: Target, os: client_os::Type)
    requires
        spec_weight(a) == 2,
        spec_weight(b) == 2,
        spec_compatible(a, os),
        spec_compatible(b, os),
    ensures
        a == b,
{
}

/// A distribution target beats the family: where a section's targets hold
/// both the `Linux` family target and a distribution target compatible
/// with the detected distribution, the distribution target is resolved.
pub proof fn lemma_pick_distro_over_linux(os: client_os::Type, ts: Seq<Target>, t: Target)
    requires
        ts.contains(t),
        ts.contains(Target::Linux),
        spec_weight(t) == 2,
        spec_compatible(t, os),
    ensures
        spec_pick(os, ts) == Some(t),
{
    lemma_pick_characterization(os, ts);
    let k = choose|k: int| 0 <= k < ts.len() && ts[k] == t;
    match spec_pick(os, ts) {
        Some(w) => {
            assert(spec_rank(w) <= spec_rank(ts[k]));
            assert(spec_weight(w) == 2);
            lemma_distro_unique(w, t, os);
        },
        None => {
            assert(!spec_compatible(ts[k], os));
            assert(false);
        },
    }
}

} // verus!
