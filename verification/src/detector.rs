//! System detection and requirement gating.
//!
//! Querying the machine (available disk space, writability, the host
//! architecture string) is the caller's part; the decisions are made here:
//! whether a candidate install path is acceptable and whether the host meets
//! a [`SystemRequirements`].

use vstd::prelude::*;

use crate::error::InstallerError;
use crate::error::InstallerResult;
use crate::text::is_absolute_path;
use crate::text::join_seqs;
use crate::text::join_strings;
use crate::text::path_is_absolute;
use crate::text::seq_has_str;
use crate::text::seq_views;
use crate::text::vec_contains_str;

verus! {

/// System requirements specification.
#[derive(Debug, Clone)]
pub struct SystemRequirements {
    /// Minimum required disk space in bytes.
    pub min_disk_space: u64,
    /// Minimum RAM in megabytes, if constrained.
    pub min_ram_mb: Option<u32>,
    /// Supported OS versions, by display name.
    pub os_versions: Vec<String>,
    /// Supported architectures.
    pub architectures: Vec<String>,
}

impl SystemRequirements {
    /// The host architecture is one of the supported architectures.
    pub open spec fn supports_arch(&self, arch: Seq<char>) -> bool {
        seq_has_str(self.architectures@, arch)
    }

    /// Default requirements: 2 GiB of disk, 4 GiB of RAM, and the two
    /// mainstream architectures.
    pub fn default_requirements() -> (r: SystemRequirements)
        ensures
            is_default_requirements(r),
    {
        let mut os_versions: Vec<String> = Vec::new();
        os_versions.push(String::from_str("Windows 10+"));
        os_versions.push(String::from_str("macOS 11+"));
        os_versions.push(String::from_str("Linux (kernel 5.0+)"));
        let mut architectures: Vec<String> = Vec::new();
        architectures.push(String::from_str("x86_64"));
        architectures.push(String::from_str("aarch64"));
        SystemRequirements {
            min_disk_space: 2147483648,  // 2 GiB
            min_ram_mb: Some(4096),  // 4 GiB of RAM
            os_versions,
            architectures,
        }
    }
}

/// Exactly the requirements [`SystemRequirements::default_requirements`]
/// builds.
pub open spec fn is_default_requirements(r: SystemRequirements) -> bool {
    &&& r.min_disk_space == 2147483648u64
    &&& r.min_ram_mb == Some(4096u32)
    &&& r.os_versions@.len() == 3
    &&& r.os_versions@[0]@ == "Windows 10+"@
    &&& r.os_versions@[1]@ == "macOS 11+"@
    &&& r.os_versions@[2]@ == "Linux (kernel 5.0+)"@
    &&& r.architectures@.len() == 2
    &&& r.architectures@[0]@ == "x86_64"@
    &&& r.architectures@[1]@ == "aarch64"@
}

/// The reason reported when the host architecture is unsupported: it names
/// the architecture and the supported list.
pub open spec fn unsupported_arch_reason(arch: Seq<char>, supported: Seq<String>) -> Seq<char> {
    "Architecture "@ + arch + " is not supported. Supported: "@ + join_seqs(
        seq_views(supported),
        ", "@,
    )
}

/// What a requirement check reports, whoever performs it: success exactly
/// when the available space reaches the minimum and the host architecture
/// is supported; otherwise the space shortfall (checked first, with both
/// numbers) or the unsupported architecture (with the supported list).
pub open spec fn requirements_decision(
    available: u64,
    arch: Seq<char>,
    requirements: SystemRequirements,
    r: InstallerResult<()>,
) -> bool {
    &&& (r is Ok <==> (available >= requirements.min_disk_space && requirements.supports_arch(
        arch,
    )))
    &&& (r matches Err(e) ==> if available < requirements.min_disk_space {
        e matches InstallerError::InsufficientSpace { needed, available: avail } && needed
            == requirements.min_disk_space && avail == available
    } else {
        e matches InstallerError::RequirementsNotMet(reason) && reason@
            == unsupported_arch_reason(arch, requirements.architectures@)
    })
}

/// Base platform detector: the host's OS name and architecture, and the
/// decisions common to every platform.
#[derive(Debug, Clone)]
pub struct PlatformDetector {
    /// The host operating system's display name.
    pub os_name: String,
    /// The host architecture (e.g. "x86_64", "aarch64").
    pub architecture: String,
}

impl PlatformDetector {
    /// Creates a detector for the given host.
    pub fn new(os_name: String, architecture: String) -> (r: PlatformDetector)
        ensures
            r.os_name == os_name,
            r.architecture == architecture,
    {
        PlatformDetector { os_name, architecture }
    }

    /// Decides whether a candidate install path is acceptable, given what
    /// the filesystem reported about it: whether it exists and, if so,
    /// whether it is writable.
    ///
    /// Fails with `InvalidPath` exactly when the path is not absolute, or
    /// exists but is not writable.
    pub fn validate_path_impl(path: &str, exists: bool, writable: bool) -> (r: InstallerResult<
        (),
    >)
        ensures
            r is Ok <==> (is_absolute_path(path@) && (exists ==> writable)),
            r matches Err(e) ==> (e matches InstallerError::InvalidPath(p) && p@ == path@),
    {
        if !path_is_absolute(path) {
            return Err(InstallerError::InvalidPath(path.to_owned()));
        }
        if exists && !writable {
            return Err(InstallerError::InvalidPath(path.to_owned()));
        }
        Ok(())
    }

    /// Decides whether the host meets the requirements, given the available
    /// space at the install path, as [`requirements_decision`] lays it out:
    /// the space check comes first, since disk exhaustion is the more
    /// urgent blocker to surface.
    pub fn check_requirements_impl(&self, available: u64, requirements: &SystemRequirements) -> (r:
        InstallerResult<()>)
        ensures
            requirements_decision(available, self.architecture@, *requirements, r),
    {
        if available < requirements.min_disk_space {
            return Err(
                InstallerError::InsufficientSpace {
                    needed: requirements.min_disk_space,
                    available,
                },
            );
        }
        if !vec_contains_str(&requirements.architectures, self.architecture.as_str()) {
            let mut reason = String::from_str("Architecture ");
            reason.append(self.architecture.as_str());
            reason.append(" is not supported. Supported: ");
            let supported = join_strings(&requirements.architectures, ", ");
            reason.append(supported.as_str());
            proof {
                assert(reason@ =~= unsupported_arch_reason(
                    self.architecture@,
                    requirements.architectures@,
                ));
            }
            return Err(InstallerError::RequirementsNotMet(reason));
        }
        Ok(())
    }
}

/// System information and requirement decisions: what any platform
/// detector offers the rest of the installer. Querying the machine is the
/// caller's part; implementations decide on the measured values.
pub trait SystemDetector {
    /// The operating system's display name.
    spec fn spec_os_name(&self) -> Seq<char>;

    /// The host architecture.
    spec fn spec_architecture(&self) -> Seq<char>;

    /// The operating system's display name.
    fn os_name(&self) -> (r: String)
        ensures
            r@ == self.spec_os_name(),
    ;

    /// The host architecture (e.g. "x86_64", "aarch64").
    fn architecture(&self) -> (r: &String)
        ensures
            r@ == self.spec_architecture(),
    ;

    /// Decides whether the host meets the requirements, given the measured
    /// available space at the install path, as [`requirements_decision`]
    /// lays it out.
    fn check_requirements(&self, available: u64, requirements: &SystemRequirements) -> (r:
        InstallerResult<()>)
        ensures
            requirements_decision(available, self.spec_architecture(), *requirements, r),
    ;

    /// The platform's default installation path.
    fn default_install_path(&self) -> (r: String);

    /// Decides whether a candidate install path is acceptable, given what
    /// the filesystem reported about it.
    fn validate_install_path(&self, path: &str, exists: bool, writable: bool) -> (r:
        InstallerResult<()>)
        ensures
            r is Ok <==> (is_absolute_path(path@) && (exists ==> writable)),
    ;
}

/// Builds the detector for the host the caller identified.
///
/// Platform selection is dependency injection here: the caller names the
/// host, and every later decision is bound to that choice.
pub fn get_system_detector(os_name: String, architecture: String) -> (r: PlatformDetector)
    ensures
        r.os_name == os_name,
        r.architecture == architecture,
{
    PlatformDetector::new(os_name, architecture)
}

} // verus!
