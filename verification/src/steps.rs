//! Pre-built installation steps.
//!
//! Each step is a unit of work with a name, a gating predicate, and the data
//! its execution and rollback need. All state a rollback needs is derivable
//! from a step's construction parameters, never from execution-time side
//! channels. The filesystem and network effects are the caller's part; each
//! step's decisions and derived values are here.

use vstd::prelude::*;

use crate::detector::PlatformDetector;
use crate::detector::SystemRequirements;
use crate::error::InstallerError;
use crate::error::InstallerResult;
use crate::pipeline::scale_step_progress;
use crate::pipeline::scaled_percent;
use crate::pipeline::StepInfo;
use crate::text::ends_with;
use crate::text::join_path;
use crate::text::str_ends_with;

verus! {

/// Installation step that verifies system requirements.
pub struct CheckRequirementsStep {
    /// The host detector the check is bound to.
    pub detector: PlatformDetector,
    /// The requirements to check.
    pub requirements: SystemRequirements,
}

impl CheckRequirementsStep {
    /// Creates a requirements-checking step.
    pub fn new(detector: PlatformDetector, requirements: SystemRequirements) -> (r:
        CheckRequirementsStep)
        ensures
            r.detector == detector,
            r.requirements == requirements,
    {
        CheckRequirementsStep { detector, requirements }
    }

    /// The step's display name.
    pub fn name(&self) -> (r: String)
        ensures
            r@ == "Check System Requirements"@,
    {
        String::from_str("Check System Requirements")
    }

    /// What the step does.
    pub fn description(&self) -> (r: String)
        ensures
            r@ == "Verifying that your system meets the minimum requirements"@,
    {
        String::from_str("Verifying that your system meets the minimum requirements")
    }

    /// This step is always willing to run.
    pub open spec fn can_execute_spec(&self) -> bool {
        true
    }

    /// Whether the step may execute; a pure function of the step.
    pub fn can_execute(&self) -> (r: bool)
        ensures
            r == self.can_execute_spec(),
    {
        true
    }

    /// The step's decision, given the available space the caller measured
    /// at the install path: exactly the detector's requirement check, with
    /// the detector's error propagated unchanged (see
    /// [`crate::detector::requirements_decision`]).
    pub fn check(&self, available: u64) -> (r: InstallerResult<()>)
        ensures
            crate::detector::requirements_decision(
                available,
                self.detector.architecture@,
                self.requirements,
                r,
            ),
    {
        self.detector.check_requirements_impl(available, &self.requirements)
    }
}

/// Installation step that creates the installation directory tree.
pub struct CreateDirectoriesStep {
    /// The base installation directory.
    pub base_path: String,
    /// Subdirectories to create under the base.
    pub subdirectories: Vec<String>,
}

impl CreateDirectoriesStep {
    /// Creates a directory-creation step with the standard subdirectories.
    pub fn new(base_path: String) -> (r: CreateDirectoriesStep)
        ensures
            r.base_path == base_path,
            r.subdirectories@.len() == 6,
            r.subdirectories@[0]@ == "bin"@,
            r.subdirectories@[1]@ == "lib"@,
            r.subdirectories@[2]@ == "assets"@,
            r.subdirectories@[3]@ == "plugins"@,
            r.subdirectories@[4]@ == "projects"@,
            r.subdirectories@[5]@ == "docs"@,
    {
        let mut subdirectories: Vec<String> = Vec::new();
        subdirectories.push(String::from_str("bin"));
        subdirectories.push(String::from_str("lib"));
        subdirectories.push(String::from_str("assets"));
        subdirectories.push(String::from_str("plugins"));
        subdirectories.push(String::from_str("projects"));
        subdirectories.push(String::from_str("docs"));
        CreateDirectoriesStep { base_path, subdirectories }
    }

    /// Adds further subdirectories to create.
    pub fn with_subdirectories(self, dirs: Vec<String>) -> (r: CreateDirectoriesStep)
        ensures
            r.base_path == self.base_path,
            r.subdirectories@ == self.subdirectories@ + dirs@,
    {
        let mut subdirectories = self.subdirectories;
        let mut dirs = dirs;
        subdirectories.append(&mut dirs);
        CreateDirectoriesStep { base_path: self.base_path, subdirectories }
    }

    /// The step's display name.
    pub fn name(&self) -> (r: String)
        ensures
            r@ == "Create Directories"@,
    {
        String::from_str("Create Directories")
    }

    /// What the step does.
    pub fn description(&self) -> (r: String)
        ensures
            r@ == "Creating installation directory structure"@,
    {
        String::from_str("Creating installation directory structure")
    }

    /// This step is always willing to run.
    pub open spec fn can_execute_spec(&self) -> bool {
        true
    }

    /// Whether the step may execute; a pure function of the step.
    pub fn can_execute(&self) -> (r: bool)
        ensures
            r == self.can_execute_spec(),
    {
        true
    }

    /// Every directory the step creates, in creation order: the base
    /// directory first, then each subdirectory under it.
    pub fn directory_paths(&self) -> (r: Vec<String>)
        ensures
            r@.len() == self.subdirectories@.len() + 1,
            r@[0]@ == self.base_path@,
            forall|i: int|
                0 <= i < self.subdirectories@.len() ==> r@[i + 1]@ == self.base_path@ + "/"@
                    + self.subdirectories@[i]@,
    {
        let mut r: Vec<String> = Vec::new();
        r.push(self.base_path.clone());
        let mut i: usize = 0;
        while i < self.subdirectories.len()
            invariant
                0 <= i <= self.subdirectories@.len(),
                r@.len() == i + 1,
                r@[0]@ == self.base_path@,
                forall|j: int|
                    0 <= j < i ==> r@[j + 1]@ == self.base_path@ + "/"@
                        + self.subdirectories@[j]@,
            decreases self.subdirectories@.len() - i,
        {
            r.push(join_path(self.base_path.as_str(), self.subdirectories[i].as_str()));
            i += 1;
        }
        r
    }

    /// The percentage to report after the `index`-th subdirectory (0-based)
    /// of `total` has been created: `(index+1)/total*100`.
    pub fn creation_percent(index: usize, total: usize) -> (r: u64)
        requires
            0 < total,
            index < total,
        ensures
            r == scaled_percent(index as int, total as int, 100),
            r <= 100,
    {
        scale_step_progress(index, total, 100)
    }
}

/// The archive formats the extraction step recognizes, selected by the
/// destination file's extension.
#[derive(Debug, Clone, Copy, PartialEq, Eq, Structural)]
pub enum ArchiveFormat {
    /// A gzip-compressed tar archive (`.tar.gz` or `.tgz`).
    TarGz,
    /// A zip archive (`.zip`).
    Zip,
    /// An opaque executable, copied as-is (`.exe`).
    OpaqueCopy,
    /// Anything else; extraction is refused.
    Unsupported,
}

/// The archive format a file name selects.
pub open spec fn archive_format_spec(path: Seq<char>) -> ArchiveFormat {
    if ends_with(path, ".tar.gz"@) || ends_with(path, ".tgz"@) {
        ArchiveFormat::TarGz
    } else if ends_with(path, ".zip"@) {
        ArchiveFormat::Zip
    } else if ends_with(path, ".exe"@) {
        ArchiveFormat::OpaqueCopy
    } else {
        ArchiveFormat::Unsupported
    }
}

/// Selects the archive format by the file's extension.
pub fn archive_format(path: &str) -> (r: ArchiveFormat)
    ensures
        r == archive_format_spec(path@),
{
    if str_ends_with(path, ".tar.gz") || str_ends_with(path, ".tgz") {
        ArchiveFormat::TarGz
    } else if str_ends_with(path, ".zip") {
        ArchiveFormat::Zip
    } else if str_ends_with(path, ".exe") {
        ArchiveFormat::OpaqueCopy
    } else {
        ArchiveFormat::Unsupported
    }
}

/// Installation step that extracts an archive into the installation
/// directory.
pub struct ExtractFilesStep {
    /// The archive to extract.
    pub archive_path: String,
    /// Where to extract to.
    pub destination: String,
}

impl ExtractFilesStep {
    /// Creates a file-extraction step.
    pub fn new(archive_path: String, destination: String) -> (r: ExtractFilesStep)
        ensures
            r.archive_path == archive_path,
            r.destination == destination,
    {
        ExtractFilesStep { archive_path, destination }
    }

    /// The step's display name.
    pub fn name(&self) -> (r: String)
        ensures
            r@ == "Extract Files"@,
    {
        String::from_str("Extract Files")
    }

    /// What the step does.
    pub fn description(&self) -> (r: String)
        ensures
            r@ == "Extracting application files"@,
    {
        String::from_str("Extracting application files")
    }

    /// This step is always willing to run.
    pub open spec fn can_execute_spec(&self) -> bool {
        true
    }

    /// Whether the step may execute; a pure function of the step.
    pub fn can_execute(&self) -> (r: bool)
        ensures
            r == self.can_execute_spec(),
    {
        true
    }

    /// Decides how the archive is to be unpacked.
    ///
    /// Succeeds with the recognized format; fails exactly when the
    /// extension selects no supported format.
    pub fn plan(&self) -> (r: InstallerResult<ArchiveFormat>)
        ensures
            r matches Ok(f) ==> f == archive_format_spec(self.archive_path@) && f
                != ArchiveFormat::Unsupported,
            r is Err <==> archive_format_spec(self.archive_path@) == ArchiveFormat::Unsupported,
            r matches Err(e) ==> e matches InstallerError::Other(_),
    {
        let format = archive_format(self.archive_path.as_str());
        match format {
            ArchiveFormat::Unsupported => Err(
                InstallerError::Other(String::from_str("unsupported archive format")),
            ),
            _ => Ok(format),
        }
    }

    /// The percentage to report after `index + 1` of `total` archive
    /// entries have been unpacked.
    pub fn entry_percent(index: usize, total: usize) -> (r: u64)
        requires
            0 < total,
            index < total,
        ensures
            r == scaled_percent(index as int, total as int, 100),
            r <= 100,
    {
        scale_step_progress(index, total, 100)
    }
}

/// Installation step that registers the application with the operating
/// system: shortcuts, desktop entries, or bundle metadata, by platform.
pub struct CreateShortcutsStep {
    /// The completed installation's location.
    pub install_path: String,
    /// The installed version.
    pub version: String,
    /// Whether to register system-wide rather than per-user.
    pub use_system_directories: bool,
}

impl CreateShortcutsStep {
    /// Creates an OS-registration step.
    pub fn new(install_path: String, version: String, use_system_directories: bool) -> (r:
        CreateShortcutsStep)
        ensures
            r.install_path == install_path,
            r.version == version,
            r.use_system_directories == use_system_directories,
    {
        CreateShortcutsStep { install_path, version, use_system_directories }
    }

    /// The step's display name.
    pub fn name(&self) -> (r: String)
        ensures
            r@ == "OS Integration"@,
    {
        String::from_str("OS Integration")
    }

    /// What the step does.
    pub fn description(&self) -> (r: String)
        ensures
            r@ == "Registering the application with the operating system"@,
    {
        String::from_str("Registering the application with the operating system")
    }

    /// This step is always willing to run.
    pub open spec fn can_execute_spec(&self) -> bool {
        true
    }

    /// Whether the step may execute.
    ///
    /// The result is a pure function of the step: the test has no side
    /// effect, so consecutive calls agree (see
    /// [`lemma_can_execute_idempotent`]).
    pub fn can_execute(&self) -> (r: bool)
        ensures
            r == self.can_execute_spec(),
    {
        true
    }
}

/// Law: a step's `can_execute` test is idempotent.
///
/// `can_execute` promises its result equals a pure function of the step, so
/// two calls on the same step without an intervening `execute` return the
/// same result; the test has no side effects. The parameters `first` and
/// `second` stand for the results of the two calls, each constrained exactly
/// as `can_execute`'s contract constrains its result.
pub proof fn lemma_can_execute_idempotent(step: CreateShortcutsStep, first: bool, second: bool)
    requires
        first == step.can_execute_spec(),
        second == step.can_execute_spec(),
    ensures
        first == second,
{
}

/// The artifact a platform requires under an install path for the
/// installation to count as intact.
pub open spec fn required_artifact_spec(install_path: Seq<char>, os: Seq<char>) -> Seq<char> {
    if os == "windows"@ {
        install_path + "/pulsar.exe"@
    } else if os == "macos"@ {
        install_path + "/Contents"@
    } else {
        install_path
    }
}

/// Installation step that verifies the installation and writes its final
/// metadata.
pub struct FinalizeStep {
    /// The completed installation's location.
    pub install_path: String,
}

impl FinalizeStep {
    /// Creates a finalization step.
    pub fn new(install_path: String) -> (r: FinalizeStep)
        ensures
            r.install_path == install_path,
    {
        FinalizeStep { install_path }
    }

    /// The step's display name.
    pub fn name(&self) -> (r: String)
        ensures
            r@ == "Finalize Installation"@,
    {
        String::from_str("Finalize Installation")
    }

    /// What the step does.
    pub fn description(&self) -> (r: String)
        ensures
            r@ == "Completing installation and verifying integrity"@,
    {
        String::from_str("Completing installation and verifying integrity")
    }

    /// This step is always willing to run.
    pub open spec fn can_execute_spec(&self) -> bool {
        true
    }

    /// Whether the step may execute; a pure function of the step.
    pub fn can_execute(&self) -> (r: bool)
        ensures
            r == self.can_execute_spec(),
    {
        true
    }

    /// The artifact whose presence proves the installation intact, by
    /// platform: the main executable on Windows, the bundle's `Contents`
    /// directory on macOS, and the install path itself elsewhere.
    pub fn required_artifact(&self, os_name: &str) -> (r: String)
        ensures
            r@ == required_artifact_spec(self.install_path@, os_name@),
    {
        if crate::text::str_eq(os_name, "windows") {
            let mut r = self.install_path.clone();
            r.append("/pulsar.exe");
            r
        } else if crate::text::str_eq(os_name, "macos") {
            let mut r = self.install_path.clone();
            r.append("/Contents");
            r
        } else {
            self.install_path.clone()
        }
    }

    /// Decides whether the installation is intact, given what the caller
    /// found on disk: whether the install path exists, and whether the
    /// platform's required artifact (see
    /// [`FinalizeStep::required_artifact`]) exists.
    ///
    /// Fails with `InvalidPath` exactly when one of the two is missing,
    /// naming whichever it is: the install path, or else the artifact.
    pub fn verify_installation(
        &self,
        install_exists: bool,
        artifact_path: &str,
        artifact_exists: bool,
    ) -> (r: InstallerResult<()>)
        ensures
            r is Ok <==> (install_exists && artifact_exists),
            r matches Err(e) ==> (e matches InstallerError::InvalidPath(p) && p@
                == if !install_exists {
                self.install_path@
            } else {
                artifact_path@
            }),
    {
        if !install_exists {
            return Err(InstallerError::InvalidPath(self.install_path.clone()));
        }
        if !artifact_exists {
            return Err(InstallerError::InvalidPath(artifact_path.to_owned()));
        }
        Ok(())
    }
}

/// A collection of installation steps that execute sequentially.
pub struct StepSequence {
    /// The step entries, in execution order.
    pub steps: Vec<StepInfo>,
    /// The index of the step currently due.
    pub current_step: usize,
}

impl StepSequence {
    /// Creates an empty sequence.
    pub fn new() -> (r: StepSequence)
        ensures
            r.steps@.len() == 0,
            r.current_step == 0,
    {
        StepSequence { steps: Vec::new(), current_step: 0 }
    }

    /// Appends a step to the sequence.
    pub fn add_step(self, step: StepInfo) -> (r: StepSequence)
        ensures
            r.steps@ == self.steps@.push(step),
            r.current_step == self.current_step,
    {
        let mut steps = self.steps;
        steps.push(step);
        StepSequence { steps, current_step: self.current_step }
    }

    /// All steps in this sequence.
    pub fn steps(&self) -> (r: &Vec<StepInfo>)
        ensures
            r == self.steps,
    {
        &self.steps
    }

    /// The current step index.
    pub fn current_step(&self) -> (r: usize)
        ensures
            r == self.current_step,
    {
        self.current_step
    }

    /// The total number of steps.
    pub fn total_steps(&self) -> (r: usize)
        ensures
            r == self.steps@.len(),
    {
        self.steps.len()
    }

    /// Whether all steps are complete.
    pub fn is_complete(&self) -> (r: bool)
        ensures
            r == (self.current_step >= self.steps@.len()),
    {
        self.current_step >= self.steps.len()
    }
}

impl Default for StepSequence {
    /// Same as [`StepSequence::new`].
    fn default() -> (r: StepSequence)
        ensures
            r.steps@.len() == 0,
            r.current_step == 0,
    {
        StepSequence { steps: Vec::new(), current_step: 0 }
    }
}

} // verus!
