//! Linux platform support, following freedesktop.org conventions: binary
//! under `~/.local/bin` or `/usr/bin`, a desktop entry, and hicolor icons.
//!
//! Directory conventions are computed exactly from a given home directory;
//! the convenience accessors ask the `dirs` crate for the real one. File
//! copying, permission bits, and desktop-database refreshes are the
//! caller's part.

use vstd::prelude::*;

use crate::detector::PlatformDetector;
use crate::detector::SystemRequirements;
use crate::error::InstallerResult;
use crate::text::ends_with;
use crate::text::join_path;
use crate::text::lemma_concat_ends_with;

verus! {

/// Relies on `dirs::home_dir`: the user's home directory, if the platform
/// reports one. The value depends on the environment, so nothing is
/// promised of it.
#[verifier::external_body]
pub(crate) fn dirs_home_dir() -> (r: Option<String>) {
    dirs::home_dir().map(|p| p.to_string_lossy().into_owned())
}

/// Relies on `dirs::data_local_dir`: the user's local data directory, if
/// the platform reports one. The value depends on the environment, so
/// nothing is promised of it.
#[verifier::external_body]
pub(crate) fn dirs_data_local_dir() -> (r: Option<String>) {
    dirs::data_local_dir().map(|p| p.to_string_lossy().into_owned())
}

/// The user's binary directory for a given home: `<home>/.local/bin`, with
/// a fixed fallback when no home is known.
pub fn user_bin_dir_from(home: Option<&String>) -> (r: String)
    ensures
        r@ == match home {
            Option::Some(h) => h@ + "/.local/bin"@,
            Option::None => "/home/default/.local/bin"@,
        },
        ends_with(r@, "/.local/bin"@),
{
    let mut base = match home {
        Option::Some(h) => h.clone(),
        Option::None => String::from_str("/home/default"),
    };
    base.append("/.local/bin");
    proof {
        match home {
            Option::Some(h) => {
                lemma_concat_ends_with(h@, "/.local/bin"@);
            },
            Option::None => {
                lemma_concat_ends_with("/home/default"@, "/.local/bin"@);
                assert(base@ =~= "/home/default/.local/bin"@) by {
                    reveal_strlit("/home/default");
                    reveal_strlit("/.local/bin");
                    reveal_strlit("/home/default/.local/bin");
                }
            },
        }
    }
    base
}

/// The user's data directory for given environment answers: the local data
/// directory when known, else `<home>/.local/share`, with a fixed fallback.
pub fn user_data_dir_from(data_local: Option<&String>, home: Option<&String>) -> (r: String)
    ensures
        r@ == match data_local {
            Option::Some(d) => d@,
            Option::None => match home {
                Option::Some(h) => h@ + "/.local/share"@,
                Option::None => "/home/default/.local/share"@,
            },
        },
{
    match data_local {
        Option::Some(d) => d.clone(),
        Option::None => {
            let mut base = match home {
                Option::Some(h) => h.clone(),
                Option::None => String::from_str("/home/default"),
            };
            base.append("/.local/share");
            proof {
                if home is None {
                    assert(base@ =~= "/home/default/.local/share"@) by {
                        reveal_strlit("/home/default");
                        reveal_strlit("/.local/share");
                        reveal_strlit("/home/default/.local/share");
                    }
                }
            }
            base
        },
    }
}

/// Linux platform detector.
#[derive(Debug, Clone)]
pub struct LinuxDetector {
    /// The common detector, bound to this host.
    pub base: PlatformDetector,
}

impl LinuxDetector {
    /// Creates a Linux detector for the given host architecture.
    pub fn new(architecture: String) -> (r: LinuxDetector)
        ensures
            r.base.os_name@ == "Linux"@,
            r.base.architecture == architecture,
    {
        LinuxDetector { base: PlatformDetector::new(String::from_str("Linux"), architecture) }
    }

    /// The operating system's display name.
    pub fn os_name(&self) -> (r: String)
        ensures
            r@ == "Linux"@,
    {
        String::from_str("Linux")
    }

    /// The host architecture.
    pub fn architecture(&self) -> (r: &String)
        ensures
            r == self.base.architecture,
    {
        &self.base.architecture
    }

    /// The user's binary directory, `~/.local/bin`.
    pub fn get_user_bin_dir() -> (r: String)
        ensures
            ends_with(r@, "/.local/bin"@),
    {
        let home = dirs_home_dir();
        user_bin_dir_from(home.as_ref())
    }

    /// The user's applications directory, `~/.local/share/applications`.
    pub fn get_user_applications_dir() -> (r: String)
        ensures
            ends_with(r@, "/applications"@),
    {
        let data = dirs_data_local_dir();
        let home = dirs_home_dir();
        let base = user_data_dir_from(data.as_ref(), home.as_ref());
        let r = join_path(base.as_str(), "applications");
        proof {
            assert(r@ =~= base@ + "/applications"@) by {
                reveal_strlit("/");
                reveal_strlit("applications");
                reveal_strlit("/applications");
            }
            lemma_concat_ends_with(base@, "/applications"@);
        }
        r
    }

    /// The user's icon theme directory, `~/.local/share/icons/hicolor`.
    pub fn get_user_icon_dir() -> (r: String)
        ensures
            ends_with(r@, "/icons/hicolor"@),
    {
        let data = dirs_data_local_dir();
        let home = dirs_home_dir();
        let mut base = user_data_dir_from(data.as_ref(), home.as_ref());
        let ghost pre = base@;
        base.append("/icons/hicolor");
        proof {
            lemma_concat_ends_with(pre, "/icons/hicolor"@);
        }
        base
    }

    /// The default install path: the user binary directory's `pulsar`
    /// entry. On Linux the install target is the binary's path itself, not
    /// a directory.
    pub fn default_install_path(&self) -> (r: String)
        ensures
            ends_with(r@, "/.local/bin/pulsar"@),
    {
        let mut bin = Self::get_user_bin_dir();
        let ghost pre = bin@;
        bin.append("/pulsar");
        proof {
            crate::text::lemma_ends_with_append(pre, "/.local/bin"@, "/pulsar"@);
            assert("/.local/bin"@ + "/pulsar"@ =~= "/.local/bin/pulsar"@) by {
                reveal_strlit("/.local/bin");
                reveal_strlit("/pulsar");
                reveal_strlit("/.local/bin/pulsar");
            }
        }
        bin
    }

    /// Checks the host against the requirements, given the measured
    /// available space at the install path, as
    /// [`crate::detector::requirements_decision`] lays it out.
    pub fn check_requirements(&self, available: u64, requirements: &SystemRequirements) -> (r:
        InstallerResult<()>)
        ensures
            crate::detector::requirements_decision(
                available,
                self.base.architecture@,
                *requirements,
                r,
            ),
    {
        self.base.check_requirements_impl(available, requirements)
    }
}

impl crate::detector::SystemDetector for LinuxDetector {
    open spec fn spec_os_name(&self) -> Seq<char> {
        "Linux"@
    }

    open spec fn spec_architecture(&self) -> Seq<char> {
        self.base.architecture@
    }

    fn os_name(&self) -> (r: String) {
        LinuxDetector::os_name(self)
    }

    fn architecture(&self) -> (r: &String) {
        LinuxDetector::architecture(self)
    }

    fn check_requirements(&self, available: u64, requirements: &SystemRequirements) -> (r:
        InstallerResult<()>) {
        LinuxDetector::check_requirements(self, available, requirements)
    }

    fn default_install_path(&self) -> (r: String) {
        LinuxDetector::default_install_path(self)
    }

    fn validate_install_path(&self, path: &str, exists: bool, writable: bool) -> (r:
        InstallerResult<()>) {
        PlatformDetector::validate_path_impl(path, exists, writable)
    }
}

/// The hicolor icon sizes the installer places icons for.
pub open spec fn icon_size_names() -> Seq<Seq<char>> {
    seq!["16x16"@, "32x32"@, "48x48"@, "64x64"@, "128x128"@, "256x256"@]
}

/// Linux installation operations: where files go and what the integration
/// files hold.
#[derive(Debug, Clone)]
pub struct LinuxInstaller {
    /// Where the binary is installed.
    pub binary_path: String,
    /// The installed version.
    pub version: String,
    /// Whether to use `/usr` rather than the user's directories.
    pub use_system_directories: bool,
}

impl LinuxInstaller {
    /// The binary's install path for the chosen scope.
    pub fn binary_path_from(use_system_directories: bool, home: Option<&String>) -> (r: String)
        ensures
            use_system_directories ==> r@ == "/usr/bin/pulsar"@,
            !use_system_directories ==> ends_with(r@, "/.local/bin/pulsar"@),
    {
        if use_system_directories {
            String::from_str("/usr/bin/pulsar")
        } else {
            let mut bin = user_bin_dir_from(home);
            let ghost pre = bin@;
            bin.append("/pulsar");
            proof {
                crate::text::lemma_ends_with_append(pre, "/.local/bin"@, "/pulsar"@);
                assert("/.local/bin"@ + "/pulsar"@ =~= "/.local/bin/pulsar"@) by {
                    reveal_strlit("/.local/bin");
                    reveal_strlit("/pulsar");
                    reveal_strlit("/.local/bin/pulsar");
                }
            }
            bin
        }
    }

    /// Creates a Linux installer for the given scope.
    pub fn new(version: String, use_system_directories: bool) -> (r: LinuxInstaller)
        ensures
            r.version == version,
            r.use_system_directories == use_system_directories,
            use_system_directories ==> r.binary_path@ == "/usr/bin/pulsar"@,
            !use_system_directories ==> ends_with(r.binary_path@, "/.local/bin/pulsar"@),
    {
        let home = if use_system_directories {
            None
        } else {
            dirs_home_dir()
        };
        let binary_path = Self::binary_path_from(use_system_directories, home.as_ref());
        LinuxInstaller { binary_path, version, use_system_directories }
    }

    /// The directory that holds desktop entries for the chosen scope.
    pub fn desktop_entry_dir(&self) -> (r: String)
        ensures
            self.use_system_directories ==> r@ == "/usr/share/applications"@,
            !self.use_system_directories ==> ends_with(r@, "/applications"@),
    {
        if self.use_system_directories {
            let r = String::from_str("/usr/share/applications");
            r
        } else {
            LinuxDetector::get_user_applications_dir()
        }
    }

    /// The icon theme base directory for the chosen scope.
    pub fn icon_base_dir(&self) -> (r: String)
        ensures
            self.use_system_directories ==> r@ == "/usr/share/icons/hicolor"@,
            !self.use_system_directories ==> ends_with(r@, "/icons/hicolor"@),
    {
        if self.use_system_directories {
            String::from_str("/usr/share/icons/hicolor")
        } else {
            LinuxDetector::get_user_icon_dir()
        }
    }

    /// The desktop entry's file name.
    pub fn desktop_entry_name(&self) -> (r: String)
        ensures
            r@ == "pulsar.desktop"@,
    {
        String::from_str("pulsar.desktop")
    }

    /// The desktop entry's contents, following the freedesktop.org desktop
    /// entry specification.
    pub fn desktop_entry_content(&self) -> (r: String)
        ensures
            r@ == "[Desktop Entry]\nType=Application\nName=Pulsar\nComment=Pulsar Game Engine Installer\nExec="@
                + self.binary_path@
                + "\nIcon=pulsar\nTerminal=false\nCategories=Development;Game;\nKeywords=pulsar;game;engine;installer;\nVersion="@
                + self.version@ + "\n"@,
    {
        let mut out = String::from_str(
            "[Desktop Entry]\nType=Application\nName=Pulsar\nComment=Pulsar Game Engine Installer\nExec=",
        );
        out.append(self.binary_path.as_str());
        out.append(
            "\nIcon=pulsar\nTerminal=false\nCategories=Development;Game;\nKeywords=pulsar;game;engine;installer;\nVersion=",
        );
        out.append(self.version.as_str());
        out.append("\n");
        proof {
            assert(out@
                =~= "[Desktop Entry]\nType=Application\nName=Pulsar\nComment=Pulsar Game Engine Installer\nExec="@
                + self.binary_path@
                + "\nIcon=pulsar\nTerminal=false\nCategories=Development;Game;\nKeywords=pulsar;game;engine;installer;\nVersion="@
                + self.version@ + "\n"@);
        }
        out
    }

    /// The icon sizes installed into the hicolor theme.
    pub fn icon_sizes() -> (r: Vec<String>)
        ensures
            r@.len() == 6,
            forall|i: int| 0 <= i < 6 ==> r@[i]@ == icon_size_names()[i],
    {
        let mut sizes: Vec<String> = Vec::new();
        sizes.push(String::from_str("16x16"));
        sizes.push(String::from_str("32x32"));
        sizes.push(String::from_str("48x48"));
        sizes.push(String::from_str("64x64"));
        sizes.push(String::from_str("128x128"));
        sizes.push(String::from_str("256x256"));
        sizes
    }

    /// The per-size application icon directories under a theme base:
    /// `<base>/<size>/apps` for each size, in order.
    pub fn icon_dirs_from(icon_base: &str) -> (r: Vec<String>)
        ensures
            r@.len() == 6,
            forall|i: int|
                0 <= i < 6 ==> #[trigger] r@[i]@ == icon_base@ + "/"@ + icon_size_names()[i]
                    + "/apps"@,
    {
        let sizes = Self::icon_sizes();
        let mut dirs: Vec<String> = Vec::new();
        let mut i: usize = 0;
        while i < sizes.len()
            invariant
                sizes@.len() == 6,
                forall|k: int| 0 <= k < 6 ==> sizes@[k]@ == icon_size_names()[k],
                0 <= i <= 6,
                dirs@.len() == i,
                forall|j: int|
                    0 <= j < i ==> #[trigger] dirs@[j]@ == icon_base@ + "/"@ + icon_size_names()[j]
                        + "/apps"@,
            decreases sizes@.len() - i,
        {
            let with_size = join_path(icon_base, sizes[i].as_str());
            let full = join_path(with_size.as_str(), "apps");
            proof {
                assert(full@ =~= icon_base@ + "/"@ + icon_size_names()[i as int] + "/apps"@) by {
                    reveal_strlit("/");
                    reveal_strlit("apps");
                    reveal_strlit("/apps");
                }
            }
            dirs.push(full);
            i += 1;
        }
        dirs
    }

    /// The key/value pairs of the Linux uninstall metadata record, in
    /// serialization order: the common keys `app_name`, `version`,
    /// `install_path`, `install_date`, and the platform extras. On Linux
    /// the install path is the binary's path. Serialize them with
    /// [`crate::metadata::json_object`].
    pub fn uninstall_metadata_pairs(
        &self,
        desktop_entry: String,
        icon_dir: String,
        install_date: String,
    ) -> (r: Vec<(String, String)>)
        ensures
            r@.len() == 8,
            r@[0].0@ == "app_name"@ && r@[0].1@ == "Pulsar"@,
            r@[1].0@ == "version"@ && r@[1].1 == self.version,
            r@[2].0@ == "install_path"@ && r@[2].1 == self.binary_path,
            r@[3].0@ == "binary_path"@ && r@[3].1 == self.binary_path,
            r@[4].0@ == "desktop_entry"@ && r@[4].1 == desktop_entry,
            r@[5].0@ == "icon_dir"@ && r@[5].1 == icon_dir,
            r@[6].0@ == "system_install"@ && r@[6].1@ == (if self.use_system_directories {
                "true"@
            } else {
                "false"@
            }),
            r@[7].0@ == "install_date"@ && r@[7].1 == install_date,
    {
        let mut pairs: Vec<(String, String)> = Vec::new();
        pairs.push((String::from_str("app_name"), String::from_str("Pulsar")));
        pairs.push((String::from_str("version"), self.version.clone()));
        pairs.push((String::from_str("install_path"), self.binary_path.clone()));
        pairs.push((String::from_str("binary_path"), self.binary_path.clone()));
        pairs.push((String::from_str("desktop_entry"), desktop_entry));
        pairs.push((String::from_str("icon_dir"), icon_dir));
        let scope = if self.use_system_directories {
            String::from_str("true")
        } else {
            String::from_str("false")
        };
        pairs.push((String::from_str("system_install"), scope));
        pairs.push((String::from_str("install_date"), install_date));
        pairs
    }
}

} // verus!
