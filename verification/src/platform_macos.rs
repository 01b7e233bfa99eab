//! macOS platform support: a `.app` bundle with an `Info.plist`, installed
//! under `~/Applications` or `/Applications`.
//!
//! Bundle layout and file contents are computed exactly; copying the
//! binary, setting permission bits, and writing files are the caller's
//! part. Launch Services picks the bundle up by itself, so there is no
//! further registration.

use vstd::prelude::*;

use crate::detector::PlatformDetector;
use crate::detector::SystemRequirements;
use crate::error::InstallerResult;
use crate::platform_linux::dirs_home_dir;
use crate::text::ends_with;
use crate::text::lemma_concat_ends_with;

verus! {

/// macOS platform detector.
#[derive(Debug, Clone)]
pub struct MacOSDetector {
    /// The common detector, bound to this host.
    pub base: PlatformDetector,
}

impl MacOSDetector {
    /// Creates a macOS detector for the given host architecture.
    pub fn new(architecture: String) -> (r: MacOSDetector)
        ensures
            r.base.os_name@ == "macOS"@,
            r.base.architecture == architecture,
    {
        MacOSDetector { base: PlatformDetector::new(String::from_str("macOS"), architecture) }
    }

    /// The operating system's display name.
    pub fn os_name(&self) -> (r: String)
        ensures
            r@ == "macOS"@,
    {
        String::from_str("macOS")
    }

    /// The user's applications directory for a given home:
    /// `<home>/Applications`, with a fixed fallback when no home is known.
    pub fn user_applications_dir_from(home: Option<&String>) -> (r: String)
        ensures
            r@ == match home {
                Option::Some(h) => h@ + "/Applications"@,
                Option::None => "/Users/Default/Applications"@,
            },
            ends_with(r@, "/Applications"@),
    {
        let mut base = match home {
            Option::Some(h) => h.clone(),
            Option::None => String::from_str("/Users/Default"),
        };
        base.append("/Applications");
        proof {
            match home {
                Option::Some(h) => {
                    lemma_concat_ends_with(h@, "/Applications"@);
                },
                Option::None => {
                    lemma_concat_ends_with("/Users/Default"@, "/Applications"@);
                    assert(base@ =~= "/Users/Default/Applications"@) by {
                        reveal_strlit("/Users/Default");
                        reveal_strlit("/Applications");
                        reveal_strlit("/Users/Default/Applications");
                    }
                },
            }
        }
        base
    }

    /// The user's applications directory, `~/Applications`.
    pub fn get_user_applications_dir() -> (r: String)
        ensures
            ends_with(r@, "/Applications"@),
    {
        let home = dirs_home_dir();
        Self::user_applications_dir_from(home.as_ref())
    }

    /// The system applications directory, `/Applications`.
    pub fn get_system_applications_dir() -> (r: String)
        ensures
            r@ == "/Applications"@,
    {
        String::from_str("/Applications")
    }

    /// The default install path: the user applications directory's
    /// `Pulsar.app` bundle.
    pub fn default_install_path(&self) -> (r: String)
        ensures
            ends_with(r@, "/Applications/Pulsar.app"@),
    {
        let mut dir = Self::get_user_applications_dir();
        let ghost pre = dir@;
        dir.append("/Pulsar.app");
        proof {
            crate::text::lemma_ends_with_append(pre, "/Applications"@, "/Pulsar.app"@);
            assert("/Applications"@ + "/Pulsar.app"@ =~= "/Applications/Pulsar.app"@) by {
                reveal_strlit("/Applications");
                reveal_strlit("/Pulsar.app");
                reveal_strlit("/Applications/Pulsar.app");
            }
        }
        dir
    }

    /// Checks the host against the requirements, given the measured
    /// available space at the install path, as
    /// [`crate::detector::requirements_decision`] lays it out.
    pub fn check_requirements(&self, available: u64, requirements: &SystemRequirements) -> (r:
        InstallerResult<()>)
        ensures
            crate::detector::requirements_decision(
                available,
                self.base.architecture@,
                *requirements,
                r,
            ),
    {
        self.base.check_requirements_impl(available, requirements)
    }
}

impl crate::detector::SystemDetector for MacOSDetector {
    open spec fn spec_os_name(&self) -> Seq<char> {
        "macOS"@
    }

    open spec fn spec_architecture(&self) -> Seq<char> {
        self.base.architecture@
    }

    fn os_name(&self) -> (r: String) {
        MacOSDetector::os_name(self)
    }

    fn architecture(&self) -> (r: &String) {
        &self.base.architecture
    }

    fn check_requirements(&self, available: u64, requirements: &SystemRequirements) -> (r:
        InstallerResult<()>) {
        MacOSDetector::check_requirements(self, available, requirements)
    }

    fn default_install_path(&self) -> (r: String) {
        MacOSDetector::default_install_path(self)
    }

    fn validate_install_path(&self, path: &str, exists: bool, writable: bool) -> (r:
        InstallerResult<()>) {
        PlatformDetector::validate_path_impl(path, exists, writable)
    }
}

/// macOS installation operations: the bundle's layout and metadata.
#[derive(Debug, Clone)]
pub struct MacOSInstaller {
    /// The `.app` bundle's path.
    pub app_bundle_path: String,
    /// The installed version.
    pub version: String,
    /// The executable's name inside the bundle.
    pub binary_name: String,
}

impl MacOSInstaller {
    /// Creates a macOS installer for the given bundle.
    pub fn new(app_bundle_path: String, version: String, binary_name: String) -> (r:
        MacOSInstaller)
        ensures
            r.app_bundle_path == app_bundle_path,
            r.version == version,
            r.binary_name == binary_name,
    {
        MacOSInstaller { app_bundle_path, version, binary_name }
    }

    /// The bundle's `Contents` directory.
    pub fn contents_dir(&self) -> (r: String)
        ensures
            r@ == self.app_bundle_path@ + "/Contents"@,
    {
        let mut r = self.app_bundle_path.clone();
        r.append("/Contents");
        r
    }

    /// The bundle's `Contents/MacOS` directory, which holds the binary.
    pub fn macos_dir(&self) -> (r: String)
        ensures
            r@ == self.app_bundle_path@ + "/Contents/MacOS"@,
    {
        let mut r = self.app_bundle_path.clone();
        r.append("/Contents/MacOS");
        r
    }

    /// The bundle's `Contents/Resources` directory.
    pub fn resources_dir(&self) -> (r: String)
        ensures
            r@ == self.app_bundle_path@ + "/Contents/Resources"@,
    {
        let mut r = self.app_bundle_path.clone();
        r.append("/Contents/Resources");
        r
    }

    /// Where the binary lives inside the bundle.
    pub fn binary_dest(&self) -> (r: String)
        ensures
            r@ == self.app_bundle_path@ + "/Contents/MacOS/"@ + self.binary_name@,
    {
        let mut r = self.app_bundle_path.clone();
        r.append("/Contents/MacOS/");
        r.append(self.binary_name.as_str());
        proof {
            assert(r@ =~= self.app_bundle_path@ + "/Contents/MacOS/"@ + self.binary_name@);
        }
        r
    }

    /// The bundle's `Info.plist` path.
    pub fn info_plist_path(&self) -> (r: String)
        ensures
            r@ == self.app_bundle_path@ + "/Contents/Info.plist"@,
    {
        let mut r = self.app_bundle_path.clone();
        r.append("/Contents/Info.plist");
        r
    }

    /// The uninstall metadata record's path inside the bundle.
    pub fn metadata_path(&self) -> (r: String)
        ensures
            r@ == self.app_bundle_path@ + "/Contents/uninstall_metadata.json"@,
    {
        let mut r = self.app_bundle_path.clone();
        r.append("/Contents/uninstall_metadata.json");
        r
    }

    /// The `Info.plist` contents: the property list Launch Services needs
    /// to recognize the bundle, with the executable's name and the version
    /// spliced in.
    pub fn info_plist_content(&self) -> (r: String)
        ensures
            r@ == "<?xml version=\"1.0\" encoding=\"UTF-8\"?>\n<!DOCTYPE plist PUBLIC \"-//Apple//DTD PLIST 1.0//EN\" \"http://www.apple.com/DTDs/PropertyList-1.0.dtd\">\n<plist version=\"1.0\">\n<dict>\n\t<key>CFBundleIdentifier</key>\n\t<string>com.pulsarteam.pulsar</string>\n\t<key>CFBundleName</key>\n\t<string>Pulsar</string>\n\t<key>CFBundleDisplayName</key>\n\t<string>Pulsar</string>\n\t<key>CFBundleExecutable</key>\n\t<string>"@
                + self.binary_name@
                + "</string>\n\t<key>CFBundleVersion</key>\n\t<string>"@ + self.version@
                + "</string>\n\t<key>CFBundleShortVersionString</key>\n\t<string>"@ + self.version@
                + "</string>\n\t<key>CFBundlePackageType</key>\n\t<string>APPL</string>\n\t<key>CFBundleSignature</key>\n\t<string>????</string>\n\t<key>LSMinimumSystemVersion</key>\n\t<string>11.0</string>\n\t<key>NSHighResolutionCapable</key>\n\t<true/>\n</dict>\n</plist>\n"@,
    {
        let mut out = String::from_str(
            "<?xml version=\"1.0\" encoding=\"UTF-8\"?>\n<!DOCTYPE plist PUBLIC \"-//Apple//DTD PLIST 1.0//EN\" \"http://www.apple.com/DTDs/PropertyList-1.0.dtd\">\n<plist version=\"1.0\">\n<dict>\n\t<key>CFBundleIdentifier</key>\n\t<string>com.pulsarteam.pulsar</string>\n\t<key>CFBundleName</key>\n\t<string>Pulsar</string>\n\t<key>CFBundleDisplayName</key>\n\t<string>Pulsar</string>\n\t<key>CFBundleExecutable</key>\n\t<string>",
        );
        out.append(self.binary_name.as_str());
        out.append("</string>\n\t<key>CFBundleVersion</key>\n\t<string>");
        out.append(self.version.as_str());
        out.append("</string>\n\t<key>CFBundleShortVersionString</key>\n\t<string>");
        out.append(self.version.as_str());
        out.append(
            "</string>\n\t<key>CFBundlePackageType</key>\n\t<string>APPL</string>\n\t<key>CFBundleSignature</key>\n\t<string>????</string>\n\t<key>LSMinimumSystemVersion</key>\n\t<string>11.0</string>\n\t<key>NSHighResolutionCapable</key>\n\t<true/>\n</dict>\n</plist>\n",
        );
        proof {
            assert(out@
                =~= "<?xml version=\"1.0\" encoding=\"UTF-8\"?>\n<!DOCTYPE plist PUBLIC \"-//Apple//DTD PLIST 1.0//EN\" \"http://www.apple.com/DTDs/PropertyList-1.0.dtd\">\n<plist version=\"1.0\">\n<dict>\n\t<key>CFBundleIdentifier</key>\n\t<string>com.pulsarteam.pulsar</string>\n\t<key>CFBundleName</key>\n\t<string>Pulsar</string>\n\t<key>CFBundleDisplayName</key>\n\t<string>Pulsar</string>\n\t<key>CFBundleExecutable</key>\n\t<string>"@
                + self.binary_name@
                + "</string>\n\t<key>CFBundleVersion</key>\n\t<string>"@ + self.version@
                + "</string>\n\t<key>CFBundleShortVersionString</key>\n\t<string>"@ + self.version@
                + "</string>\n\t<key>CFBundlePackageType</key>\n\t<string>APPL</string>\n\t<key>CFBundleSignature</key>\n\t<string>????</string>\n\t<key>LSMinimumSystemVersion</key>\n\t<string>11.0</string>\n\t<key>NSHighResolutionCapable</key>\n\t<true/>\n</dict>\n</plist>\n"@);
        }
        out
    }

    /// The key/value pairs of the macOS uninstall metadata record, in
    /// serialization order: the common keys `app_name`, `version`,
    /// `install_path`, `install_date`, and the platform extras. On macOS
    /// the install path is the bundle's path. Serialize them with
    /// [`crate::metadata::json_object`].
    pub fn uninstall_metadata_pairs(&self, install_date: String) -> (r: Vec<(String, String)>)
        ensures
            r@.len() == 6,
            r@[0].0@ == "app_name"@ && r@[0].1@ == "Pulsar"@,
            r@[1].0@ == "bundle_identifier"@ && r@[1].1@ == "com.pulsarteam.pulsar"@,
            r@[2].0@ == "version"@ && r@[2].1 == self.version,
            r@[3].0@ == "install_path"@ && r@[3].1 == self.app_bundle_path,
            r@[4].0@ == "app_bundle_path"@ && r@[4].1 == self.app_bundle_path,
            r@[5].0@ == "install_date"@ && r@[5].1 == install_date,
    {
        let mut pairs: Vec<(String, String)> = Vec::new();
        pairs.push((String::from_str("app_name"), String::from_str("Pulsar")));
        pairs.push(
            (String::from_str("bundle_identifier"), String::from_str("com.pulsarteam.pulsar")),
        );
        pairs.push((String::from_str("version"), self.version.clone()));
        pairs.push((String::from_str("install_path"), self.app_bundle_path.clone()));
        pairs.push((String::from_str("app_bundle_path"), self.app_bundle_path.clone()));
        pairs.push((String::from_str("install_date"), install_date));
        pairs
    }
}

} // verus!
