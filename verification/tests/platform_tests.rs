use pulsar_installer::config::default_selection;
use pulsar_installer::config::ComponentInfo;
use pulsar_installer::config::ConfigManager;
use pulsar_installer::config::InstallerConfig;
use pulsar_installer::detector::SystemDetector;
use pulsar_installer::detector::get_system_detector;
use pulsar_installer::detector::PlatformDetector;
use pulsar_installer::detector::SystemRequirements;
use pulsar_installer::error::InstallerError;
use pulsar_installer::flow::Page;
use pulsar_installer::flow::ReleaseBrowser;
use pulsar_installer::flow::ReleaseInfo;
use pulsar_installer::metadata::json_object;
use pulsar_installer::metadata::UninstallMetadata;
use pulsar_installer::metadata::Uninstaller;
use pulsar_installer::platform_linux::user_bin_dir_from;
use pulsar_installer::platform_linux::user_data_dir_from;
use pulsar_installer::platform_linux::LinuxDetector;
use pulsar_installer::platform_linux::LinuxInstaller;
use pulsar_installer::platform_macos::MacOSDetector;
use pulsar_installer::platform_macos::MacOSInstaller;
use pulsar_installer::release::find_platform_asset;
use pulsar_installer::release::install_base_for;
use pulsar_installer::release::install_dir_for;
use pulsar_installer::release::get_platform_info;
use pulsar_installer::release::total_assets_size;
use pulsar_installer::release::GitHubAsset;
use pulsar_installer::release::GitHubRelease;
use pulsar_installer::release::GitHubReleases;

fn catalog() -> Vec<ComponentInfo> {
    vec![
        ComponentInfo::new(
            String::from("core"),
            String::from("Core Engine"),
            String::from("The engine runtime"),
            850,
            true,
        ),
        ComponentInfo::new(
            String::from("editor"),
            String::from("Editor"),
            String::from("Visual editor"),
            650,
            false,
        ),
        ComponentInfo::new(
            String::from("docs"),
            String::from("Documentation"),
            String::from("Manuals"),
            120,
            false,
        ),
    ]
}

#[test]
fn test_platform_info() {
    let (os, arch, ext) = get_platform_info("linux", "x86_64");
    assert!(!os.is_empty());
    assert!(!arch.is_empty());
    assert!(!ext.is_empty());
}

#[test]
fn platform_extension_by_os() {
    assert_eq!(get_platform_info("windows", "x86_64").2, "exe");
    assert_eq!(get_platform_info("linux", "x86_64").2, "tar.gz");
    assert_eq!(get_platform_info("macos", "aarch64").2, "tar.gz");
}

#[test]
fn default_requirements_values() {
    let req = SystemRequirements::default_requirements();
    assert_eq!(req.min_disk_space, 2 * 1024 * 1024 * 1024);
    assert_eq!(req.min_ram_mb, Some(4096));
    assert_eq!(req.architectures, vec!["x86_64", "aarch64"]);
    assert_eq!(req.os_versions.len(), 3);
}

#[test]
fn requirements_check_space_before_architecture() {
    let detector = get_system_detector(String::from("Linux"), String::from("x86_64"));
    let req = SystemRequirements::default_requirements();
    // Space short: the space failure surfaces even though the arch is fine.
    match detector.check_requirements_impl(req.min_disk_space - 1, &req) {
        Err(InstallerError::InsufficientSpace { needed, available }) => {
            assert_eq!(needed, req.min_disk_space);
            assert_eq!(available, req.min_disk_space - 1);
        },
        other => panic!("expected insufficient space, got {:?}", other),
    }
    // Space fine, architecture unsupported: the reason names the
    // architecture and the supported list.
    let odd = PlatformDetector::new(String::from("Linux"), String::from("riscv64"));
    match odd.check_requirements_impl(req.min_disk_space, &req) {
        Err(InstallerError::RequirementsNotMet(reason)) => assert_eq!(
            reason,
            "Architecture riscv64 is not supported. Supported: x86_64, aarch64"
        ),
        other => panic!("expected requirements not met, got {:?}", other),
    }
    // Both fine.
    assert!(detector.check_requirements_impl(req.min_disk_space, &req).is_ok());
}

#[test]
fn path_validation_decisions() {
    assert!(PlatformDetector::validate_path_impl("/opt/pulsar", false, false).is_ok());
    assert!(PlatformDetector::validate_path_impl("/opt/pulsar", true, true).is_ok());
    match PlatformDetector::validate_path_impl("relative", false, true) {
        Err(InstallerError::InvalidPath(p)) => assert_eq!(p, "relative"),
        other => panic!("expected invalid path, got {:?}", other),
    }
    assert!(PlatformDetector::validate_path_impl("/readonly", true, false).is_err());
}

#[test]
fn total_size_sums_selected_catalog_entries() {
    let mut config = InstallerConfig::new(String::from("/opt/pulsar"));
    config.set_selected_components(vec![
        String::from("core"),
        String::from("docs"),
        String::from("missing"),
    ]);
    config.calculate_total_size(&catalog());
    assert_eq!(config.total_size(), 850 + 120);
}

#[test]
fn deselecting_required_component_is_a_no_op() {
    let parts = catalog();
    let mut config = InstallerConfig::new(String::from("/opt/pulsar"));
    config.set_selected_components(default_selection(&parts));
    assert!(config.is_component_selected("core"));
    config.deselect_component(&parts, "core");
    assert!(config.is_component_selected("core"), "required component stays selected");
    config.select_component("editor");
    config.select_component("editor");
    assert_eq!(config.selected_components().len(), 2, "selecting twice keeps one entry");
    config.deselect_component(&parts, "editor");
    assert!(!config.is_component_selected("editor"));
}

#[test]
fn validation_requires_selection_and_absolute_path() {
    let config = InstallerConfig::new(String::from("/opt/pulsar"));
    assert!(matches!(config.validate(), Err(InstallerError::Config(_))));
    let mut config = InstallerConfig::new(String::from("relative"));
    config.set_selected_components(vec![String::from("core")]);
    match config.validate() {
        Err(InstallerError::InvalidPath(p)) => assert_eq!(p, "relative"),
        other => panic!("expected invalid path, got {:?}", other),
    }
    config.set_install_path(String::from("/opt/pulsar"));
    assert!(config.validate().is_ok());
    assert!(config.save().is_ok());
    assert!(InstallerConfig::load().is_err());
}

fn release_with(assets: &[&str]) -> GitHubRelease {
    GitHubRelease {
        tag_name: String::from("v1.0.0"),
        name: String::from("Release 1.0.0"),
        body: String::new(),
        assets: assets
            .iter()
            .enumerate()
            .map(|(i, name)| GitHubAsset {
                name: String::from(*name),
                browser_download_url: format!("https://example.invalid/{}", name),
                size: 100 + i as u64,
            })
            .collect(),
        prerelease: false,
    }
}

#[test]
fn platform_asset_prefers_the_standard_pattern() {
    let release = release_with(&["README.md", "pulsar-linux-x86_64.tar.gz", "pulsar-macos.tar.gz"]);
    let asset = find_platform_asset(&release, "linux", "x86_64", "tar.gz").unwrap();
    assert_eq!(asset.name, "pulsar-linux-x86_64.tar.gz");
}

#[test]
fn platform_asset_matching_ignores_case() {
    let release = release_with(&["Pulsar-Linux-X86_64.TAR.GZ"]);
    let asset = find_platform_asset(&release, "linux", "x86_64", "tar.gz").unwrap();
    assert_eq!(asset.name, "Pulsar-Linux-X86_64.TAR.GZ");
}

#[test]
fn platform_asset_falls_back_to_os_and_arch_mentions() {
    let release = release_with(&["engine-bundle-linux-build-x86_64-full.bin"]);
    let asset = find_platform_asset(&release, "linux", "x86_64", "tar.gz").unwrap();
    assert_eq!(asset.name, "engine-bundle-linux-build-x86_64-full.bin");
}

#[test]
fn platform_asset_missing_is_a_download_error() {
    let release = release_with(&["pulsar-windows-x86_64.exe"]);
    match find_platform_asset(&release, "linux", "aarch64", "tar.gz") {
        Err(InstallerError::Download(msg)) => assert_eq!(
            msg,
            "No binary found for platform: linux-aarch64. Available assets: pulsar-windows-x86_64.exe"
        ),
        other => panic!("expected a download error, got {:?}", other),
    }
}

#[test]
fn release_urls() {
    let gh = GitHubReleases::new(String::from("pulsar-engine"), String::from("pulsar"));
    assert_eq!(
        gh.latest_release_url(),
        "https://api.github.com/repos/pulsar-engine/pulsar/releases/latest"
    );
    assert_eq!(
        gh.releases_url(),
        "https://api.github.com/repos/pulsar-engine/pulsar/releases"
    );
    assert_eq!(
        gh.releases_page_url(2, 30),
        "https://api.github.com/repos/pulsar-engine/pulsar/releases?page=2&per_page=30"
    );
}

fn detector_summary<D: SystemDetector>(detector: &D) -> (String, String) {
    (detector.os_name(), detector.architecture().clone())
}

#[test]
fn detectors_answer_through_the_trait() {
    let linux = LinuxDetector::new(String::from("x86_64"));
    assert_eq!(
        detector_summary(&linux),
        (String::from("Linux"), String::from("x86_64"))
    );
    let macos = MacOSDetector::new(String::from("aarch64"));
    assert_eq!(
        detector_summary(&macos),
        (String::from("macOS"), String::from("aarch64"))
    );
    let req = SystemRequirements::default_requirements();
    assert!(SystemDetector::check_requirements(&linux, req.min_disk_space, &req).is_ok());
    assert!(SystemDetector::validate_install_path(&macos, "/opt/x", false, false).is_ok());
    assert!(SystemDetector::validate_install_path(&linux, "rel", false, false).is_err());
}

fn chosen<C: ConfigManager>(config: &C) -> usize {
    config.selected_components().len()
}

#[test]
fn config_manager_trait_surface() {
    let mut config = InstallerConfig::new(String::from("/opt/pulsar"));
    ConfigManager::set_selected_components(&mut config, vec![String::from("core")]);
    assert_eq!(chosen(&config), 1);
    assert!(ConfigManager::is_component_selected(&config, "core"));
    assert_eq!(ConfigManager::total_size(&config), 0);
    assert_eq!(ConfigManager::install_path(&config), "/opt/pulsar");
    assert!(<InstallerConfig as ConfigManager>::load().is_err());
}

#[test]
fn install_locations_by_platform() {
    assert_eq!(
        install_base_for("windows", None).unwrap(),
        "C:\\Program Files\\Pulsar"
    );
    assert_eq!(install_base_for("macos", None).unwrap(), "/Applications/Pulsar");
    assert_eq!(
        install_base_for("linux", Some(&String::from("/home/me"))).unwrap(),
        "/home/me/.local/share/pulsar"
    );
    match install_base_for("linux", None) {
        Err(InstallerError::Other(m)) => assert_eq!(m, "Could not determine home directory"),
        other => panic!("expected an error without a home, got {:?}", other),
    }
    assert_eq!(install_dir_for("/opt/pulsar", "v1.0.0"), "/opt/pulsar/v1.0.0");
}

#[test]
fn asset_batch_size_saturation() {
    let release = release_with(&["a", "b"]);
    assert_eq!(total_assets_size(&release.assets), Some(201));
    let huge = vec![
        GitHubAsset {
            name: String::from("x"),
            browser_download_url: String::new(),
            size: u64::MAX,
        },
        GitHubAsset { name: String::from("y"), browser_download_url: String::new(), size: 1 },
    ];
    assert_eq!(total_assets_size(&huge), None);
}

#[test]
fn release_browser_paging() {
    let mut b = ReleaseBrowser::new();
    assert_eq!(b.current_releases_page, 0);
    b.start_fetch();
    assert!(b.loading_releases);
    assert_eq!(b.current_releases_page, 1);
    let page: Vec<ReleaseInfo> = (0..30)
        .map(|i| ReleaseInfo {
            tag_name: format!("v0.{}", i),
            name: format!("Release 0.{}", i),
            selected: false,
        })
        .collect();
    b.finish_fetch(Ok(page));
    assert!(!b.loading_releases);
    assert!(b.has_more_releases, "a full page means more may follow");
    assert!(b.start_load_more());
    assert_eq!(b.current_releases_page, 2);
    assert!(!b.start_load_more(), "no concurrent fetches");
    b.finish_load_more(Err(InstallerError::Download(String::from("offline"))));
    assert_eq!(b.current_releases_page, 1, "a failed page load reverts the counter");
    assert_eq!(b.releases.len(), 30);
    assert!(b.start_load_more());
    b.finish_load_more(Ok(vec![ReleaseInfo {
        tag_name: String::from("v1.0"),
        name: String::from("Release 1.0"),
        selected: false,
    }]));
    assert_eq!(b.releases.len(), 31);
    assert!(!b.has_more_releases, "a short page ends the listing");
}

#[test]
fn release_browser_toggle_and_selection() {
    let mut b = ReleaseBrowser::new();
    b.start_fetch();
    b.finish_fetch(Ok(vec![
        ReleaseInfo { tag_name: String::from("v1"), name: String::from("One"), selected: false },
        ReleaseInfo { tag_name: String::from("v2"), name: String::from("Two"), selected: false },
    ]));
    b.toggle_release(1);
    assert!(!b.releases[0].selected);
    assert!(b.releases[1].selected);
    b.toggle_release(7); // out of range: nothing changes
    let picked = b.selected_releases();
    assert_eq!(picked.len(), 1);
    assert_eq!(picked[0].tag_name, "v2");
    b.toggle_release(1);
    assert!(b.selected_releases().is_empty());
    assert_eq!(Page::Welcome, Page::Welcome);
}

#[test]
fn metadata_record_serializes_exactly() {
    let m = UninstallMetadata::new(
        String::from("Pulsar"),
        String::from("1.2.3"),
        String::from("/opt/pulsar"),
        String::from("2024-01-01T00:00:00+00:00"),
    );
    assert_eq!(
        m.to_json(),
        "{\"app_name\":\"Pulsar\",\"version\":\"1.2.3\",\"install_path\":\"/opt/pulsar\",\"install_date\":\"2024-01-01T00:00:00+00:00\"}"
    );
}

#[test]
fn json_writer_escapes_specials() {
    let pairs = vec![(String::from("path"), String::from("C:\\Program \"Files\"\nPulsar"))];
    assert_eq!(
        json_object(&pairs),
        "{\"path\":\"C:\\\\Program \\\"Files\\\"\\nPulsar\"}"
    );
    let control = vec![(String::from("k"), String::from("\u{1}"))];
    assert_eq!(json_object(&control), "{\"k\":\"\\u0001\"}");
}

#[test]
fn uninstaller_round_trips_through_metadata_json() {
    let m = UninstallMetadata::new(
        String::from("Pulsar"),
        String::from("1.2.3"),
        String::from("/opt/pulsar"),
        String::from("2024-01-01T00:00:00+00:00"),
    );
    let u = Uninstaller::from_json_str(&m.to_json()).unwrap();
    assert_eq!(u.install_path, "/opt/pulsar");
    assert_eq!(u.version, "1.2.3");
}

#[test]
fn uninstaller_field_decisions() {
    let u = Uninstaller::from_fields(Some(String::from("/opt/p")), None).unwrap();
    assert_eq!(u.version, "unknown");
    assert!(matches!(
        Uninstaller::from_fields(None, Some(String::from("1.0"))),
        Err(InstallerError::Config(_))
    ));
    assert!(matches!(
        Uninstaller::from_json_str("{not json"),
        Err(InstallerError::Json(_))
    ));
    assert!(matches!(
        Uninstaller::from_json_str("{\"version\":\"1.0\"}"),
        Err(InstallerError::Config(_))
    ));
    // A version recorded as the empty string reads back unchanged.
    let kept = Uninstaller::from_json_str(
        "{\"install_path\":\"/opt/p\",\"version\":\"\"}",
    )
    .unwrap();
    assert_eq!(kept.version, "");
    // A non-string field counts as absent.
    let fallback = Uninstaller::from_json_str(
        "{\"install_path\":\"/opt/p\",\"version\":7}",
    )
    .unwrap();
    assert_eq!(fallback.version, "unknown");
    assert!(Uninstaller::new(String::from("/usr/bin/pulsar"), String::from("1.0"))
        .is_system_install());
    assert!(!Uninstaller::new(String::from("/home/me/.local/bin/pulsar"), String::from("1.0"))
        .is_system_install());
}

#[test]
fn linux_directory_conventions() {
    assert_eq!(
        user_bin_dir_from(Some(&String::from("/home/me"))),
        "/home/me/.local/bin"
    );
    assert_eq!(user_bin_dir_from(None), "/home/default/.local/bin");
    let detector = LinuxDetector::new(String::from("x86_64"));
    assert_eq!(detector.os_name(), "Linux");
    assert!(detector.default_install_path().ends_with("/.local/bin/pulsar"));
    let system = LinuxInstaller::new(String::from("1.0.0"), true);
    assert_eq!(system.binary_path, "/usr/bin/pulsar");
    assert_eq!(system.desktop_entry_dir(), "/usr/share/applications");
    assert_eq!(system.icon_base_dir(), "/usr/share/icons/hicolor");
    assert_eq!(system.desktop_entry_name(), "pulsar.desktop");
}

#[test]
fn linux_data_dir_precedence() {
    assert_eq!(
        user_data_dir_from(Some(&String::from("/home/me/.local/share")), None),
        "/home/me/.local/share"
    );
    assert_eq!(
        user_data_dir_from(None, Some(&String::from("/home/me"))),
        "/home/me/.local/share"
    );
    assert_eq!(user_data_dir_from(None, None), "/home/default/.local/share");
}

#[test]
fn linux_desktop_entry_content() {
    let installer = LinuxInstaller::new(String::from("1.0.0"), true);
    assert_eq!(
        installer.desktop_entry_content(),
        "[Desktop Entry]\nType=Application\nName=Pulsar\nComment=Pulsar Game Engine Installer\nExec=/usr/bin/pulsar\nIcon=pulsar\nTerminal=false\nCategories=Development;Game;\nKeywords=pulsar;game;engine;installer;\nVersion=1.0.0\n"
    );
}

#[test]
fn linux_icon_layout_and_metadata() {
    let sizes = LinuxInstaller::icon_sizes();
    assert_eq!(sizes, vec!["16x16", "32x32", "48x48", "64x64", "128x128", "256x256"]);
    let dirs = LinuxInstaller::icon_dirs_from("/usr/share/icons/hicolor");
    assert_eq!(dirs[0], "/usr/share/icons/hicolor/16x16/apps");
    assert_eq!(dirs[5], "/usr/share/icons/hicolor/256x256/apps");
    let installer = LinuxInstaller::new(String::from("1.0.0"), true);
    let pairs = installer.uninstall_metadata_pairs(
        String::from("/usr/share/applications/pulsar.desktop"),
        String::from("/usr/share/icons/hicolor"),
        String::from("2024-01-01T00:00:00+00:00"),
    );
    let json = json_object(&pairs);
    assert_eq!(
        json,
        "{\"app_name\":\"Pulsar\",\"version\":\"1.0.0\",\"install_path\":\"/usr/bin/pulsar\",\"binary_path\":\"/usr/bin/pulsar\",\"desktop_entry\":\"/usr/share/applications/pulsar.desktop\",\"icon_dir\":\"/usr/share/icons/hicolor\",\"system_install\":\"true\",\"install_date\":\"2024-01-01T00:00:00+00:00\"}"
    );
    // The record drives the symmetric removal: reading it back yields the
    // recorded install path and version.
    let back = Uninstaller::from_json_str(&json).unwrap();
    assert_eq!(back.install_path, "/usr/bin/pulsar");
    assert_eq!(back.version, "1.0.0");
    assert!(back.is_system_install());
}

#[test]
fn macos_bundle_layout() {
    let detector = MacOSDetector::new(String::from("aarch64"));
    assert_eq!(detector.os_name(), "macOS");
    assert_eq!(MacOSDetector::get_system_applications_dir(), "/Applications");
    assert_eq!(
        MacOSDetector::user_applications_dir_from(Some(&String::from("/Users/me"))),
        "/Users/me/Applications"
    );
    assert!(detector.default_install_path().ends_with("/Applications/Pulsar.app"));
    let installer = MacOSInstaller::new(
        String::from("/Applications/Pulsar.app"),
        String::from("1.0.0"),
        String::from("pulsar"),
    );
    assert_eq!(installer.contents_dir(), "/Applications/Pulsar.app/Contents");
    assert_eq!(installer.macos_dir(), "/Applications/Pulsar.app/Contents/MacOS");
    assert_eq!(installer.resources_dir(), "/Applications/Pulsar.app/Contents/Resources");
    assert_eq!(installer.binary_dest(), "/Applications/Pulsar.app/Contents/MacOS/pulsar");
    assert_eq!(installer.info_plist_path(), "/Applications/Pulsar.app/Contents/Info.plist");
    assert_eq!(
        installer.metadata_path(),
        "/Applications/Pulsar.app/Contents/uninstall_metadata.json"
    );
}

#[test]
fn macos_info_plist_content() {
    let installer = MacOSInstaller::new(
        String::from("/Applications/Pulsar.app"),
        String::from("2.5.0"),
        String::from("pulsar"),
    );
    let plist = installer.info_plist_content();
    assert!(plist.starts_with("<?xml version=\"1.0\" encoding=\"UTF-8\"?>"));
    assert!(plist.contains("<key>CFBundleIdentifier</key>\n\t<string>com.pulsarteam.pulsar</string>"));
    assert!(plist.contains("<key>CFBundleExecutable</key>\n\t<string>pulsar</string>"));
    assert!(plist.contains("<key>CFBundleVersion</key>\n\t<string>2.5.0</string>"));
    assert!(plist.contains("<key>NSHighResolutionCapable</key>\n\t<true/>"));
    let pairs = installer.uninstall_metadata_pairs(String::from("2024-01-01T00:00:00+00:00"));
    assert_eq!(pairs.len(), 6);
    assert_eq!(pairs[1].1, "com.pulsarteam.pulsar");
    assert_eq!(pairs[3].0, "install_path");
    assert_eq!(pairs[3].1, "/Applications/Pulsar.app");
    // The record drives the symmetric removal through the common key.
    let back = Uninstaller::from_json_str(&json_object(&pairs)).unwrap();
    assert_eq!(back.install_path, "/Applications/Pulsar.app");
    assert_eq!(back.version, "2.5.0");
}
