//! Release metadata and the platform binary selection.
//!
//! A release is plain data: tag, name, and a list of assets. Fetching and
//! decoding releases from the network is the caller's part; choosing which
//! asset fits the host — the pattern search the installer is built around —
//! is decided here, exactly.

use vstd::prelude::*;

use crate::error::InstallerError;
use crate::error::InstallerResult;
use crate::text::contains_ci;
use crate::text::dec_string;
use crate::text::join_seqs;
use crate::text::join_strings;
use crate::text::seq_views;
use crate::text::str_contains_ci;
use crate::text::str_eq;
use crate::text::u64_to_string;

verus! {

/// One downloadable asset of a release.
#[derive(Debug, Clone)]
pub struct GitHubAsset {
    /// The asset's file name.
    pub name: String,
    /// Where to download it.
    pub browser_download_url: String,
    /// Its size in bytes.
    pub size: u64,
}

/// One release of the hosted project.
#[derive(Debug, Clone)]
pub struct GitHubRelease {
    /// The release's tag.
    pub tag_name: String,
    /// The release's display name.
    pub name: String,
    /// The release notes.
    pub body: String,
    /// The downloadable assets.
    pub assets: Vec<GitHubAsset>,
    /// Whether the release is a prerelease.
    pub prerelease: bool,
}

/// A releases endpoint: the repository the installer downloads from.
#[derive(Debug, Clone)]
pub struct GitHubReleases {
    /// Repository owner.
    pub owner: String,
    /// Repository name.
    pub repo: String,
}

impl GitHubReleases {
    /// Creates a client description for the given repository.
    pub fn new(owner: String, repo: String) -> (r: GitHubReleases)
        ensures
            r.owner == owner,
            r.repo == repo,
    {
        GitHubReleases { owner, repo }
    }

    /// The URL of the latest-release endpoint.
    pub fn latest_release_url(&self) -> (r: String)
        ensures
            r@ == "https://api.github.com/repos/"@ + self.owner@ + "/"@ + self.repo@
                + "/releases/latest"@,
    {
        let mut url = String::from_str("https://api.github.com/repos/");
        url.append(self.owner.as_str());
        url.append("/");
        url.append(self.repo.as_str());
        url.append("/releases/latest");
        proof {
            assert(url@ =~= "https://api.github.com/repos/"@ + self.owner@ + "/"@ + self.repo@
                + "/releases/latest"@);
        }
        url
    }

    /// The URL of the releases listing endpoint.
    pub fn releases_url(&self) -> (r: String)
        ensures
            r@ == "https://api.github.com/repos/"@ + self.owner@ + "/"@ + self.repo@
                + "/releases"@,
    {
        let mut url = String::from_str("https://api.github.com/repos/");
        url.append(self.owner.as_str());
        url.append("/");
        url.append(self.repo.as_str());
        url.append("/releases");
        proof {
            assert(url@ =~= "https://api.github.com/repos/"@ + self.owner@ + "/"@ + self.repo@
                + "/releases"@);
        }
        url
    }

    /// The URL of one page of the releases listing.
    pub fn releases_page_url(&self, page: u32, per_page: u32) -> (r: String)
        ensures
            r@ == "https://api.github.com/repos/"@ + self.owner@ + "/"@ + self.repo@
                + "/releases?page="@ + dec_string(page as int) + "&per_page="@ + dec_string(
                per_page as int,
            ),
    {
        let mut url = self.releases_url();
        url.append("?page=");
        let page_digits = u64_to_string(page as u64);
        url.append(page_digits.as_str());
        url.append("&per_page=");
        let per_page_digits = u64_to_string(per_page as u64);
        url.append(per_page_digits.as_str());
        proof {
            assert(url@ =~= "https://api.github.com/repos/"@ + self.owner@ + "/"@ + self.repo@
                + "/releases?page="@ + dec_string(page as int) + "&per_page="@ + dec_string(
                per_page as int,
            )) by {
                reveal_strlit("/releases");
                reveal_strlit("?page=");
                reveal_strlit("/releases?page=");
            }
        }
        url
    }
}

/// The asset name extension a platform's binaries use.
pub open spec fn asset_extension(os: Seq<char>) -> Seq<char> {
    if os == "windows"@ {
        "exe"@
    } else {
        "tar.gz"@
    }
}

/// Platform information for binary matching: the OS name and architecture
/// as given, and the asset extension that platform uses.
pub fn get_platform_info(os_name: &str, arch: &str) -> (r: (String, String, String))
    ensures
        r.0@ == os_name@,
        r.1@ == arch@,
        r.2@ == asset_extension(os_name@),
{
    let ext = if str_eq(os_name, "windows") {
        String::from_str("exe")
    } else {
        String::from_str("tar.gz")
    };
    (os_name.to_owned(), arch.to_owned(), ext)
}

/// The asset's name contains the pattern, up to ASCII case.
pub open spec fn asset_matches(a: GitHubAsset, pattern: Seq<char>) -> bool {
    contains_ci(a.name@, pattern)
}

/// The index of the first asset at or after `from` whose name matches the
/// pattern.
pub open spec fn first_match(assets: Seq<GitHubAsset>, pattern: Seq<char>, from: int) -> Option<
    int,
>
    decreases assets.len() - from,
{
    if from < 0 || from >= assets.len() {
        None
    } else if asset_matches(assets[from], pattern) {
        Some(from)
    } else {
        first_match(assets, pattern, from + 1)
    }
}

/// The first asset matching the first pattern, from `p` on, that matches
/// any asset.
pub open spec fn match_over_patterns(
    assets: Seq<GitHubAsset>,
    patterns: Seq<Seq<char>>,
    p: int,
) -> Option<int>
    decreases patterns.len() - p,
{
    if p < 0 || p >= patterns.len() {
        None
    } else {
        match first_match(assets, patterns[p], 0) {
            Some(i) => Some(i),
            None => match_over_patterns(assets, patterns, p + 1),
        }
    }
}

/// The asset's name mentions both the OS and the architecture, up to ASCII
/// case.
pub open spec fn asset_mentions_platform(a: GitHubAsset, os: Seq<char>, arch: Seq<char>) -> bool {
    contains_ci(a.name@, os) && contains_ci(a.name@, arch)
}

/// The index of the first asset at or after `from` that mentions both the
/// OS and the architecture.
pub open spec fn fallback_match(
    assets: Seq<GitHubAsset>,
    os: Seq<char>,
    arch: Seq<char>,
    from: int,
) -> Option<int>
    decreases assets.len() - from,
{
    if from < 0 || from >= assets.len() {
        None
    } else if asset_mentions_platform(assets[from], os, arch) {
        Some(from)
    } else {
        fallback_match(assets, os, arch, from + 1)
    }
}

/// The naming patterns tried, in order, for a platform binary.
pub open spec fn platform_patterns(os: Seq<char>, arch: Seq<char>, ext: Seq<char>) -> Seq<
    Seq<char>,
> {
    seq![
        "pulsar-"@ + os + "-"@ + arch + "."@ + ext,
        "pulsar_"@ + os + "_"@ + arch + ". "@ + ext,
        os + "-"@ + arch + "."@ + ext,
        os + "_"@ + arch + "."@ + ext,
    ]
}

/// The names of a release's assets, in order.
pub open spec fn asset_name_views(assets: Seq<GitHubAsset>) -> Seq<Seq<char>> {
    assets.map_values(|a: GitHubAsset| a.name@)
}

/// The message reported when no asset fits the platform: it names the
/// platform and lists the release's assets.
pub open spec fn no_asset_message(os: Seq<char>, arch: Seq<char>, assets: Seq<GitHubAsset>) -> Seq<
    char,
> {
    "No binary found for platform: "@ + os + "-"@ + arch + ". Available assets: "@ + join_seqs(
        asset_name_views(assets),
        ", "@,
    )
}

/// Which asset of a release the platform selects: the first asset matching
/// the earliest matching pattern; failing all patterns, the first asset
/// whose name mentions both the OS and the architecture.
pub open spec fn platform_asset_choice(
    assets: Seq<GitHubAsset>,
    os: Seq<char>,
    arch: Seq<char>,
    ext: Seq<char>,
) -> Option<int> {
    match match_over_patterns(assets, platform_patterns(os, arch, ext), 0) {
        Some(i) => Some(i),
        None => fallback_match(assets, os, arch, 0),
    }
}

/// The index of the first asset whose name contains `pattern`, up to ASCII
/// case.
fn find_matching_asset(assets: &Vec<GitHubAsset>, pattern: &str) -> (r: Option<usize>)
    ensures
        match r {
            Option::Some(i) => i < assets@.len() && first_match(assets@, pattern@, 0) == Some(
                i as int,
            ),
            Option::None => first_match(assets@, pattern@, 0) is None,
        },
{
    let mut j: usize = 0;
    while j < assets.len()
        invariant
            0 <= j <= assets@.len(),
            first_match(assets@, pattern@, 0) == first_match(assets@, pattern@, j as int),
        decreases assets@.len() - j,
    {
        if str_contains_ci(assets[j].name.as_str(), pattern) {
            assert(first_match(assets@, pattern@, j as int) == Some(j as int));
            return Some(j);
        }
        j += 1;
    }
    None
}

/// A field-by-field copy of an asset.
fn clone_asset(a: &GitHubAsset) -> (r: GitHubAsset)
    ensures
        r == *a,
{
    GitHubAsset {
        name: a.name.clone(),
        browser_download_url: a.browser_download_url.clone(),
        size: a.size,
    }
}

/// Finds the binary asset of a release for the given platform.
///
/// Asset names are tried against the platform's naming patterns in order;
/// the first pattern with a match selects its first matching asset. If no
/// pattern matches, the first asset naming both the OS and the architecture
/// is selected. With no such asset the release carries no binary for the
/// platform, and the search fails as a download error.
pub fn find_platform_asset(release: &GitHubRelease, os_name: &str, arch: &str, ext: &str) -> (r:
    InstallerResult<GitHubAsset>)
    ensures
        r is Ok <==> platform_asset_choice(release.assets@, os_name@, arch@, ext@) is Some,
        r matches Ok(a) ==> (platform_asset_choice(release.assets@, os_name@, arch@, ext@)
            matches Some(i) && a == release.assets@[i]),
        r matches Err(e) ==> (e matches InstallerError::Download(msg) && msg@
            == no_asset_message(os_name@, arch@, release.assets@)),
{
    let ghost spec_patterns = platform_patterns(os_name@, arch@, ext@);

    let mut p0 = String::from_str("pulsar-");
    p0.append(os_name);
    p0.append("-");
    p0.append(arch);
    p0.append(".");
    p0.append(ext);
    proof {
        assert(p0@ =~= spec_patterns[0]);
    }
    let mut p1 = String::from_str("pulsar_");
    p1.append(os_name);
    p1.append("_");
    p1.append(arch);
    p1.append(". ");
    p1.append(ext);
    proof {
        assert(p1@ =~= spec_patterns[1]);
    }
    let mut p2 = String::new();
    p2.append(os_name);
    p2.append("-");
    p2.append(arch);
    p2.append(".");
    p2.append(ext);
    proof {
        assert(p2@ =~= spec_patterns[2]);
    }
    let mut p3 = String::new();
    p3.append(os_name);
    p3.append("_");
    p3.append(arch);
    p3.append(".");
    p3.append(ext);
    proof {
        assert(p3@ =~= spec_patterns[3]);
    }
    let mut patterns: Vec<String> = Vec::new();
    patterns.push(p0);
    patterns.push(p1);
    patterns.push(p2);
    patterns.push(p3);
    proof {
        assert(patterns@.len() == spec_patterns.len());
        assert(forall|k: int| 0 <= k < 4 ==> patterns@[k]@ == spec_patterns[k]);
    }

    let mut p: usize = 0;
    while p < patterns.len()
        invariant
            patterns@.len() == 4,
            spec_patterns == platform_patterns(os_name@, arch@, ext@),
            forall|k: int| 0 <= k < 4 ==> patterns@[k]@ == spec_patterns[k],
            0 <= p <= 4,
            match_over_patterns(release.assets@, spec_patterns, 0) == match_over_patterns(
                release.assets@,
                spec_patterns,
                p as int,
            ),
        decreases patterns@.len() - p,
    {
        if let Some(i) = find_matching_asset(&release.assets, patterns[p].as_str()) {
            proof {
                assert(match_over_patterns(release.assets@, spec_patterns, p as int) == Some(
                    i as int,
                ));
            }
            return Ok(clone_asset(&release.assets[i]));
        }
        p += 1;
    }
    proof {
        assert(match_over_patterns(release.assets@, spec_patterns, 0) is None);
    }

    let mut j: usize = 0;
    while j < release.assets.len()
        invariant
            match_over_patterns(release.assets@, platform_patterns(os_name@, arch@, ext@), 0)
                is None,
            0 <= j <= release.assets@.len(),
            fallback_match(release.assets@, os_name@, arch@, 0) == fallback_match(
                release.assets@,
                os_name@,
                arch@,
                j as int,
            ),
        decreases release.assets@.len() - j,
    {
        let name = &release.assets[j].name;
        if str_contains_ci(name.as_str(), os_name) && str_contains_ci(name.as_str(), arch) {
            proof {
                assert(fallback_match(release.assets@, os_name@, arch@, j as int) == Some(
                    j as int,
                ));
            }
            return Ok(clone_asset(&release.assets[j]));
        }
        j += 1;
    }
    let mut names: Vec<String> = Vec::new();
    let mut k: usize = 0;
    while k < release.assets.len()
        invariant
            0 <= k <= release.assets@.len(),
            names@.len() == k,
            forall|m: int| 0 <= m < k ==> names@[m]@ == release.assets@[m].name@,
        decreases release.assets@.len() - k,
    {
        names.push(release.assets[k].name.clone());
        k += 1;
    }
    let mut msg = String::from_str("No binary found for platform: ");
    msg.append(os_name);
    msg.append("-");
    msg.append(arch);
    msg.append(". Available assets: ");
    let listed = join_strings(&names, ", ");
    msg.append(listed.as_str());
    proof {
        assert(seq_views(names@) =~= asset_name_views(release.assets@));
        assert(msg@ =~= no_asset_message(os_name@, arch@, release.assets@));
    }
    Err(InstallerError::Download(msg))
}

/// The directory a release is installed under, by platform: a fixed
/// location on Windows and macOS, a per-user data directory elsewhere.
/// Without a home directory no per-user location exists, and the choice
/// fails.
pub fn install_base_for(os_name: &str, home: Option<&String>) -> (r: InstallerResult<String>)
    ensures
        r is Ok <==> (os_name@ == "windows"@ || os_name@ == "macos"@ || home is Some),
        r matches Ok(p) ==> p@ == if os_name@ == "windows"@ {
            "C:\\Program Files\\Pulsar"@
        } else if os_name@ == "macos"@ {
            "/Applications/Pulsar"@
        } else {
            home.unwrap()@ + "/.local/share/pulsar"@
        },
        r matches Err(e) ==> (e matches InstallerError::Other(m) && m@
            == "Could not determine home directory"@),
{
    if str_eq(os_name, "windows") {
        Ok(String::from_str("C:\\Program Files\\Pulsar"))
    } else if str_eq(os_name, "macos") {
        Ok(String::from_str("/Applications/Pulsar"))
    } else {
        match home {
            Option::Some(h) => {
                let mut base = h.clone();
                base.append("/.local/share/pulsar");
                Ok(base)
            },
            Option::None => Err(
                InstallerError::Other(String::from_str("Could not determine home directory")),
            ),
        }
    }
}

/// Where one release's version goes under the install base.
pub fn install_dir_for(base: &str, version: &str) -> (r: String)
    ensures
        r@ == base@ + "/"@ + version@,
{
    crate::text::join_path(base, version)
}

/// The sum of the assets' sizes.
pub open spec fn assets_size_sum(assets: Seq<GitHubAsset>) -> int
    decreases assets.len(),
{
    if assets.len() == 0 {
        0
    } else {
        assets_size_sum(assets.drop_last()) + assets.last().size as int
    }
}

/// The combined size of a batch of assets, the denominator of aggregate
/// download progress. Exactly the sum of the sizes when it fits in a `u64`;
/// `None` when it does not.
pub fn total_assets_size(assets: &Vec<GitHubAsset>) -> (r: Option<u64>)
    ensures
        r is Some <==> assets_size_sum(assets@) <= u64::MAX,
        r matches Some(v) ==> v == assets_size_sum(assets@),
{
    let mut total: u64 = 0;
    let mut i: usize = 0;
    while i < assets.len()
        invariant
            0 <= i <= assets@.len(),
            assets_size_sum(assets@.take(i as int)) <= u64::MAX,
            total == assets_size_sum(assets@.take(i as int)),
        decreases assets@.len() - i,
    {
        proof {
            assert(assets@.take(i + 1).drop_last() =~= assets@.take(i as int));
            assert(assets@.take(i + 1).last() == assets@[i as int]);
        }
        total = match total.checked_add(assets[i].size) {
            Some(v) => v,
            None => {
                proof {
                    lemma_assets_size_sum_monotone(assets@, i + 1);
                }
                return None;
            },
        };
        i += 1;
    }
    proof {
        assert(assets@.take(assets@.len() as int) =~= assets@);
    }
    Some(total)
}

proof fn lemma_assets_size_sum_monotone(assets: Seq<GitHubAsset>, k: int)
    requires
        0 <= k <= assets.len(),
    ensures
        assets_size_sum(assets) >= assets_size_sum(assets.take(k)),
    decreases assets.len() - k,
{
    if k < assets.len() {
        lemma_assets_size_sum_monotone(assets, k + 1);
        assert(assets.take(k + 1).drop_last() =~= assets.take(k));
        assert(assets.take(k + 1).last() == assets[k]);
    } else {
        assert(assets.take(k) =~= assets);
    }
}

} // verus!
