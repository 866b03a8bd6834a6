//! Per-tool installation configuration: the directory-name prefix, the remote
//! release source, and the three resolution strategies (platform naming,
//! download-URL construction, binary location) expressed as data so that each
//! choice is a verified function of its inputs.

use vstd::prelude::*;
use vstd::string::*;
use crate::text;

verus! {

/// Operating system of the host, as far as tool installation cares.
#[derive(Clone, Copy, PartialEq, Eq, Structural, Debug)]
pub enum Os {
    Linux,
    Mac,
    Windows,
}

/// Processor architecture of the host.
#[derive(Clone, Copy, PartialEq, Eq, Structural, Debug)]
pub enum Arch {
    Aarch64,
    X86,
    X8664,
}

/// One downloadable file attached to a remote release.
pub struct Asset {
    pub name: String,
    pub download_url: String,
}

/// How the platform-discriminator string for a download is chosen.
pub enum PlatformRule {
    /// The strategy was never configured; resolving it fails.
    NotConfigured,
    /// A fixed string regardless of host platform.
    Fixed(String),
    /// The `{os}-{arch}` naming convention used by the debug adapter's
    /// release archives (`linux-x64`, `osx-arm64`, `win-x86`, ...).
    OsArchNames,
}

/// How the download URL for a (version, platform) pair is built.
pub enum DownloadUrlRule {
    /// The strategy was never configured; resolving it fails.
    NotConfigured,
    /// Look the release's assets up and take the one named
    /// `{asset_base}-{platform}.{zip|tar.gz}`.
    GithubAsset { asset_base: String },
    /// A package registry URL built from the package name and the version.
    NugetPackage { package: String },
}

/// Where the tool's primary binary lives inside a version directory.
pub enum BinaryPathRule {
    /// The strategy was never configured; the path is empty.
    Unset,
    /// A file directly inside the version directory whose name depends on
    /// the host operating system.
    PerOsName { windows: String, other: String },
    /// A fixed path relative to the version directory.
    FixedRelative { relative: String },
}

/// Immutable description of one installable tool.
pub struct VersionDirConfig {
    /// Directory-name prefix and version-sort key.
    pub prefix: String,
    /// Remote release catalog the tool is published on.
    pub github_repo: String,
    /// Human-readable binary name, used in log and error text only.
    pub binary_name_for_logging: String,
    /// Strategy for locating the primary binary.
    pub binary_path_rule: BinaryPathRule,
    /// Strategy for building the download URL.
    pub download_url_rule: DownloadUrlRule,
    /// Strategy for naming the host platform.
    pub platform_rule: PlatformRule,
}

/// The `{os}-{arch}` discriminator for each supported host platform.
pub open spec fn os_arch_name(os: Os, arch: Arch) -> Seq<char> {
    match (os, arch) {
        (Os::Linux, Arch::Aarch64) => "linux-arm64"@,
        (Os::Linux, Arch::X86) => "linux-x86"@,
        (Os::Linux, Arch::X8664) => "linux-x64"@,
        (Os::Mac, Arch::Aarch64) => "osx-arm64"@,
        (Os::Mac, Arch::X86) => "osx-x86"@,
        (Os::Mac, Arch::X8664) => "osx-x64"@,
        (Os::Windows, Arch::Aarch64) => "win-arm64"@,
        (Os::Windows, Arch::X86) => "win-x86"@,
        (Os::Windows, Arch::X8664) => "win-x64"@,
    }
}

/// What `platform_string` returns for a rule and a host platform.
pub open spec fn platform_string_spec(rule: &PlatformRule, os: Os, arch: Arch) -> Result<
    Seq<char>,
    Seq<char>,
> {
    match rule {
        PlatformRule::NotConfigured => Err("not configured"@),
        PlatformRule::Fixed(value) => Ok(value@),
        PlatformRule::OsArchNames => Ok(os_arch_name(os, arch)),
    }
}

/// Resolves the platform-discriminator string for the host platform.
pub fn platform_string(rule: &PlatformRule, os: Os, arch: Arch) -> (r: Result<String, String>)
    ensures
        match r {
            Ok(s) => platform_string_spec(rule, os, arch) matches Ok(v) && v == s@,
            Err(e) => platform_string_spec(rule, os, arch) matches Err(v) && v == e@,
        },
{
    match rule {
        PlatformRule::NotConfigured => Err("not configured".to_owned()),
        PlatformRule::Fixed(value) => Ok(value.clone()),
        PlatformRule::OsArchNames => {
            let name: &str = match (os, arch) {
                (Os::Linux, Arch::Aarch64) => "linux-arm64",
                (Os::Linux, Arch::X86) => "linux-x86",
                (Os::Linux, Arch::X8664) => "linux-x64",
                (Os::Mac, Arch::Aarch64) => "osx-arm64",
                (Os::Mac, Arch::X86) => "osx-x86",
                (Os::Mac, Arch::X8664) => "osx-x64",
                (Os::Windows, Arch::Aarch64) => "win-arm64",
                (Os::Windows, Arch::X86) => "win-x86",
                (Os::Windows, Arch::X8664) => "win-x64",
            };
            Ok(name.to_owned())
        },
    }
}

/// The expected binary path for a rule, a version directory and a host OS.
pub open spec fn binary_path_spec(rule: &BinaryPathRule, version_dir: Seq<char>, os: Os) -> Seq<
    char,
> {
    match rule {
        BinaryPathRule::Unset => Seq::<char>::empty(),
        BinaryPathRule::PerOsName { windows, other } => {
            if os is Windows {
                version_dir + "/"@ + windows@
            } else {
                version_dir + "/"@ + other@
            }
        },
        BinaryPathRule::FixedRelative { relative } => version_dir + "/"@ + relative@,
    }
}

/// Computes the expected path of the tool's primary binary inside
/// `version_dir`.
pub fn binary_path(rule: &BinaryPathRule, version_dir: &str, os: Os) -> (r: String)
    ensures
        r@ == binary_path_spec(rule, version_dir@, os),
{
    match rule {
        BinaryPathRule::Unset => String::new(),
        BinaryPathRule::PerOsName { windows, other } => {
            if os == Os::Windows {
                text::concat3(version_dir, "/", windows.as_str())
            } else {
                text::concat3(version_dir, "/", other.as_str())
            }
        },
        BinaryPathRule::FixedRelative { relative } => {
            text::concat3(version_dir, "/", relative.as_str())
        },
    }
}

/// The registry download URL for a package at a version.
pub open spec fn nuget_url_spec(package: Seq<char>, version: Seq<char>) -> Seq<char> {
    "https://www.nuget.org/api/v2/package/"@ + package + "/"@ + version
}

/// Builds the package-registry URL for one version of a package.
pub fn nuget_download_url(package: &str, version: &str) -> (r: String)
    ensures
        r@ == nuget_url_spec(package@, version@),
{
    let mut s = "https://www.nuget.org/api/v2/package/".to_owned();
    s.append(package);
    s.append("/");
    s.append(version);
    s
}

/// Archive file extension used by the release assets on each platform:
/// Windows builds ship as `zip`, the rest as `tar.gz`.
pub open spec fn asset_extension(os: Os) -> Seq<char> {
    if os is Windows {
        "zip"@
    } else {
        "tar.gz"@
    }
}

/// The release-asset file name looked for: `{base}-{platform}.{extension}`.
pub open spec fn asset_name_spec(base: Seq<char>, platform: Seq<char>, os: Os) -> Seq<char> {
    base + "-"@ + platform + "."@ + asset_extension(os)
}

/// Builds the name of the release asset to download.
pub fn github_asset_name(base: &str, platform: &str, os: Os) -> (r: String)
    ensures
        r@ == asset_name_spec(base@, platform@, os),
{
    let mut s = base.to_owned();
    s.append("-");
    s.append(platform);
    s.append(".");
    if os == Os::Windows {
        s.append("zip");
    } else {
        s.append("tar.gz");
    }
    s
}

/// Finds the download URL of the first asset whose name is exactly `name`.
pub fn find_asset_url(assets: &Vec<Asset>, name: &str) -> (r: Option<String>)
    ensures
        match r {
            Some(u) => exists|i: int|
                0 <= i < assets@.len() && (#[trigger] assets@[i].name)@ == name@ && u@
                    == assets@[i].download_url@ && forall|j: int|
                    0 <= j < i ==> (#[trigger] assets@[j].name)@ != name@,
            None => forall|i: int|
                0 <= i < assets@.len() ==> (#[trigger] assets@[i].name)@ != name@,
        },
{
    let mut i: usize = 0;
    while i < assets.len()
        invariant
            i <= assets@.len(),
            forall|j: int| 0 <= j < i ==> (#[trigger] assets@[j].name)@ != name@,
        decreases assets@.len() - i,
    {
        if text::str_eq(assets[i].name.as_str(), name) {
            return Some(assets[i].download_url.clone());
        }
        i = i + 1;
    }
    None
}

/// The asset names joined with `", "`, oldest first, as listed in the
/// "no compatible asset" error.
pub open spec fn joined_asset_names(assets: Seq<Asset>) -> Seq<char>
    decreases assets.len(),
{
    if assets.len() == 0 {
        Seq::<char>::empty()
    } else if assets.len() == 1 {
        assets[0].name@
    } else {
        joined_asset_names(assets.drop_last()) + ", "@ + assets.last().name@
    }
}

/// Joins all asset names with `", "` for error text.
pub fn join_asset_names(assets: &Vec<Asset>) -> (r: String)
    ensures
        r@ == joined_asset_names(assets@),
{
    let mut s = String::new();
    let mut i: usize = 0;
    while i < assets.len()
        invariant
            i <= assets@.len(),
            s@ == joined_asset_names(assets@.take(i as int)),
        decreases assets@.len() - i,
    {
        if i > 0 {
            s.append(", ");
        }
        s.append(assets[i].name.as_str());
        proof {
            let t = assets@.take(i + 1);
            assert(t.drop_last() =~= assets@.take(i as int));
            assert(t.last() == assets@[i as int]);
        }
        i = i + 1;
    }
    proof {
        assert(assets@.take(assets@.len() as int) =~= assets@);
    }
    s
}

/// Builder assembling a [`VersionDirConfig`], mirroring the strategy slots a
/// tool definition fills in.
pub struct VersionConfigBuilder {
    pub prefix: String,
    pub github_repo: String,
    pub binary_name_for_logging: String,
    pub binary_path_rule: BinaryPathRule,
    pub download_url_rule: DownloadUrlRule,
    pub platform_rule: PlatformRule,
}

impl VersionConfigBuilder {
    /// A builder with every strategy still unconfigured.
    pub fn new(prefix: &str, github_repo: &str) -> (r: Self)
        ensures
            r.prefix@ == prefix@,
            r.github_repo@ == github_repo@,
            r.binary_name_for_logging@ == Seq::<char>::empty(),
            r.binary_path_rule is Unset,
            r.download_url_rule is NotConfigured,
            r.platform_rule is NotConfigured,
    {
        VersionConfigBuilder {
            prefix: prefix.to_owned(),
            github_repo: github_repo.to_owned(),
            binary_name_for_logging: String::new(),
            binary_path_rule: BinaryPathRule::Unset,
            download_url_rule: DownloadUrlRule::NotConfigured,
            platform_rule: PlatformRule::NotConfigured,
        }
    }

    /// Sets the binary-location strategy.
    pub fn get_binary_path(self, rule: BinaryPathRule) -> (r: Self)
        ensures
            r.binary_path_rule == rule,
            r.prefix == self.prefix,
            r.github_repo == self.github_repo,
            r.binary_name_for_logging == self.binary_name_for_logging,
            r.download_url_rule == self.download_url_rule,
            r.platform_rule == self.platform_rule,
    {
        VersionConfigBuilder { binary_path_rule: rule, ..self }
    }

    /// Sets the binary name used in log and error text.
    pub fn binary_name_for_logging(self, name: &str) -> (r: Self)
        ensures
            r.binary_name_for_logging@ == name@,
            r.prefix == self.prefix,
            r.github_repo == self.github_repo,
            r.binary_path_rule == self.binary_path_rule,
            r.download_url_rule == self.download_url_rule,
            r.platform_rule == self.platform_rule,
    {
        VersionConfigBuilder { binary_name_for_logging: name.to_owned(), ..self }
    }

    /// Sets the download-URL strategy.
    pub fn get_download_url(self, rule: DownloadUrlRule) -> (r: Self)
        ensures
            r.download_url_rule == rule,
            r.prefix == self.prefix,
            r.github_repo == self.github_repo,
            r.binary_name_for_logging == self.binary_name_for_logging,
            r.binary_path_rule == self.binary_path_rule,
            r.platform_rule == self.platform_rule,
    {
        VersionConfigBuilder { download_url_rule: rule, ..self }
    }

    /// Sets the platform-naming strategy.
    pub fn get_platform_string(self, rule: PlatformRule) -> (r: Self)
        ensures
            r.platform_rule == rule,
            r.prefix == self.prefix,
            r.github_repo == self.github_repo,
            r.binary_name_for_logging == self.binary_name_for_logging,
            r.binary_path_rule == self.binary_path_rule,
            r.download_url_rule == self.download_url_rule,
    {
        VersionConfigBuilder { platform_rule: rule, ..self }
    }

    /// Finishes the builder.
    pub fn build(self) -> (r: VersionDirConfig)
        ensures
            r.prefix == self.prefix,
            r.github_repo == self.github_repo,
            r.binary_name_for_logging == self.binary_name_for_logging,
            r.binary_path_rule == self.binary_path_rule,
            r.download_url_rule == self.download_url_rule,
            r.platform_rule == self.platform_rule,
    {
        VersionDirConfig {
            prefix: self.prefix,
            github_repo: self.github_repo,
            binary_name_for_logging: self.binary_name_for_logging,
            binary_path_rule: self.binary_path_rule,
            download_url_rule: self.download_url_rule,
            platform_rule: self.platform_rule,
        }
    }
}

/// Configuration of the .NET debug adapter: published on a release catalog,
/// one archive per `{os}-{arch}` platform, binary directly in the version
/// directory.
pub fn netcoredbg_config() -> (r: VersionDirConfig)
    ensures
        r.prefix@ == "netcoredbg"@,
        r.github_repo@ == "marcptrs/netcoredbg"@,
        r.binary_name_for_logging@ == "netcoredbg"@,
        r.platform_rule is OsArchNames,
        r.download_url_rule matches DownloadUrlRule::GithubAsset { asset_base } && asset_base@
            == "netcoredbg"@,
        r.binary_path_rule matches BinaryPathRule::PerOsName { windows, other } && windows@
            == "netcoredbg.exe"@ && other@ == "netcoredbg"@,
{
    VersionConfigBuilder::new("netcoredbg", "marcptrs/netcoredbg").get_platform_string(
        PlatformRule::OsArchNames,
    ).get_download_url(
        DownloadUrlRule::GithubAsset { asset_base: "netcoredbg".to_owned() },
    ).get_binary_path(
        BinaryPathRule::PerOsName {
            windows: "netcoredbg.exe".to_owned(),
            other: "netcoredbg".to_owned(),
        },
    ).binary_name_for_logging("netcoredbg").build()
}

/// Configuration of the C# language server: fetched from a package registry
/// by version, binary at a fixed relative path inside the package.
pub fn csharp_language_server_config() -> (r: VersionDirConfig)
    ensures
        r.prefix@ == "csharp-language-server"@,
        r.github_repo@ == "razzmatazz/csharp-language-server"@,
        r.binary_name_for_logging@ == "csharp-language-server"@,
        r.platform_rule matches PlatformRule::Fixed(p) && p@ == "nuget"@,
        r.download_url_rule matches DownloadUrlRule::NugetPackage { package } && package@
            == "csharp-ls"@,
        r.binary_path_rule matches BinaryPathRule::FixedRelative { relative } && relative@
            == "tools/net9.0/any/CSharpLanguageServer.dll"@,
{
    VersionConfigBuilder::new(
        "csharp-language-server",
        "razzmatazz/csharp-language-server",
    ).get_platform_string(PlatformRule::Fixed("nuget".to_owned())).get_download_url(
        DownloadUrlRule::NugetPackage { package: "csharp-ls".to_owned() },
    ).get_binary_path(
        BinaryPathRule::FixedRelative {
            relative: "tools/net9.0/any/CSharpLanguageServer.dll".to_owned(),
        },
    ).binary_name_for_logging("csharp-language-server").build()
}

} // verus!
