//! The version-directory resolver: decides which versioned local directory a
//! tool should run from, reconciling local state against the remote release
//! catalog, and orchestrates download, extraction, validation, polling and
//! pruning when no usable local copy exists.
//!
//! Like the fetch engine it is a step machine: every filesystem or network
//! effect goes out as an [`Action`] and comes back as an [`Event`], so the
//! resolution policy itself is verified.

use vstd::prelude::*;
use vstd::string::*;
use crate::effects::{Action, DirEntry, Event, InstallStatus};
use crate::engine::{engine_step_rel, EngineState, FetchEngine};
use crate::path_utils::normalize_spec;
use crate::text;
use crate::text::{has_prefix, lex_lt};
use crate::version_config::{
    asset_name_spec, binary_path, binary_path_spec, find_asset_url, github_asset_name,
    join_asset_names, joined_asset_names, nuget_download_url, nuget_url_spec, platform_string,
    platform_string_spec, Arch, DownloadUrlRule, Os, VersionDirConfig,
};

verus! {

broadcast use vstd::string::group_string_axioms;

/// The newest version installed locally: among the directory entries whose
/// name is `{prefix}-{version}` and which are directories, the
/// lexicographically greatest version suffix.
pub open spec fn latest_local_spec(entries: Seq<DirEntry>, prefix: Seq<char>) -> Option<Seq<char>>
    decreases entries.len(),
{
    if entries.len() == 0 {
        None::<Seq<char>>
    } else {
        let rest = latest_local_spec(entries.drop_last(), prefix);
        let e = entries.last();
        if e.is_dir && has_prefix(e.name@, prefix + "-"@) {
            let v = e.name@.skip((prefix + "-"@).len() as int);
            match rest {
                None => Some(v),
                Some(cur) => if lex_lt(cur, v) {
                    Some(v)
                } else {
                    Some(cur)
                },
            }
        } else {
            rest
        }
    }
}

/// Scans the working directory's children for installed versions.
pub fn latest_local_version(entries: &Vec<DirEntry>, prefix: &str) -> (r: Option<String>)
    ensures
        r.deep_view() == latest_local_spec(entries@, prefix@),
{
    let dash_prefix = text::concat2(prefix, "-");
    let dplen = dash_prefix.as_str().unicode_len();
    let mut best: Option<String> = None;
    let mut i: usize = 0;
    while i < entries.len()
        invariant
            dash_prefix@ == prefix@ + "-"@,
            dplen == dash_prefix@.len(),
            i <= entries@.len(),
            best.deep_view() == latest_local_spec(entries@.take(i as int), prefix@),
        decreases entries@.len() - i,
    {
        let e = &entries[i];
        if e.is_dir && text::str_has_prefix(e.name.as_str(), dash_prefix.as_str()) {
            let v = text::tail_from(e.name.as_str(), dplen);
            best = match best {
                None => Some(v),
                Some(cur) => {
                    if text::lex_less(cur.as_str(), v.as_str()) {
                        Some(v)
                    } else {
                        Some(cur)
                    }
                },
            };
        }
        proof {
            let t = entries@.take(i + 1);
            assert(t.drop_last() =~= entries@.take(i as int));
            assert(t.last() == entries@[i as int]);
        }
        i = i + 1;
    }
    proof {
        assert(entries@.take(entries@.len() as int) =~= entries@);
    }
    best
}

/// A release tag with one optional leading `v` removed.
pub open spec fn strip_v_spec(tag: Seq<char>) -> Seq<char> {
    if has_prefix(tag, "v"@) {
        tag.skip("v"@.len() as int)
    } else {
        tag
    }
}

/// Strips one optional leading `v` from a release tag.
pub fn strip_v_prefix(tag: &str) -> (r: String)
    ensures
        r@ == strip_v_spec(tag@),
{
    if text::str_has_prefix(tag, "v") {
        proof {
            reveal_strlit("v");
        }
        text::tail_from(tag, 1)
    } else {
        tag.to_owned()
    }
}

/// The effective version to use: the remote version when it is
/// lexicographically greater than the newest local one or no local version
/// exists, otherwise the local version; nothing when neither side has one.
/// The comparison is deliberately plain string ordering, not semantic
/// versioning, so "9.0" outranks "10.0".
pub open spec fn selected_version(local: Option<Seq<char>>, remote: Option<Seq<char>>) -> Option<
    Seq<char>,
> {
    match remote {
        Some(r) => match local {
            Some(l) => if lex_lt(l, r) {
                Some(r)
            } else {
                Some(l)
            },
            None => Some(r),
        },
        None => local,
    }
}

/// The error reported when no version can be found anywhere.
pub open spec fn no_version_msg(prefix: Seq<char>) -> Seq<char> {
    "No "@ + prefix + " version found locally and cannot check GitHub for updates"@
}

/// Picks the effective version, failing only when neither a local nor a
/// remote version exists.
pub fn select_version(latest_local: Option<String>, remote_version: Option<String>, prefix: &str)
    -> (r: Result<String, String>)
    ensures
        r matches Ok(v) ==> selected_version(latest_local.deep_view(), remote_version.deep_view())
            == Some(v@),
        r matches Err(e) ==> latest_local is None && remote_version is None && e@
            == no_version_msg(prefix@),
        r is Err <==> (latest_local is None && remote_version is None),
{
    match remote_version {
        Some(remote) => {
            match latest_local {
                Some(local) => {
                    if text::lex_less(local.as_str(), remote.as_str()) {
                        Ok(remote)
                    } else {
                        Ok(local)
                    }
                },
                None => Ok(remote),
            }
        },
        None => {
            match latest_local {
                Some(local) => Ok(local),
                None => {
                    let mut msg = "No ".to_owned();
                    msg.append(prefix);
                    msg.append(" version found locally and cannot check GitHub for updates");
                    Err(msg)
                },
            }
        },
    }
}

/// The sibling entries deleted after a successful install: every entry
/// whose name has the `{prefix}-` pattern except the newly installed
/// version directory, in listing order.  (Deletion is best-effort: an entry
/// that is not a directory simply fails to delete and is ignored.)
pub open spec fn prune_model(entries: Seq<DirEntry>, prefix: Seq<char>, keep: Seq<char>) -> Seq<
    Seq<char>,
>
    decreases entries.len(),
{
    if entries.len() == 0 {
        Seq::<Seq<char>>::empty()
    } else {
        let rest = prune_model(entries.drop_last(), prefix, keep);
        let e = entries.last();
        if has_prefix(e.name@, prefix + "-"@) && e.name@ != keep {
            rest.push(e.name@)
        } else {
            rest
        }
    }
}

/// The fatal error when the host platform cannot be named.
pub open spec fn platform_fail_msg(prefix: Seq<char>, e: Seq<char>) -> Seq<char> {
    prefix + ": failed to determine platform: "@ + e
}

/// The fatal error when the version directory cannot be created.
pub open spec fn create_dir_fail_msg(vdir: Seq<char>, e: Seq<char>) -> Seq<char> {
    "failed to create version directory "@ + vdir + ": "@ + e
}

/// The fatal error when the release catalog cannot supply assets.
pub open spec fn fetch_release_fail_msg(base: Seq<char>, e: Seq<char>) -> Seq<char> {
    "failed to fetch "@ + base + " release: "@ + e
}

/// The fatal error when no release asset matches the platform.
pub open spec fn no_asset_msg(base: Seq<char>, platform: Seq<char>, names: Seq<char>) -> Seq<
    char,
> {
    "no compatible "@ + base + " asset found for platform '"@ + platform + "'. available: ["@
        + names + "]"@
}

/// The fatal error when the binary never appears after extraction.
pub open spec fn not_found_msg(prefix: Seq<char>) -> Seq<char> {
    "failed to download "@ + prefix + ": binary not found after extraction"@
}

/// The fatal error when the binary's executable header is wrong.
pub open spec fn bad_header_msg(binary_name: Seq<char>) -> Seq<char> {
    binary_name + " binary has invalid PE header signature"@
}

/// How many times the filesystem is polled for the binary after extraction.
pub const MAX_POLLS: usize = 50;

/// Where resolution stands between two events.
pub enum ResolveState {
    /// The cached directory's existence check is out.
    CacheCheck { cached: String },
    /// The working-directory listing is out.
    Scanning,
    /// The release-catalog query is out.
    AwaitRelease { latest_local: Option<String> },
    /// The effective version is chosen; its directory check is out.
    HaveVersion { version: String },
    /// The version directory exists; the binary check is out.
    ValidateExisting { version: String },
    /// Creation of the version directory is out.
    CreatingDir { version: String, platform: String },
    /// The release-asset query for the download URL is out.
    AwaitAssets { version: String, platform: String },
    /// The fetch engine is running.
    Fetching { version: String, engine: FetchEngine },
    /// A post-extraction existence poll for the binary is out; `polls`
    /// counts the checks issued so far.
    Polling { version: String, polls: usize },
    /// The read of the binary's first two bytes is out.
    HeaderCheck { version: String },
    /// The final working-directory listing for pruning is out.
    Pruning { version: String },
    /// Resolution succeeded with this absolute version-directory path.
    Done { path: String },
    /// Resolution failed with this error.
    Failed { error: String },
}

/// One resolution in progress, for one tool on one host.
pub struct Resolver {
    pub config: VersionDirConfig,
    pub os: Os,
    pub arch: Arch,
    pub cwd: String,
    pub state: ResolveState,
}

impl Resolver {
    /// The version directory name for `version`.
    pub open spec fn vdir(self, version: Seq<char>) -> Seq<char> {
        self.config.prefix@ + "-"@ + version
    }

    /// The expected binary path inside the version directory.
    pub open spec fn binpath(self, version: Seq<char>) -> Seq<char> {
        binary_path_spec(&self.config.binary_path_rule, self.vdir(version), self.os)
    }

    /// The version directory as an absolute path.
    pub open spec fn abs_vdir(self, version: Seq<char>) -> Seq<char> {
        normalize_spec(self.vdir(version), self.cwd@, self.os)
    }

    /// Structural soundness of a reachable resolver.
    pub open spec fn inv(self) -> bool {
        match self.state {
            ResolveState::Polling { polls, .. } => 1 <= polls <= MAX_POLLS,
            ResolveState::Fetching { engine, .. } => engine.inv(),
            ResolveState::AwaitAssets { .. } => self.config.download_url_rule is GithubAsset,
            _ => true,
        }
    }

    /// The event kind resolution is waiting for.
    pub open spec fn wants(self, ev: Event) -> bool {
        match (self.state, ev) {
            (ResolveState::CacheCheck { .. }, Event::IsDir(_)) => true,
            (ResolveState::Scanning, Event::Listing(_)) => true,
            (ResolveState::AwaitRelease { .. }, Event::Release(_)) => true,
            (ResolveState::HaveVersion { .. }, Event::IsDir(_)) => true,
            (ResolveState::ValidateExisting { .. }, Event::IsFile(_)) => true,
            (ResolveState::CreatingDir { .. }, Event::Completed(_)) => true,
            (ResolveState::AwaitAssets { .. }, Event::Assets(_)) => true,
            (ResolveState::Fetching { engine, .. }, e) => engine.wants(e),
            (ResolveState::Polling { .. }, Event::IsFile(_)) => true,
            (ResolveState::HeaderCheck { .. }, Event::Header(_)) => true,
            (ResolveState::Pruning { .. }, Event::Listing(_)) => true,
            _ => false,
        }
    }
}

/// The resolver's identity never changes across a step.
pub open spec fn resolver_frame(pre: Resolver, post: Resolver) -> bool {
    &&& post.config == pre.config
    &&& post.os == pre.os
    &&& post.arch == pre.arch
    &&& post.cwd@ == pre.cwd@
}

/// Beginning an installation of `version`: resolve the platform name (fatal
/// on failure), report downloading, and create the version directory.  When
/// `removed` holds, a removal of the corrupted version directory leads the
/// actions.
pub open spec fn install_begin_rel(
    pre: Resolver,
    version: Seq<char>,
    removed: bool,
    post: Resolver,
    out: Seq<Action>,
) -> bool {
    let lead: int = if removed {
        1
    } else {
        0
    };
    &&& (removed ==> out.len() >= 1 && (out[0] matches Action::RemoveDir(p) && p@ == pre.vdir(
        version,
    )))
    &&& match platform_string_spec(&pre.config.platform_rule, pre.os, pre.arch) {
        Err(e) => {
            &&& post.state matches ResolveState::Failed { error } && error@ == platform_fail_msg(
                pre.config.prefix@,
                e,
            )
            &&& out.len() == lead
        },
        Ok(plat) => {
            &&& post.state matches ResolveState::CreatingDir { version: v, platform: p } && v@
                == version && p@ == plat
            &&& out.len() == lead + 2
            &&& out[lead] matches Action::SetStatus(s) && s is Downloading
            &&& out[lead + 1] matches Action::CreateDir(d) && d@ == pre.vdir(version)
        },
    }
}

/// Handing the download over to a fresh fetch engine at `url`, with the
/// resolver's three-attempt allowance.
pub open spec fn engine_started_rel(
    pre: Resolver,
    version: Seq<char>,
    url: Seq<char>,
    post: Resolver,
    out: Seq<Action>,
) -> bool {
    &&& post.state matches ResolveState::Fetching { version: v, engine } && v@ == version && ({
        &&& engine.url@ == url
        &&& engine.dest@ == pre.vdir(version)
        &&& engine.max_attempts == 3
        &&& engine.state matches EngineState::AwaitDownload { attempt } && attempt == 1
    })
    &&& out.len() == 1
    &&& out[0] matches Action::Download(u) && u@ == url
}

/// The resolver's transition relation: what one step does for each state
/// and event.
pub open spec fn resolver_step_rel(
    pre: Resolver,
    ev: Event,
    post: Resolver,
    out: Seq<Action>,
) -> bool {
    &&& resolver_frame(pre, post)
    &&& match (pre.state, ev) {
        (ResolveState::CacheCheck { cached }, Event::IsDir(b)) => {
            if b {
                &&& post.state matches ResolveState::Done { path } && path@ == cached@
                &&& out.len() == 0
            } else {
                &&& post.state is Scanning
                &&& out.len() == 1
                &&& out[0] is ListDir
            }
        },
        (ResolveState::Scanning, Event::Listing(entries)) => {
            &&& post.state matches ResolveState::AwaitRelease { latest_local }
                && latest_local.deep_view() == latest_local_spec(entries@, pre.config.prefix@)
            &&& out.len() == 2
            &&& out[0] matches Action::SetStatus(s) && s is CheckingForUpdate
            &&& out[1] matches Action::QueryRelease(repo) && repo@ == pre.config.github_repo@
        },
        (ResolveState::AwaitRelease { latest_local }, Event::Release(tag)) => {
            let remote = match tag {
                Some(t) => Some(strip_v_spec(t@)),
                None => None::<Seq<char>>,
            };
            match selected_version(latest_local.deep_view(), remote) {
                None => {
                    &&& post.state matches ResolveState::Failed { error } && error@
                        == no_version_msg(pre.config.prefix@)
                    &&& out.len() == 0
                },
                Some(v) => {
                    &&& post.state matches ResolveState::HaveVersion { version } && version@ == v
                    &&& out.len() == 1
                    &&& out[0] matches Action::CheckDir(d) && d@ == pre.vdir(v)
                },
            }
        },
        (ResolveState::HaveVersion { version }, Event::IsDir(b)) => {
            if b {
                &&& post.state matches ResolveState::ValidateExisting { version: v } && v@
                    == version@
                &&& out.len() == 1
                &&& out[0] matches Action::CheckFile(f) && f@ == pre.binpath(version@)
            } else {
                install_begin_rel(pre, version@, false, post, out)
            }
        },
        (ResolveState::ValidateExisting { version }, Event::IsFile(b)) => {
            if b {
                &&& post.state matches ResolveState::Done { path } && path@ == pre.abs_vdir(
                    version@,
                )
                &&& out.len() == 1
                &&& out[0] matches Action::SetStatus(s) && s is Idle
            } else {
                install_begin_rel(pre, version@, true, post, out)
            }
        },
        (ResolveState::CreatingDir { version, platform }, Event::Completed(res)) => {
            match res {
                Err(e) => {
                    &&& post.state matches ResolveState::Failed { error } && error@
                        == create_dir_fail_msg(pre.vdir(version@), e@)
                    &&& out.len() == 0
                },
                Ok(_) => {
                    match pre.config.download_url_rule {
                        DownloadUrlRule::NotConfigured => {
                            &&& post.state matches ResolveState::Failed { error } && error@
                                == "not configured"@
                            &&& out.len() == 0
                        },
                        DownloadUrlRule::NugetPackage { package } => engine_started_rel(
                            pre,
                            version@,
                            nuget_url_spec(package@, version@),
                            post,
                            out,
                        ),
                        DownloadUrlRule::GithubAsset { .. } => {
                            &&& post.state matches ResolveState::AwaitAssets {
                                version: v,
                                platform: p,
                            } && v@ == version@ && p@ == platform@
                            &&& out.len() == 1
                            &&& out[0] matches Action::QueryAssets(repo) && repo@
                                == pre.config.github_repo@
                        },
                    }
                },
            }
        },
        (ResolveState::AwaitAssets { version, platform }, Event::Assets(res)) => {
            match pre.config.download_url_rule {
                DownloadUrlRule::GithubAsset { asset_base } => {
                    match res {
                        Err(e) => {
                            &&& post.state matches ResolveState::Failed { error } && error@
                                == fetch_release_fail_msg(asset_base@, e@)
                            &&& out.len() == 0
                        },
                        Ok(assets) => {
                            let want = asset_name_spec(asset_base@, platform@, pre.os);
                            if exists|i: int|
                                0 <= i < assets@.len() && (#[trigger] assets@[i].name)@ == want {
                                exists|i: int|
                                    {
                                        &&& 0 <= i < assets@.len()
                                        &&& (#[trigger] assets@[i].name)@ == want
                                        &&& forall|j: int|
                                            0 <= j < i ==> (#[trigger] assets@[j].name)@ != want
                                        &&& engine_started_rel(
                                            pre,
                                            version@,
                                            assets@[i].download_url@,
                                            post,
                                            out,
                                        )
                                    }
                            } else {
                                &&& post.state matches ResolveState::Failed { error } && error@
                                    == no_asset_msg(
                                    asset_base@,
                                    platform@,
                                    joined_asset_names(assets@),
                                )
                                &&& out.len() == 0
                            }
                        },
                    }
                },
                _ => false,
            }
        },
        (ResolveState::Fetching { version, engine }, ev2) => {
            exists|e2: FetchEngine, eout: Seq<Action>|
                {
                    &&& #[trigger] engine_step_rel(engine, ev2, e2, eout)
                    &&& e2.inv()
                    &&& match e2.state {
                        EngineState::Done => {
                            &&& post.state matches ResolveState::Polling { version: v, polls }
                                && v@ == version@ && polls == 1
                            &&& out.len() == eout.len() + 1
                            &&& out.take(eout.len() as int) == eout
                            &&& out.last() matches Action::CheckFile(f) && f@ == pre.binpath(
                                version@,
                            )
                        },
                        EngineState::Failed { error } => {
                            &&& post.state matches ResolveState::Failed { error: e } && e@
                                == error@
                            &&& out == eout
                        },
                        _ => {
                            &&& post.state matches ResolveState::Fetching {
                                version: v,
                                engine: eng2,
                            } && v@ == version@ && eng2 == e2
                            &&& out == eout
                        },
                    }
                }
        },
        (ResolveState::Polling { version, polls }, Event::IsFile(b)) => {
            if b {
                if pre.os is Windows {
                    &&& post.state matches ResolveState::HeaderCheck { version: v } && v@
                        == version@
                    &&& out.len() == 1
                    &&& out[0] matches Action::ReadHeader(f) && f@ == pre.binpath(version@)
                } else {
                    &&& post.state matches ResolveState::Pruning { version: v } && v@ == version@
                    &&& out.len() == 2
                    &&& out[0] matches Action::MakeExecutable(f) && f@ == pre.binpath(version@)
                    &&& out[1] is ListDir
                }
            } else {
                let lead: int = if polls % 5 == 0 {
                    1
                } else {
                    0
                };
                &&& (polls % 5 == 0 ==> out.len() >= 1 && (out[0]
                    matches Action::LogPollProgress { poll, max } && poll == polls && max
                    == MAX_POLLS))
                &&& if polls < MAX_POLLS {
                    &&& post.state matches ResolveState::Polling { version: v, polls: p } && v@
                        == version@ && p == polls + 1
                    &&& out.len() == lead + 1
                    &&& out[lead] matches Action::CheckFile(f) && f@ == pre.binpath(version@)
                } else {
                    &&& post.state matches ResolveState::Failed { error } && error@
                        == not_found_msg(pre.config.prefix@)
                    &&& out.len() == lead + 1
                    &&& out[lead] matches Action::RemoveDir(d) && d@ == pre.vdir(version@)
                }
            }
        },
        (ResolveState::HeaderCheck { version }, Event::Header(h)) => {
            match h {
                Some(header) => {
                    if header.0 == 0x4d && header.1 == 0x5a {
                        &&& post.state matches ResolveState::Pruning { version: v } && v@
                            == version@
                        &&& out.len() == 1
                        &&& out[0] is ListDir
                    } else {
                        &&& post.state matches ResolveState::Failed { error } && error@
                            == bad_header_msg(pre.config.binary_name_for_logging@)
                        &&& out.len() == 1
                        &&& out[0] matches Action::RemoveDir(d) && d@ == pre.vdir(version@)
                    }
                },
                None => {
                    &&& post.state matches ResolveState::Pruning { version: v } && v@ == version@
                    &&& out.len() == 1
                    &&& out[0] is ListDir
                },
            }
        },
        (ResolveState::Pruning { version }, Event::Listing(entries)) => {
            let removes = prune_model(entries@, pre.config.prefix@, pre.vdir(version@));
            &&& post.state matches ResolveState::Done { path } && path@ == pre.abs_vdir(version@)
            &&& out.len() == removes.len() + 1
            &&& forall|k: int|
                0 <= k < removes.len() ==> ((#[trigger] out[k]) matches Action::RemoveDir(d) && d@
                    == removes[k])
            &&& out.last() matches Action::SetStatus(s) && s is Idle
        },
        _ => false,
    }
}

/// Process-lifetime memoization of the last successfully resolved absolute
/// version-directory path.
pub struct BinaryManager {
    pub cached_version_dir: Option<String>,
}

impl BinaryManager {
    /// A manager with an empty cache.
    pub fn new() -> (r: Self)
        ensures
            r.cached_version_dir is None,
    {
        BinaryManager { cached_version_dir: None }
    }

    /// Starts one resolution.  With a cached path the first action is the
    /// cache's existence check and nothing else; without one it is the
    /// working-directory scan.
    pub fn start_resolve(&self, config: VersionDirConfig, os: Os, arch: Arch, cwd: String) -> (r: (
        Resolver,
        Vec<Action>,
    ))
        ensures
            r.0.config == config,
            r.0.os == os,
            r.0.arch == arch,
            r.0.cwd@ == cwd@,
            r.0.inv(),
            match self.cached_version_dir {
                Some(p) => {
                    &&& r.0.state matches ResolveState::CacheCheck { cached } && cached@ == p@
                    &&& r.1@.len() == 1
                    &&& r.1@[0] matches Action::CheckDir(d) && d@ == p@
                },
                None => {
                    &&& r.0.state is Scanning
                    &&& r.1@.len() == 1
                    &&& r.1@[0] is ListDir
                },
            },
    {
        let mut out: Vec<Action> = Vec::new();
        let state = match &self.cached_version_dir {
            Some(p) => {
                out.push(Action::CheckDir(p.clone()));
                ResolveState::CacheCheck { cached: p.clone() }
            },
            None => {
                out.push(Action::ListDir);
                ResolveState::Scanning
            },
        };
        (Resolver { config, os, arch, cwd, state }, out)
    }

    /// Records a finished resolution: a success populates the cache with the
    /// resolved absolute path, anything else leaves it untouched.
    pub fn finish(&mut self, r: &Resolver)
        ensures
            r.state matches ResolveState::Done { path } ==> (final(self).cached_version_dir
                matches Some(p) && p@ == path@),
            !(r.state is Done) ==> final(self).cached_version_dir == old(self).cached_version_dir,
    {
        match &r.state {
            ResolveState::Done { path } => {
                self.cached_version_dir = Some(path.clone());
            },
            _ => {},
        }
    }
}

impl Resolver {
    /// One step of resolution.
    pub fn step(self, ev: Event) -> (r: (Resolver, Vec<Action>))
        requires
            self.inv(),
            self.wants(ev),
        ensures
            resolver_step_rel(self, ev, r.0, r.1@),
            r.0.inv(),
    {
        let ghost pre = self;
        let Resolver { config, os, arch, cwd, state } = self;
        match (state, ev) {
            (ResolveState::CacheCheck { cached }, Event::IsDir(b)) => {
                if b {
                    (
                        Resolver { config, os, arch, cwd, state: ResolveState::Done { path: cached } },
                        Vec::new(),
                    )
                } else {
                    let mut out: Vec<Action> = Vec::new();
                    out.push(Action::ListDir);
                    (Resolver { config, os, arch, cwd, state: ResolveState::Scanning }, out)
                }
            },
            (ResolveState::Scanning, Event::Listing(entries)) => {
                let latest_local = latest_local_version(&entries, config.prefix.as_str());
                let mut out: Vec<Action> = Vec::new();
                out.push(Action::SetStatus(InstallStatus::CheckingForUpdate));
                out.push(Action::QueryRelease(config.github_repo.clone()));
                (
                    Resolver {
                        config,
                        os,
                        arch,
                        cwd,
                        state: ResolveState::AwaitRelease { latest_local },
                    },
                    out,
                )
            },
            (ResolveState::AwaitRelease { latest_local }, Event::Release(tag)) => {
                let remote: Option<String> = match tag {
                    Some(t) => Some(strip_v_prefix(t.as_str())),
                    None => None,
                };
                match select_version(latest_local, remote, config.prefix.as_str()) {
                    Err(error) => (
                        Resolver { config, os, arch, cwd, state: ResolveState::Failed { error } },
                        Vec::new(),
                    ),
                    Ok(version) => {
                        let vdir = text::concat3(config.prefix.as_str(), "-", version.as_str());
                        let mut out: Vec<Action> = Vec::new();
                        out.push(Action::CheckDir(vdir));
                        (
                            Resolver {
                                config,
                                os,
                                arch,
                                cwd,
                                state: ResolveState::HaveVersion { version },
                            },
                            out,
                        )
                    },
                }
            },
            (ResolveState::HaveVersion { version }, Event::IsDir(b)) => {
                if b {
                    let vdir = text::concat3(config.prefix.as_str(), "-", version.as_str());
                    let bin = binary_path(&config.binary_path_rule, vdir.as_str(), os);
                    let mut out: Vec<Action> = Vec::new();
                    out.push(Action::CheckFile(bin));
                    (
                        Resolver {
                            config,
                            os,
                            arch,
                            cwd,
                            state: ResolveState::ValidateExisting { version },
                        },
                        out,
                    )
                } else {
                    install_begin(config, os, arch, cwd, version, false)
                }
            },
            (ResolveState::ValidateExisting { version }, Event::IsFile(b)) => {
                if b {
                    let vdir = text::concat3(config.prefix.as_str(), "-", version.as_str());
                    let path = crate::path_utils::normalize_path_to_absolute(
                        vdir.as_str(),
                        cwd.as_str(),
                        os,
                    );
                    let mut out: Vec<Action> = Vec::new();
                    out.push(Action::SetStatus(InstallStatus::Idle));
                    (
                        Resolver { config, os, arch, cwd, state: ResolveState::Done { path } },
                        out,
                    )
                } else {
                    install_begin(config, os, arch, cwd, version, true)
                }
            },
            (ResolveState::CreatingDir { version, platform }, Event::Completed(res)) => {
                match res {
                    Err(e) => {
                        let vdir = text::concat3(config.prefix.as_str(), "-", version.as_str());
                        let mut error = "failed to create version directory ".to_owned();
                        error.append(vdir.as_str());
                        error.append(": ");
                        error.append(e.as_str());
                        (
                            Resolver {
                                config,
                                os,
                                arch,
                                cwd,
                                state: ResolveState::Failed { error },
                            },
                            Vec::new(),
                        )
                    },
                    Ok(_) => {
                        match &config.download_url_rule {
                            DownloadUrlRule::NotConfigured => (
                                Resolver {
                                    config,
                                    os,
                                    arch,
                                    cwd,
                                    state: ResolveState::Failed {
                                        error: "not configured".to_owned(),
                                    },
                                },
                                Vec::new(),
                            ),
                            DownloadUrlRule::NugetPackage { package } => {
                                let url = nuget_download_url(package.as_str(), version.as_str());
                                let vdir = text::concat3(
                                    config.prefix.as_str(),
                                    "-",
                                    version.as_str(),
                                );
                                let (engine, out) = FetchEngine::fetch_and_extract(
                                    url.as_str(),
                                    vdir.as_str(),
                                    3,
                                );
                                (
                                    Resolver {
                                        config,
                                        os,
                                        arch,
                                        cwd,
                                        state: ResolveState::Fetching { version, engine },
                                    },
                                    out,
                                )
                            },
                            DownloadUrlRule::GithubAsset { .. } => {
                                let mut out: Vec<Action> = Vec::new();
                                out.push(Action::QueryAssets(config.github_repo.clone()));
                                (
                                    Resolver {
                                        config,
                                        os,
                                        arch,
                                        cwd,
                                        state: ResolveState::AwaitAssets { version, platform },
                                    },
                                    out,
                                )
                            },
                        }
                    },
                }
            },
            (ResolveState::AwaitAssets { version, platform }, Event::Assets(res)) => {
                match &config.download_url_rule {
                    DownloadUrlRule::GithubAsset { asset_base } => {
                        match res {
                            Err(e) => {
                                let mut error = "failed to fetch ".to_owned();
                                error.append(asset_base.as_str());
                                error.append(" release: ");
                                error.append(e.as_str());
                                (
                                    Resolver {
                                        config,
                                        os,
                                        arch,
                                        cwd,
                                        state: ResolveState::Failed { error },
                                    },
                                    Vec::new(),
                                )
                            },
                            Ok(assets) => {
                                let want = github_asset_name(
                                    asset_base.as_str(),
                                    platform.as_str(),
                                    os,
                                );
                                match find_asset_url(&assets, want.as_str()) {
                                    Some(url) => {
                                        let vdir = text::concat3(
                                            config.prefix.as_str(),
                                            "-",
                                            version.as_str(),
                                        );
                                        let (engine, out) = FetchEngine::fetch_and_extract(
                                            url.as_str(),
                                            vdir.as_str(),
                                            3,
                                        );
                                        (
                                            Resolver {
                                                config,
                                                os,
                                                arch,
                                                cwd,
                                                state: ResolveState::Fetching { version, engine },
                                            },
                                            out,
                                        )
                                    },
                                    None => {
                                        let names = join_asset_names(&assets);
                                        let mut error = "no compatible ".to_owned();
                                        error.append(asset_base.as_str());
                                        error.append(" asset found for platform '");
                                        error.append(platform.as_str());
                                        error.append("'. available: [");
                                        error.append(names.as_str());
                                        error.append("]");
                                        (
                                            Resolver {
                                                config,
                                                os,
                                                arch,
                                                cwd,
                                                state: ResolveState::Failed { error },
                                            },
                                            Vec::new(),
                                        )
                                    },
                                }
                            },
                        }
                    },
                    _ => {
                        proof {
                            assert(false);
                        }
                        (
                            Resolver { config, os, arch, cwd, state: ResolveState::Scanning },
                            Vec::new(),
                        )
                    },
                }
            },
            (ResolveState::Fetching { version, engine }, ev2) => {
                let (e2, eout) = engine.step(ev2);
                let ghost ge2 = e2;
                let ghost geout = eout@;
                let FetchEngine { url: eu, dest: ed, max_attempts: em, state: es } = e2;
                match es {
                    EngineState::Done => {
                        let vdir = text::concat3(config.prefix.as_str(), "-", version.as_str());
                        let bin = binary_path(&config.binary_path_rule, vdir.as_str(), os);
                        let mut out = eout;
                        out.push(Action::CheckFile(bin));
                        proof {
                            assert(out@.take(geout.len() as int) =~= geout);
                        }
                        (
                            Resolver {
                                config,
                                os,
                                arch,
                                cwd,
                                state: ResolveState::Polling { version, polls: 1 },
                            },
                            out,
                        )
                    },
                    EngineState::Failed { error } => {
                        (
                            Resolver {
                                config,
                                os,
                                arch,
                                cwd,
                                state: ResolveState::Failed { error },
                            },
                            eout,
                        )
                    },
                    st => {
                        let eng2 = FetchEngine { url: eu, dest: ed, max_attempts: em, state: st };
                        proof {
                            assert(eng2 == ge2);
                        }
                        (
                            Resolver {
                                config,
                                os,
                                arch,
                                cwd,
                                state: ResolveState::Fetching { version, engine: eng2 },
                            },
                            eout,
                        )
                    },
                }
            },
            (ResolveState::Polling { version, polls }, Event::IsFile(b)) => {
                if b {
                    let vdir = text::concat3(config.prefix.as_str(), "-", version.as_str());
                    let bin = binary_path(&config.binary_path_rule, vdir.as_str(), os);
                    if os == Os::Windows {
                        let mut out: Vec<Action> = Vec::new();
                        out.push(Action::ReadHeader(bin));
                        (
                            Resolver {
                                config,
                                os,
                                arch,
                                cwd,
                                state: ResolveState::HeaderCheck { version },
                            },
                            out,
                        )
                    } else {
                        let mut out: Vec<Action> = Vec::new();
                        out.push(Action::MakeExecutable(bin));
                        out.push(Action::ListDir);
                        (
                            Resolver {
                                config,
                                os,
                                arch,
                                cwd,
                                state: ResolveState::Pruning { version },
                            },
                            out,
                        )
                    }
                } else {
                    let mut out: Vec<Action> = Vec::new();
                    if polls % 5 == 0 {
                        out.push(Action::LogPollProgress { poll: polls, max: MAX_POLLS });
                    }
                    if polls < MAX_POLLS {
                        let vdir = text::concat3(config.prefix.as_str(), "-", version.as_str());
                        let bin = binary_path(&config.binary_path_rule, vdir.as_str(), os);
                        out.push(Action::CheckFile(bin));
                        (
                            Resolver {
                                config,
                                os,
                                arch,
                                cwd,
                                state: ResolveState::Polling { version, polls: polls + 1 },
                            },
                            out,
                        )
                    } else {
                        let vdir = text::concat3(config.prefix.as_str(), "-", version.as_str());
                        let mut error = "failed to download ".to_owned();
                        error.append(config.prefix.as_str());
                        error.append(": binary not found after extraction");
                        out.push(Action::RemoveDir(vdir));
                        (
                            Resolver {
                                config,
                                os,
                                arch,
                                cwd,
                                state: ResolveState::Failed { error },
                            },
                            out,
                        )
                    }
                }
            },
            (ResolveState::HeaderCheck { version }, Event::Header(h)) => {
                match h {
                    Some(header) => {
                        if header.0 == 0x4d && header.1 == 0x5a {
                            let mut out: Vec<Action> = Vec::new();
                            out.push(Action::ListDir);
                            (
                                Resolver {
                                    config,
                                    os,
                                    arch,
                                    cwd,
                                    state: ResolveState::Pruning { version },
                                },
                                out,
                            )
                        } else {
                            let vdir = text::concat3(
                                config.prefix.as_str(),
                                "-",
                                version.as_str(),
                            );
                            let mut error = config.binary_name_for_logging.clone();
                            error.append(" binary has invalid PE header signature");
                            let mut out: Vec<Action> = Vec::new();
                            out.push(Action::RemoveDir(vdir));
                            (
                                Resolver {
                                    config,
                                    os,
                                    arch,
                                    cwd,
                                    state: ResolveState::Failed { error },
                                },
                                out,
                            )
                        }
                    },
                    None => {
                        let mut out: Vec<Action> = Vec::new();
                        out.push(Action::ListDir);
                        (
                            Resolver {
                                config,
                                os,
                                arch,
                                cwd,
                                state: ResolveState::Pruning { version },
                            },
                            out,
                        )
                    },
                }
            },
            (ResolveState::Pruning { version }, Event::Listing(entries)) => {
                let vdir = text::concat3(config.prefix.as_str(), "-", version.as_str());
                let dash_prefix = text::concat2(config.prefix.as_str(), "-");
                let mut out: Vec<Action> = Vec::new();
                let mut i: usize = 0;
                while i < entries.len()
                    invariant
                        dash_prefix@ == config.prefix@ + "-"@,
                        vdir@ == config.prefix@ + "-"@ + version@,
                        i <= entries@.len(),
                        out@.len() == prune_model(
                            entries@.take(i as int),
                            config.prefix@,
                            vdir@,
                        ).len(),
                        forall|k: int|
                            0 <= k < out@.len() ==> ((#[trigger] out@[k])
                                matches Action::RemoveDir(d) && d@ == prune_model(
                                entries@.take(i as int),
                                config.prefix@,
                                vdir@,
                            )[k]),
                    decreases entries@.len() - i,
                {
                    let e = &entries[i];
                    if text::str_has_prefix(e.name.as_str(), dash_prefix.as_str())
                        && !text::str_eq(e.name.as_str(), vdir.as_str()) {
                        out.push(Action::RemoveDir(e.name.clone()));
                    }
                    proof {
                        let t = entries@.take(i + 1);
                        assert(t.drop_last() =~= entries@.take(i as int));
                        assert(t.last() == entries@[i as int]);
                    }
                    i = i + 1;
                }
                proof {
                    assert(entries@.take(entries@.len() as int) =~= entries@);
                }
                let path = crate::path_utils::normalize_path_to_absolute(
                    vdir.as_str(),
                    cwd.as_str(),
                    os,
                );
                out.push(Action::SetStatus(InstallStatus::Idle));
                (Resolver { config, os, arch, cwd, state: ResolveState::Done { path } }, out)
            },
            (st, _) => {
                proof {
                    assert(false);
                }
                (Resolver { config, os, arch, cwd, state: st }, Vec::new())
            },
        }
    }
}

/// The resolver entering installation of `version`.
fn install_begin(
    config: VersionDirConfig,
    os: Os,
    arch: Arch,
    cwd: String,
    version: String,
    removed: bool,
) -> (r: (Resolver, Vec<Action>))
    ensures
        r.0.config == config,
        r.0.os == os,
        r.0.arch == arch,
        r.0.cwd@ == cwd@,
        r.0.inv(),
        install_begin_rel(r.0, version@, removed, r.0, r.1@),
{
    let vdir = text::concat3(config.prefix.as_str(), "-", version.as_str());
    let mut out: Vec<Action> = Vec::new();
    if removed {
        out.push(Action::RemoveDir(vdir.clone()));
    }
    match platform_string(&config.platform_rule, os, arch) {
        Err(e) => {
            let mut error = config.prefix.clone();
            error.append(": failed to determine platform: ");
            error.append(e.as_str());
            (Resolver { config, os, arch, cwd, state: ResolveState::Failed { error } }, out)
        },
        Ok(platform) => {
            out.push(Action::SetStatus(InstallStatus::Downloading));
            out.push(Action::CreateDir(vdir));
            (
                Resolver {
                    config,
                    os,
                    arch,
                    cwd,
                    state: ResolveState::CreatingDir { version, platform },
                },
                out,
            )
        },
    }
}

/// Idempotence of resolution: when the in-memory cache holds a path and the
/// host confirms it still exists as a directory, resolution finishes at
/// once with the identical path and performs no further action at all — in
/// particular, no network request.
pub proof fn lemma_cache_hit_resolves_immediately(pre: Resolver, post: Resolver, out: Seq<Action>)
    requires
        pre.state is CacheCheck,
        resolver_step_rel(pre, Event::IsDir(true), post, out),
    ensures
        post.state is Done,
        post.state->Done_path@ == pre.state->CacheCheck_cached@,
        out.len() == 0,
{
}

/// Corruption recovery: when the version directory exists but its expected
/// binary is absent, the resolver's first action deletes the directory, and
/// resolution proceeds to a fresh installation (or fails fatally when the
/// platform itself cannot be named).
pub proof fn lemma_corrupt_dir_recovered(pre: Resolver, post: Resolver, out: Seq<Action>)
    requires
        pre.state is ValidateExisting,
        resolver_step_rel(pre, Event::IsFile(false), post, out),
    ensures
        out.len() >= 1,
        out[0] matches Action::RemoveDir(d) && d@ == pre.vdir(
            pre.state->ValidateExisting_version@,
        ),
        platform_string_spec(&pre.config.platform_rule, pre.os, pre.arch) is Ok ==> post.state
            is CreatingDir,
{
}

/// Polling timeout: when the expected binary still has not appeared at the
/// last allowed poll, resolution fails with the "binary not found after
/// extraction" error and the partially installed version directory is
/// removed.
pub proof fn lemma_poll_timeout_removes_and_fails(pre: Resolver, post: Resolver, out: Seq<Action>)
    requires
        pre.inv(),
        pre.state matches ResolveState::Polling { polls, .. } && polls == MAX_POLLS,
        resolver_step_rel(pre, Event::IsFile(false), post, out),
    ensures
        post.state matches ResolveState::Failed { error } && error@ == not_found_msg(
            pre.config.prefix@,
        ),
        out.last() matches Action::RemoveDir(d) && d@ == pre.vdir(
            pre.state->Polling_version@,
        ),
{
}

/// Exactness of pruning: the deletion list holds exactly those sibling
/// entries whose name has the `{prefix}-` pattern and which are not the
/// directory being kept — every such entry, and nothing else.
pub proof fn lemma_prune_model_exact(entries: Seq<DirEntry>, prefix: Seq<char>, keep: Seq<char>)
    ensures
        forall|k: int|
            0 <= k < prune_model(entries, prefix, keep).len() ==> has_prefix(
                #[trigger] prune_model(entries, prefix, keep)[k],
                prefix + "-"@,
            ) && prune_model(entries, prefix, keep)[k] != keep,
        forall|i: int|
            0 <= i < entries.len() && has_prefix((#[trigger] entries[i].name)@, prefix + "-"@)
                && entries[i].name@ != keep ==> prune_model(entries, prefix, keep).contains(
                entries[i].name@,
            ),
    decreases entries.len(),
{
    if entries.len() > 0 {
        lemma_prune_model_exact(entries.drop_last(), prefix, keep);
        let rest = prune_model(entries.drop_last(), prefix, keep);
        let whole = prune_model(entries, prefix, keep);
        assert forall|i: int|
            0 <= i < entries.len() && has_prefix((#[trigger] entries[i].name)@, prefix + "-"@)
                && entries[i].name@ != keep implies whole.contains(entries[i].name@) by {
            if i < entries.len() - 1 {
                assert(entries.drop_last()[i] == entries[i]);
                assert(rest.contains(entries[i].name@));
                let w = choose|w: int| 0 <= w < rest.len() && rest[w] == entries[i].name@;
                assert(whole[w] == entries[i].name@);
            } else {
                assert(whole.last() == entries[i].name@);
            }
        }
    }
}

/// Pruning, at the machine level: after a successful install the resolver
/// deletes exactly the matching siblings of the new version directory and
/// finishes with its absolute path.
pub proof fn lemma_prune_step_exact(
    pre: Resolver,
    entries: Vec<DirEntry>,
    post: Resolver,
    out: Seq<Action>,
)
    requires
        pre.state is Pruning,
        resolver_step_rel(pre, Event::Listing(entries), post, out),
    ensures
        post.state is Done,
        post.state->Done_path@ == pre.abs_vdir(pre.state->Pruning_version@),
        out.len() == prune_model(
            entries@,
            pre.config.prefix@,
            pre.vdir(pre.state->Pruning_version@),
        ).len() + 1,
        forall|k: int|
            0 <= k < out.len() - 1 ==> ((#[trigger] out[k]) matches Action::RemoveDir(d) && d@
                == prune_model(
                entries@,
                pre.config.prefix@,
                pre.vdir(pre.state->Pruning_version@),
            )[k]),
{
}

} // verus!
