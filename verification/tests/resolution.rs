//! End-to-end scenario tests of the version-directory resolver, driven
//! against a simulated host: an in-memory filesystem, a scripted release
//! catalog and scripted downloads.

use std::collections::HashMap;
use std::io::Write;

use csharp_tooling::effects::{Action, DirEntry, Event, InstallStatus};
use csharp_tooling::resolver::{BinaryManager, ResolveState, Resolver};
use csharp_tooling::version_config::{
    Arch, Asset, BinaryPathRule, DownloadUrlRule, Os, PlatformRule, VersionConfigBuilder,
    VersionDirConfig,
};

fn make_zip(entries: &[(&str, &[u8])]) -> Vec<u8> {
    let mut cursor = std::io::Cursor::new(Vec::new());
    {
        let mut writer = zip::ZipWriter::new(&mut cursor);
        let options = zip::write::SimpleFileOptions::default();
        for (name, data) in entries {
            writer.start_file(*name, options).unwrap();
            writer.write_all(data).unwrap();
        }
        writer.finish().unwrap();
    }
    cursor.into_inner()
}

struct World {
    cwd: String,
    dirs: Vec<String>,
    files: HashMap<String, Vec<u8>>,
    release_tag: Option<String>,
    assets: Result<Vec<(String, String)>, String>,
    downloads: Vec<Result<Vec<u8>, String>>,
    network_calls: usize,
    download_urls: Vec<String>,
    removed: Vec<String>,
    statuses: Vec<InstallStatus>,
    poll_logs: usize,
}

impl World {
    fn new(cwd: &str) -> Self {
        World {
            cwd: cwd.to_string(),
            dirs: Vec::new(),
            files: HashMap::new(),
            release_tag: None,
            assets: Ok(Vec::new()),
            downloads: Vec::new(),
            network_calls: 0,
            download_urls: Vec::new(),
            removed: Vec::new(),
            statuses: Vec::new(),
            poll_logs: 0,
        }
    }

    /// Strips the working directory from an absolute query so the relative
    /// store can answer it.
    fn local(&self, path: &str) -> String {
        let abs_prefix = format!("{}/", self.cwd);
        match path.strip_prefix(&abs_prefix) {
            Some(rest) => rest.to_string(),
            None => path.to_string(),
        }
    }

    fn top_level_entries(&self) -> Vec<DirEntry> {
        let mut entries = Vec::new();
        for d in &self.dirs {
            if !d.contains('/') {
                entries.push(DirEntry { name: d.clone(), is_dir: true });
            }
        }
        for f in self.files.keys() {
            if !f.contains('/') {
                entries.push(DirEntry { name: f.clone(), is_dir: false });
            }
        }
        entries.sort_by(|a, b| a.name.cmp(&b.name));
        entries
    }

    fn perform(&mut self, actions: &[Action]) -> Option<Event> {
        let mut reply = None;
        for action in actions {
            match action {
                Action::CheckDir(p) => {
                    let q = self.local(p);
                    reply = Some(Event::IsDir(self.dirs.contains(&q)));
                },
                Action::CheckFile(p) => {
                    let q = self.local(p);
                    reply = Some(Event::IsFile(self.files.contains_key(&q)));
                },
                Action::ListDir => {
                    reply = Some(Event::Listing(self.top_level_entries()));
                },
                Action::QueryRelease(_) => {
                    self.network_calls += 1;
                    reply = Some(Event::Release(self.release_tag.clone()));
                },
                Action::QueryAssets(_) => {
                    self.network_calls += 1;
                    let answer = match &self.assets {
                        Ok(list) => Ok(list
                            .iter()
                            .map(|(n, u)| Asset { name: n.clone(), download_url: u.clone() })
                            .collect()),
                        Err(e) => Err(e.clone()),
                    };
                    reply = Some(Event::Assets(answer));
                },
                Action::SetStatus(s) => {
                    self.statuses.push(*s);
                    reply = None;
                },
                Action::CreateDir(p) => {
                    let q = self.local(p);
                    if !self.dirs.contains(&q) {
                        self.dirs.push(q);
                    }
                    reply = Some(Event::Completed(Ok(())));
                },
                Action::RemoveDir(p) => {
                    let q = self.local(p);
                    self.removed.push(q.clone());
                    let under = format!("{}/", q);
                    self.dirs.retain(|d| d != &q && !d.starts_with(&under));
                    self.files.retain(|f, _| !f.starts_with(&under) && f != &q);
                    reply = None;
                },
                Action::Download(u) => {
                    self.network_calls += 1;
                    self.download_urls.push(u.clone());
                    let next = self.downloads.remove(0);
                    reply = Some(Event::Downloaded(next));
                },
                Action::WriteFile { path, data } => {
                    let q = self.local(path);
                    self.files.insert(q, data.clone());
                    reply = Some(Event::Completed(Ok(())));
                },
                Action::ReadHeader(p) => {
                    let q = self.local(p);
                    let header = self.files.get(&q).and_then(|d| {
                        if d.len() >= 2 {
                            Some((d[0], d[1]))
                        } else {
                            None
                        }
                    });
                    reply = Some(Event::Header(header));
                },
                Action::MakeExecutable(_) => {
                    reply = None;
                },
                Action::LogPollProgress { .. } => {
                    self.poll_logs += 1;
                    reply = None;
                },
            }
        }
        reply
    }
}

fn run(
    manager: &mut BinaryManager,
    config: VersionDirConfig,
    os: Os,
    world: &mut World,
) -> Resolver {
    let (mut r, mut actions) = manager.start_resolve(config, os, Arch::X8664, world.cwd.clone());
    loop {
        if matches!(r.state, ResolveState::Done { .. } | ResolveState::Failed { .. }) {
            // A terminal step still carries cleanup and status actions.
            let _ = world.perform(&actions);
            manager.finish(&r);
            return r;
        }
        let event = world.perform(&actions).expect("non-terminal step must await an event");
        let (next, out) = r.step(event);
        r = next;
        actions = out;
    }
}

fn nuget_style_config(prefix: &str) -> VersionDirConfig {
    VersionConfigBuilder::new(prefix, "owner/proj")
        .get_platform_string(PlatformRule::Fixed("any".to_string()))
        .get_download_url(DownloadUrlRule::NugetPackage { package: prefix.to_string() })
        .get_binary_path(BinaryPathRule::FixedRelative { relative: "bin".to_string() })
        .binary_name_for_logging(prefix)
        .build()
}

fn done_path(r: &Resolver) -> String {
    match &r.state {
        ResolveState::Done { path } => path.clone(),
        ResolveState::Failed { error } => panic!("resolution failed: {}", error),
        _ => panic!("resolution not finished"),
    }
}

fn failed_error(r: &Resolver) -> String {
    match &r.state {
        ResolveState::Failed { error } => error.clone(),
        _ => panic!("resolution did not fail"),
    }
}

#[test]
fn fresh_install_downloads_and_returns_absolute_path() {
    let mut world = World::new("/work");
    world.release_tag = Some("v2.0".to_string());
    world.downloads = vec![Ok(make_zip(&[("bin", b"tool payload")]))];
    let mut manager = BinaryManager::new();
    let r = run(&mut manager, nuget_style_config("tool"), Os::Linux, &mut world);
    assert_eq!(done_path(&r), "/work/tool-2.0");
    assert_eq!(world.files.get("tool-2.0/bin").unwrap(), &b"tool payload".to_vec());
    assert_eq!(
        world.download_urls,
        vec!["https://www.nuget.org/api/v2/package/tool/2.0"]
    );
    assert!(world.statuses.contains(&InstallStatus::CheckingForUpdate));
    assert!(world.statuses.contains(&InstallStatus::Downloading));
    assert_eq!(world.statuses.last(), Some(&InstallStatus::Idle));
}

#[test]
fn second_resolution_hits_cache_with_no_network_calls() {
    let mut world = World::new("/work");
    world.release_tag = Some("1.0".to_string());
    world.downloads = vec![Ok(make_zip(&[("bin", b"payload")]))];
    let mut manager = BinaryManager::new();
    let first = run(&mut manager, nuget_style_config("tool"), Os::Linux, &mut world);
    let first_path = done_path(&first);
    let calls_after_first = world.network_calls;

    let second = run(&mut manager, nuget_style_config("tool"), Os::Linux, &mut world);
    assert_eq!(done_path(&second), first_path);
    assert_eq!(world.network_calls, calls_after_first, "cache hit must not touch the network");
}

#[test]
fn stale_cache_is_discarded_and_resolution_restarts() {
    let mut world = World::new("/work");
    world.release_tag = None;
    world.dirs.push("tool-1.0".to_string());
    world.files.insert("tool-1.0/bin".to_string(), b"x".to_vec());
    let mut manager = BinaryManager::new();
    manager.cached_version_dir = Some("/work/tool-gone".to_string());
    let r = run(&mut manager, nuget_style_config("tool"), Os::Linux, &mut world);
    assert_eq!(done_path(&r), "/work/tool-1.0");
}

#[test]
fn existing_valid_install_is_reused_without_download() {
    let mut world = World::new("/work");
    world.release_tag = Some("2.0".to_string());
    world.dirs.push("tool-3.0".to_string());
    world.files.insert("tool-3.0/bin".to_string(), b"x".to_vec());
    let mut manager = BinaryManager::new();
    let r = run(&mut manager, nuget_style_config("tool"), Os::Linux, &mut world);
    // Local "3.0" outranks remote "2.0"; nothing is downloaded.
    assert_eq!(done_path(&r), "/work/tool-3.0");
    assert!(world.download_urls.is_empty());
}

#[test]
fn remote_version_wins_when_lexicographically_greater() {
    let mut world = World::new("/work");
    world.release_tag = Some("3.0".to_string());
    world.dirs.push("tool-2.0".to_string());
    world.files.insert("tool-2.0/bin".to_string(), b"old".to_vec());
    world.downloads = vec![Ok(make_zip(&[("bin", b"new")]))];
    let mut manager = BinaryManager::new();
    let r = run(&mut manager, nuget_style_config("tool"), Os::Linux, &mut world);
    assert_eq!(done_path(&r), "/work/tool-3.0");
}

#[test]
fn multi_digit_versions_follow_string_ordering() {
    let mut world = World::new("/work");
    world.release_tag = Some("9.0".to_string());
    world.dirs.push("tool-10.0".to_string());
    world.files.insert("tool-10.0/bin".to_string(), b"x".to_vec());
    world.downloads = vec![Ok(make_zip(&[("bin", b"nine")]))];
    let mut manager = BinaryManager::new();
    let r = run(&mut manager, nuget_style_config("tool"), Os::Linux, &mut world);
    // The documented limitation of plain string ordering: '9' ranks above
    // '1', so remote "9.0" counts as newer than local "10.0" and is
    // installed.
    assert_eq!(done_path(&r), "/work/tool-9.0");
}

#[test]
fn corrupted_install_is_removed_and_refetched() {
    let mut world = World::new("/work");
    world.release_tag = None;
    world.dirs.push("tool-1.0".to_string());
    // The directory exists but the expected binary is absent.
    world.downloads = vec![Ok(make_zip(&[("bin", b"fresh")]))];
    let mut manager = BinaryManager::new();
    let r = run(&mut manager, nuget_style_config("tool"), Os::Linux, &mut world);
    assert_eq!(done_path(&r), "/work/tool-1.0");
    assert!(world.removed.contains(&"tool-1.0".to_string()));
    assert_eq!(world.files.get("tool-1.0/bin").unwrap(), &b"fresh".to_vec());
}

#[test]
fn missing_binary_after_extraction_fails_and_cleans_up() {
    let mut world = World::new("/work");
    world.release_tag = Some("1.0".to_string());
    // The archive does not contain the expected binary at all.
    world.downloads = vec![Ok(make_zip(&[("other-file", b"not the binary")]))];
    let mut manager = BinaryManager::new();
    let r = run(&mut manager, nuget_style_config("tool"), Os::Linux, &mut world);
    assert_eq!(
        failed_error(&r),
        "failed to download tool: binary not found after extraction"
    );
    assert!(world.removed.contains(&"tool-1.0".to_string()));
    assert!(!world.dirs.contains(&"tool-1.0".to_string()));
    // Progress was logged on every fifth unsuccessful poll.
    assert_eq!(world.poll_logs, 10);
}

#[test]
fn old_versions_are_pruned_after_successful_install() {
    let mut world = World::new("/work");
    world.release_tag = Some("vB".to_string());
    world.dirs.push("tool-A".to_string());
    world.files.insert("tool-A/bin".to_string(), b"old".to_vec());
    world.dirs.push("unrelated".to_string());
    world.downloads = vec![Ok(make_zip(&[("bin", b"new")]))];
    let mut manager = BinaryManager::new();
    let r = run(&mut manager, nuget_style_config("tool"), Os::Linux, &mut world);
    assert_eq!(done_path(&r), "/work/tool-B");
    assert!(world.removed.contains(&"tool-A".to_string()));
    let top: Vec<String> =
        world.dirs.iter().filter(|d| !d.contains('/')).cloned().collect();
    assert!(top.contains(&"tool-B".to_string()));
    assert!(!top.contains(&"tool-A".to_string()));
    assert!(top.contains(&"unrelated".to_string()), "pruning must only touch the tool's pattern");
}

#[test]
fn no_version_anywhere_is_fatal() {
    let mut world = World::new("/work");
    world.release_tag = None;
    let mut manager = BinaryManager::new();
    let r = run(&mut manager, nuget_style_config("tool"), Os::Linux, &mut world);
    assert_eq!(
        failed_error(&r),
        "No tool version found locally and cannot check GitHub for updates"
    );
}

#[test]
fn unsupported_platform_aborts_installation() {
    let config = VersionConfigBuilder::new("tool", "owner/proj")
        .get_download_url(DownloadUrlRule::NugetPackage { package: "tool".to_string() })
        .get_binary_path(BinaryPathRule::FixedRelative { relative: "bin".to_string() })
        .build();
    let mut world = World::new("/work");
    world.release_tag = Some("1.0".to_string());
    let mut manager = BinaryManager::new();
    let r = run(&mut manager, config, Os::Linux, &mut world);
    assert_eq!(failed_error(&r), "tool: failed to determine platform: not configured");
}

fn asset_style_config(prefix: &str) -> VersionDirConfig {
    VersionConfigBuilder::new(prefix, "owner/proj")
        .get_platform_string(PlatformRule::OsArchNames)
        .get_download_url(DownloadUrlRule::GithubAsset { asset_base: prefix.to_string() })
        .get_binary_path(BinaryPathRule::PerOsName {
            windows: "tool.exe".to_string(),
            other: "bin".to_string(),
        })
        .binary_name_for_logging(prefix)
        .build()
}

#[test]
fn asset_lookup_uses_matching_platform_asset() {
    let mut world = World::new("/work");
    world.release_tag = Some("1.0".to_string());
    world.assets = Ok(vec![
        ("tool-win-x64.zip".to_string(), "https://dl.invalid/win".to_string()),
        ("tool-linux-x64.tar.gz".to_string(), "https://dl.invalid/linux".to_string()),
    ]);
    world.downloads = vec![Ok(make_zip(&[("bin", b"payload")]))];
    let mut manager = BinaryManager::new();
    let r = run(&mut manager, asset_style_config("tool"), Os::Linux, &mut world);
    assert_eq!(done_path(&r), "/work/tool-1.0");
    assert_eq!(world.download_urls, vec!["https://dl.invalid/linux"]);
}

#[test]
fn missing_platform_asset_reports_available_ones() {
    let mut world = World::new("/work");
    world.release_tag = Some("1.0".to_string());
    world.assets = Ok(vec![
        ("tool-win-x64.zip".to_string(), "u1".to_string()),
        ("tool-osx-arm64.tar.gz".to_string(), "u2".to_string()),
    ]);
    let mut manager = BinaryManager::new();
    let r = run(&mut manager, asset_style_config("tool"), Os::Linux, &mut world);
    assert_eq!(
        failed_error(&r),
        "no compatible tool asset found for platform 'linux-x64'. \
         available: [tool-win-x64.zip, tool-osx-arm64.tar.gz]"
    );
}

#[test]
fn asset_catalog_failure_is_fatal() {
    let mut world = World::new("/work");
    world.release_tag = Some("1.0".to_string());
    world.assets = Err("rate limited".to_string());
    let mut manager = BinaryManager::new();
    let r = run(&mut manager, asset_style_config("tool"), Os::Linux, &mut world);
    assert_eq!(failed_error(&r), "failed to fetch tool release: rate limited");
}

#[test]
fn windows_install_checks_executable_header() {
    let mut world = World::new("C:/work");
    world.release_tag = Some("1.0".to_string());
    world.assets = Ok(vec![(
        "tool-win-x64.zip".to_string(),
        "https://dl.invalid/win".to_string(),
    )]);
    // A valid portable executable starts with the 'M', 'Z' magic bytes.
    world.downloads = vec![Ok(make_zip(&[("tool.exe", &[0x4d, 0x5a, 0x00, 0x01])]))];
    let mut manager = BinaryManager::new();
    let r = run(&mut manager, asset_style_config("tool"), Os::Windows, &mut world);
    assert_eq!(done_path(&r), "C:/work/tool-1.0");
}

#[test]
fn windows_install_rejects_wrong_header() {
    let mut world = World::new("C:/work");
    world.release_tag = Some("1.0".to_string());
    world.assets = Ok(vec![(
        "tool-win-x64.zip".to_string(),
        "https://dl.invalid/win".to_string(),
    )]);
    world.downloads = vec![Ok(make_zip(&[("tool.exe", b"<html>not a binary</html>")]))];
    let mut manager = BinaryManager::new();
    let r = run(&mut manager, asset_style_config("tool"), Os::Windows, &mut world);
    assert_eq!(failed_error(&r), "tool binary has invalid PE header signature");
    assert!(world.removed.contains(&"tool-1.0".to_string()));
}

#[test]
fn download_retries_inside_resolution() {
    let mut world = World::new("/work");
    world.release_tag = Some("1.0".to_string());
    world.downloads = vec![
        Err("connection reset".to_string()),
        Err("connection reset".to_string()),
        Ok(make_zip(&[("bin", b"third time lucky")])),
    ];
    let mut manager = BinaryManager::new();
    let r = run(&mut manager, nuget_style_config("tool"), Os::Linux, &mut world);
    assert_eq!(done_path(&r), "/work/tool-1.0");
    assert_eq!(world.download_urls.len(), 3);
}
