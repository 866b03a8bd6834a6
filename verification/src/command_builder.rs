//! Assembly of language-server launch commands, and discovery of the Razor
//! support files inside an installed editor-extension directory.
//!
//! Discovery is a pure decision over a snapshot of which candidate files
//! exist; the host takes the candidate paths, checks them, and hands the
//! snapshot back.

use vstd::prelude::*;
use vstd::string::*;
use crate::text;

verus! {

/// A snapshot of files known to exist, by full path.
pub struct FileSet {
    pub files: Vec<String>,
}

/// Whether the snapshot holds `path`.
pub open spec fn fs_has(fs: Seq<Seq<char>>, path: Seq<char>) -> bool {
    exists|i: int| 0 <= i < fs.len() && fs[i] == path
}

impl FileSet {
    /// An empty snapshot.
    pub fn new() -> (r: Self)
        ensures
            r.files@.len() == 0,
    {
        FileSet { files: Vec::new() }
    }

    /// Records that `path` exists.
    pub fn add(&mut self, path: &str)
        ensures
            final(self).files.deep_view() == old(self).files.deep_view().push(path@),
    {
        self.files.push(path.to_owned());
        proof {
            assert(self.files.deep_view() =~= old(self).files.deep_view().push(path@));
        }
    }

    /// Whether `path` is recorded as existing.
    pub fn contains(&self, path: &str) -> (r: bool)
        ensures
            r == fs_has(self.files.deep_view(), path@),
    {
        let mut i: usize = 0;
        while i < self.files.len()
            invariant
                i <= self.files@.len(),
                forall|j: int| 0 <= j < i ==> self.files.deep_view()[j] != path@,
            decreases self.files@.len() - i,
        {
            if text::str_eq(self.files[i].as_str(), path) {
                proof {
                    assert(self.files.deep_view()[i as int] == path@);
                }
                return true;
            }
            i = i + 1;
        }
        false
    }
}

/// The fixed leading arguments every server launch carries.
pub open spec fn base_args(level: Seq<char>, log_dir: Seq<char>) -> Seq<Seq<char>> {
    seq!["--logLevel"@, level, "--extensionLogDirectory"@, log_dir]
}

/// The full Razor argument list: the base arguments followed by one
/// flag/value pair for each Razor component that was found.
pub open spec fn razor_args(
    level: Seq<char>,
    log_dir: Seq<char>,
    compiler: Option<Seq<char>>,
    targets: Option<Seq<char>>,
    extension: Option<Seq<char>>,
) -> Seq<Seq<char>> {
    base_args(level, log_dir) + (match compiler {
        Some(c) => seq!["--razorSourceGenerator"@, c],
        None => Seq::<Seq<char>>::empty(),
    }) + (match targets {
        Some(t) => seq!["--razorDesignTimePath"@, t],
        None => Seq::<Seq<char>>::empty(),
    }) + (match extension {
        Some(e) => seq!["--extension"@, e],
        None => Seq::<Seq<char>>::empty(),
    })
}

/// Builds language-server commands with proper arguments.
pub struct RoslynCommandBuilder {
    pub binary_path: String,
    pub log_level: String,
    pub extension_log_dir: String,
}

impl RoslynCommandBuilder {
    /// A builder for the given binary, logging at `Information`.
    pub fn new(binary_path: String, extension_log_dir: String) -> (r: Self)
        ensures
            r.binary_path@ == binary_path@,
            r.log_level@ == "Information"@,
            r.extension_log_dir@ == extension_log_dir@,
    {
        RoslynCommandBuilder {
            binary_path,
            log_level: "Information".to_owned(),
            extension_log_dir,
        }
    }

    /// Replaces the log level.
    pub fn with_log_level(self, level: &str) -> (r: Self)
        ensures
            r.binary_path@ == self.binary_path@,
            r.log_level@ == level@,
            r.extension_log_dir@ == self.extension_log_dir@,
    {
        RoslynCommandBuilder { log_level: level.to_owned(), ..self }
    }

    /// The command for C# alone: the binary and the base arguments.
    pub fn build_csharp_command(self) -> (r: (String, Vec<String>))
        ensures
            r.0@ == self.binary_path@,
            r.1.deep_view() == base_args(self.log_level@, self.extension_log_dir@),
    {
        let mut args: Vec<String> = Vec::new();
        args.push("--logLevel".to_owned());
        args.push(self.log_level);
        args.push("--extensionLogDirectory".to_owned());
        args.push(self.extension_log_dir);
        proof {
            assert(args.deep_view() =~= base_args(
                self.log_level@,
                self.extension_log_dir@,
            ));
        }
        (self.binary_path, args)
    }

    /// The command with Razor support: the base arguments followed by a
    /// flag/value pair for each component that is present.
    pub fn build_razor_command(
        self,
        razor_compiler_dll: Option<String>,
        razor_targets_path: Option<String>,
        razor_extension_dll: Option<String>,
    ) -> (r: (String, Vec<String>))
        ensures
            r.0@ == self.binary_path@,
            r.1.deep_view() == razor_args(
                self.log_level@,
                self.extension_log_dir@,
                razor_compiler_dll.deep_view(),
                razor_targets_path.deep_view(),
                razor_extension_dll.deep_view(),
            ),
    {
        let mut args: Vec<String> = Vec::new();
        args.push("--logLevel".to_owned());
        args.push(self.log_level);
        args.push("--extensionLogDirectory".to_owned());
        args.push(self.extension_log_dir);
        match razor_compiler_dll {
            Some(compiler_dll) => {
                args.push("--razorSourceGenerator".to_owned());
                args.push(compiler_dll);
            },
            None => {},
        }
        match razor_targets_path {
            Some(targets_path) => {
                args.push("--razorDesignTimePath".to_owned());
                args.push(targets_path);
            },
            None => {},
        }
        match razor_extension_dll {
            Some(extension_dll) => {
                args.push("--extension".to_owned());
                args.push(extension_dll);
            },
            None => {},
        }
        proof {
            assert(args.deep_view() =~= razor_args(
                self.log_level@,
                self.extension_log_dir@,
                razor_compiler_dll.deep_view(),
                razor_targets_path.deep_view(),
                razor_extension_dll.deep_view(),
            ));
        }
        (self.binary_path, args)
    }
}

/// The preferred location of the Razor compiler inside a version directory.
pub open spec fn razor_compiler_primary(vdir: Seq<char>) -> Seq<char> {
    vdir + "/extension/.razor/Microsoft.CodeAnalysis.Razor.Compiler.dll"@
}

/// The fallback location of the Razor compiler.
pub open spec fn razor_compiler_fallback(vdir: Seq<char>) -> Seq<char> {
    vdir + "/extension/Microsoft.CodeAnalysis.Razor.Compiler.dll"@
}

/// The preferred location of the Razor design-time targets.
pub open spec fn razor_targets_primary(vdir: Seq<char>) -> Seq<char> {
    vdir + "/extension/.razor/Targets/Microsoft.NET.Sdk.Razor.DesignTime.targets"@
}

/// The fallback location of the Razor design-time targets.
pub open spec fn razor_targets_fallback(vdir: Seq<char>) -> Seq<char> {
    vdir + "/extension/Targets/Microsoft.NET.Sdk.Razor.DesignTime.targets"@
}

/// The preferred location of the Razor extension library.
pub open spec fn razor_extension_primary(vdir: Seq<char>) -> Seq<char> {
    vdir + "/extension/.razor/RazorExtension/Microsoft.VisualStudioCode.RazorExtension.dll"@
}

/// The fallback location of the Razor extension library.
pub open spec fn razor_extension_fallback(vdir: Seq<char>) -> Seq<char> {
    vdir + "/extension/RazorExtension/Microsoft.VisualStudioCode.RazorExtension.dll"@
}

/// The first of the two candidate paths present in the snapshot, if any.
pub open spec fn first_existing(
    primary: Seq<char>,
    fallback: Seq<char>,
    fs: Seq<Seq<char>>,
) -> Option<Seq<char>> {
    if fs_has(fs, primary) {
        Some(primary)
    } else if fs_has(fs, fallback) {
        Some(fallback)
    } else {
        None
    }
}

/// Container for Razor component paths.
#[derive(Debug, Clone)]
pub struct RazorComponents {
    pub compiler_dll: String,
    pub targets_path: String,
    pub extension_dll: String,
}

/// Discovers Razor-related libraries and paths in an installed editor
/// extension directory, judged against a snapshot of existing files.
pub struct RazorSupport {
    pub version_dir: String,
}

impl RazorSupport {
    /// Discovery rooted at `version_dir`.
    pub fn new(version_dir: String) -> (r: Self)
        ensures
            r.version_dir@ == version_dir@,
    {
        RazorSupport { version_dir }
    }

    /// Every path discovery may probe, for the host to check.
    pub fn candidate_paths(&self) -> (r: Vec<String>)
        ensures
            r.deep_view() == seq![
                razor_compiler_primary(self.version_dir@),
                razor_compiler_fallback(self.version_dir@),
                razor_targets_primary(self.version_dir@),
                razor_targets_fallback(self.version_dir@),
                razor_extension_primary(self.version_dir@),
                razor_extension_fallback(self.version_dir@),
            ],
    {
        let vdir = self.version_dir.as_str();
        let mut r: Vec<String> = Vec::new();
        r.push(
            text::concat2(vdir, "/extension/.razor/Microsoft.CodeAnalysis.Razor.Compiler.dll"),
        );
        r.push(text::concat2(vdir, "/extension/Microsoft.CodeAnalysis.Razor.Compiler.dll"));
        r.push(
            text::concat2(
                vdir,
                "/extension/.razor/Targets/Microsoft.NET.Sdk.Razor.DesignTime.targets",
            ),
        );
        r.push(
            text::concat2(vdir, "/extension/Targets/Microsoft.NET.Sdk.Razor.DesignTime.targets"),
        );
        r.push(
            text::concat2(
                vdir,
                "/extension/.razor/RazorExtension/Microsoft.VisualStudioCode.RazorExtension.dll",
            ),
        );
        r.push(
            text::concat2(
                vdir,
                "/extension/RazorExtension/Microsoft.VisualStudioCode.RazorExtension.dll",
            ),
        );
        proof {
            assert(r.deep_view() =~= seq![
                razor_compiler_primary(self.version_dir@),
                razor_compiler_fallback(self.version_dir@),
                razor_targets_primary(self.version_dir@),
                razor_targets_fallback(self.version_dir@),
                razor_extension_primary(self.version_dir@),
                razor_extension_fallback(self.version_dir@),
            ]);
        }
        r
    }

    /// Finds the Razor compiler library, preferring the `.razor` layout.
    pub fn find_razor_compiler_dll(&self, fs: &FileSet) -> (r: Option<String>)
        ensures
            r.deep_view() == first_existing(
                razor_compiler_primary(self.version_dir@),
                razor_compiler_fallback(self.version_dir@),
                fs.files.deep_view(),
            ),
    {
        let primary = text::concat2(
            self.version_dir.as_str(),
            "/extension/.razor/Microsoft.CodeAnalysis.Razor.Compiler.dll",
        );
        let fallback = text::concat2(
            self.version_dir.as_str(),
            "/extension/Microsoft.CodeAnalysis.Razor.Compiler.dll",
        );
        if fs.contains(primary.as_str()) {
            Some(primary)
        } else if fs.contains(fallback.as_str()) {
            Some(fallback)
        } else {
            None
        }
    }

    /// Finds the Razor design-time targets, preferring the `.razor` layout.
    pub fn find_razor_targets(&self, fs: &FileSet) -> (r: Option<String>)
        ensures
            r.deep_view() == first_existing(
                razor_targets_primary(self.version_dir@),
                razor_targets_fallback(self.version_dir@),
                fs.files.deep_view(),
            ),
    {
        let primary = text::concat2(
            self.version_dir.as_str(),
            "/extension/.razor/Targets/Microsoft.NET.Sdk.Razor.DesignTime.targets",
        );
        let fallback = text::concat2(
            self.version_dir.as_str(),
            "/extension/Targets/Microsoft.NET.Sdk.Razor.DesignTime.targets",
        );
        if fs.contains(primary.as_str()) {
            Some(primary)
        } else if fs.contains(fallback.as_str()) {
            Some(fallback)
        } else {
            None
        }
    }

    /// Finds the Razor extension library, preferring the `.razor` layout.
    pub fn find_razor_extension_dll(&self, fs: &FileSet) -> (r: Option<String>)
        ensures
            r.deep_view() == first_existing(
                razor_extension_primary(self.version_dir@),
                razor_extension_fallback(self.version_dir@),
                fs.files.deep_view(),
            ),
    {
        let primary = text::concat2(
            self.version_dir.as_str(),
            "/extension/.razor/RazorExtension/Microsoft.VisualStudioCode.RazorExtension.dll",
        );
        let fallback = text::concat2(
            self.version_dir.as_str(),
            "/extension/RazorExtension/Microsoft.VisualStudioCode.RazorExtension.dll",
        );
        if fs.contains(primary.as_str()) {
            Some(primary)
        } else if fs.contains(fallback.as_str()) {
            Some(fallback)
        } else {
            None
        }
    }

    /// Whether every Razor component is present.
    pub fn is_razor_available(&self, fs: &FileSet) -> (r: bool)
        ensures
            r == (first_existing(
                razor_compiler_primary(self.version_dir@),
                razor_compiler_fallback(self.version_dir@),
                fs.files.deep_view(),
            ) is Some && first_existing(
                razor_targets_primary(self.version_dir@),
                razor_targets_fallback(self.version_dir@),
                fs.files.deep_view(),
            ) is Some && first_existing(
                razor_extension_primary(self.version_dir@),
                razor_extension_fallback(self.version_dir@),
                fs.files.deep_view(),
            ) is Some),
    {
        let compiler = self.find_razor_compiler_dll(fs).is_some();
        let targets = self.find_razor_targets(fs).is_some();
        let extension = self.find_razor_extension_dll(fs).is_some();
        compiler && targets && extension
    }

    /// All Razor components, when every one of them is present.
    pub fn get_razor_components(&self, fs: &FileSet) -> (r: Option<RazorComponents>)
        ensures
            match r {
                Some(c) => first_existing(
                    razor_compiler_primary(self.version_dir@),
                    razor_compiler_fallback(self.version_dir@),
                    fs.files.deep_view(),
                ) == Some(c.compiler_dll@) && first_existing(
                    razor_targets_primary(self.version_dir@),
                    razor_targets_fallback(self.version_dir@),
                    fs.files.deep_view(),
                ) == Some(c.targets_path@) && first_existing(
                    razor_extension_primary(self.version_dir@),
                    razor_extension_fallback(self.version_dir@),
                    fs.files.deep_view(),
                ) == Some(c.extension_dll@),
                None => !(first_existing(
                    razor_compiler_primary(self.version_dir@),
                    razor_compiler_fallback(self.version_dir@),
                    fs.files.deep_view(),
                ) is Some && first_existing(
                    razor_targets_primary(self.version_dir@),
                    razor_targets_fallback(self.version_dir@),
                    fs.files.deep_view(),
                ) is Some && first_existing(
                    razor_extension_primary(self.version_dir@),
                    razor_extension_fallback(self.version_dir@),
                    fs.files.deep_view(),
                ) is Some),
            },
    {
        let compiler = self.find_razor_compiler_dll(fs);
        let targets = self.find_razor_targets(fs);
        let extension = self.find_razor_extension_dll(fs);
        match (compiler, targets, extension) {
            (Some(compiler_dll), Some(targets_path), Some(extension_dll)) => {
                Some(RazorComponents { compiler_dll, targets_path, extension_dll })
            },
            _ => None,
        }
    }
}

} // verus!
