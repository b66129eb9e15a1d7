//! Core data model: the compiler front end, build targets, outputs, errors,
//! and the clean pipeline's decisions.

use vstd::prelude::*;
use crate::views;

verus! {

/// The fixed project layout the front end works against: where build outputs
/// go, where sources live, and the conventional entry file.
#[derive(Debug)]
pub struct Compiler {
    pub build_dir: String,
    pub src_dir: String,
    pub main_file: String,
}

impl Compiler {
    /// A front end over the conventional project layout.
    pub fn new() -> (c: Compiler)
        ensures
            c.build_dir@ == "build"@,
            c.src_dir@ == "src"@,
            c.main_file@ == "src/main.ipl"@,
    {
        Compiler {
            build_dir: "build".to_owned(),
            src_dir: "src".to_owned(),
            main_file: "src/main.ipl".to_owned(),
        }
    }
}

/// A compilation target.  The namespace is open: the canonical names get
/// their own variants, any other name is kept verbatim.
#[derive(Debug)]
pub enum Target {
    Executable,
    Wasm,
    Js,
    Other(String),
}

/// The target a request resolves to: an absent target means the canonical
/// executable target, a present one is matched against the canonical names
/// and otherwise accepted verbatim.
pub open spec fn target_spec(t: Option<String>) -> Target {
    match t {
        None => Target::Executable,
        Some(s) => if s@ == "executable"@ {
            Target::Executable
        } else if s@ == "wasm"@ {
            Target::Wasm
        } else if s@ == "js"@ {
            Target::Js
        } else {
            Target::Other(s)
        },
    }
}

impl Target {
    /// Resolves a requested target name.
    pub fn resolve(t: Option<String>) -> (r: Target)
        ensures
            r == target_spec(t),
    {
        match t {
            None => Target::Executable,
            Some(s) => {
                if crate::commands::string_is(&s, "executable") {
                    Target::Executable
                } else if crate::commands::string_is(&s, "wasm") {
                    Target::Wasm
                } else if crate::commands::string_is(&s, "js") {
                    Target::Js
                } else {
                    Target::Other(s)
                }
            },
        }
    }
}

/// What a successful build produced: the build directory, and the artifact
/// path the toolchain was told to write.
#[derive(Debug)]
pub struct BuildOutput {
    pub target: Target,
    pub build_dir: String,
    pub artifact: String,
}

impl BuildOutput {
    /// The target-specific success report.  Canonical targets name their
    /// conventional artifact; any other target is reported generically,
    /// with its name verbatim.  The dispatch affects only this report,
    /// never the compiled bytes.
    pub fn success_report(&self) -> (r: String)
        ensures
            self.target is Executable ==> r@ == "Compilation completed. Output: "@ + self.build_dir@
                + "/main"@,
            self.target is Wasm ==> r@ == "WASM compilation completed. Output: "@ + self.build_dir@
                + "/main.wasm"@,
            self.target is Js ==> r@ == "JavaScript compilation completed. Output: "@
                + self.build_dir@ + "/main.js"@,
            self.target matches Target::Other(name) ==> r@ == "Compilation completed for target: "@
                + name@,
    {
        match &self.target {
            Target::Executable => "Compilation completed. Output: ".to_owned().concat(
                self.build_dir.as_str(),
            ).concat("/main"),
            Target::Wasm => "WASM compilation completed. Output: ".to_owned().concat(
                self.build_dir.as_str(),
            ).concat("/main.wasm"),
            Target::Js => "JavaScript compilation completed. Output: ".to_owned().concat(
                self.build_dir.as_str(),
            ).concat("/main.js"),
            Target::Other(name) => "Compilation completed for target: ".to_owned().concat(
                name.as_str(),
            ),
        }
    }
}

/// A finished subprocess: its exit status and captured streams.
#[derive(Debug)]
pub struct ExecutionResult {
    pub exit_ok: bool,
    pub stdout: Vec<u8>,
    pub stderr: Vec<u8>,
}

impl ExecutionResult {
    /// Captured standard output is relayed unconditionally; captured
    /// standard error only when there is any.
    pub fn relay_stderr(&self) -> (r: bool)
        ensures
            r == (self.stderr@.len() > 0),
    {
        self.stderr.len() > 0
    }
}

/// Why a build could not complete.
#[derive(Debug)]
pub enum BuildError {
    /// The working directory holds no project descriptor file.
    NotAProject,
    /// The conventional entry source file is absent; carries its path.
    SourceNotFound(String),
    /// No toolchain executable exists anywhere in the search order;
    /// carries every path that was probed, in that order.
    ToolchainNotFound(Vec<String>),
    /// The toolchain exited non-zero; carries its standard error verbatim.
    CompileFailed(String),
    /// The build output directory could not be created; carries the
    /// underlying I/O error text.
    DirCreateFailed(String),
}

/// The diagnostic text owed for each build error.  The compile diagnostic
/// carries the toolchain's standard error verbatim, neither swallowed nor
/// summarized.
pub open spec fn build_error_message_is(e: BuildError, m: Seq<char>) -> bool {
    match e {
        BuildError::NotAProject => m
            == "No IPL project found (ipl.yaml not found). Are you in an IPL project directory?"@,
        BuildError::SourceNotFound(p) => m == "Main IPL file not found: "@ + p@,
        BuildError::ToolchainNotFound(_) => m
            == "IPL compiler (ipl_compiler) not found. Please build the IStudio project first."@,
        BuildError::CompileFailed(s) => m == "IPL compiler failed: "@ + s@,
        BuildError::DirCreateFailed(s) => m == "Could not create build directory: "@ + s@,
    }
}

impl BuildError {
    /// The one-line diagnostic the front end prints for this error.
    pub fn message(&self) -> (r: String)
        ensures
            build_error_message_is(*self, r@),
    {
        match self {
            BuildError::NotAProject => {
                "No IPL project found (ipl.yaml not found). Are you in an IPL project directory?".to_owned()
            },
            BuildError::SourceNotFound(p) => "Main IPL file not found: ".to_owned().concat(
                p.as_str(),
            ),
            BuildError::ToolchainNotFound(_) => {
                "IPL compiler (ipl_compiler) not found. Please build the IStudio project first.".to_owned()
            },
            BuildError::CompileFailed(s) => "IPL compiler failed: ".to_owned().concat(s.as_str()),
            BuildError::DirCreateFailed(s) => "Could not create build directory: ".to_owned()
                .concat(s.as_str()),
        }
    }
}

/// Why a run could not complete: the rebuild failed, or the produced
/// artifact could not be launched.
#[derive(Debug)]
pub enum RunError {
    Build(BuildError),
    LaunchFailed(String),
}

impl RunError {
    /// The one-line diagnostic the front end prints for this error: a
    /// wrapped build failure keeps the build's own diagnostic.
    pub fn message(&self) -> (r: String)
        ensures
            self matches RunError::Build(b) ==> build_error_message_is(*b, r@),
            self matches RunError::LaunchFailed(s) ==> r@ == "Failed to launch artifact: "@ + s@,
    {
        match self {
            RunError::Build(b) => b.message(),
            RunError::LaunchFailed(s) => "Failed to launch artifact: ".to_owned().concat(
                s.as_str(),
            ),
        }
    }
}

/// Why a clean could not complete.
#[derive(Debug)]
pub enum CleanError {
    /// The working directory holds no project descriptor file.
    NotAProject,
    /// Removing the build output directory failed; carries the underlying
    /// I/O error text.
    RemoveFailed(String),
}

impl CleanError {
    /// The one-line diagnostic the front end prints for this error.
    pub fn message(&self) -> (r: String)
        ensures
            self is NotAProject ==> r@ == (
            "No IPL project found (ipl.yaml not found). Are you in an IPL project directory?"@),
            self matches CleanError::RemoveFailed(s) ==> r@
                == "Could not remove build directory: "@ + s@,
    {
        match self {
            CleanError::NotAProject => {
                "No IPL project found (ipl.yaml not found). Are you in an IPL project directory?".to_owned()
            },
            CleanError::RemoveFailed(s) => "Could not remove build directory: ".to_owned().concat(
                s.as_str(),
            ),
        }
    }
}

/// What a clean reported: whether the build directory was actually removed,
/// and the auxiliary artifact patterns that are advisory removal candidates.
#[derive(Debug)]
pub struct CleanReport {
    pub removed_build_dir: bool,
    pub advisory_patterns: Vec<String>,
}

/// The fixed list of auxiliary artifact patterns a clean reports as removal
/// candidates.  Enumerating them is this core's whole responsibility; acting
/// on them is delegated.
pub open spec fn advisory_pattern_views() -> Seq<Seq<char>> {
    seq![
        "target/"@,
        "dist/"@,
        "*.o"@,
        "*.obj"@,
        "*.a"@,
        "*.lib"@,
        "*.so"@,
        "*.dylib"@,
        "*.dll"@,
    ]
}

/// The auxiliary artifact patterns, as values.
pub fn artifact_patterns() -> (r: Vec<String>)
    ensures
        views(r@) == advisory_pattern_views(),
{
    let mut r: Vec<String> = Vec::new();
    r.push("target/".to_owned());
    r.push("dist/".to_owned());
    r.push("*.o".to_owned());
    r.push("*.obj".to_owned());
    r.push("*.a".to_owned());
    r.push("*.lib".to_owned());
    r.push("*.so".to_owned());
    r.push("*.dylib".to_owned());
    r.push("*.dll".to_owned());
    proof {
        assert(views(r@) =~= advisory_pattern_views());
    }
    r
}

impl Compiler {
    /// What a clean must do, given what exists: nothing may be touched
    /// without the project descriptor; with it, the build directory is to
    /// be removed exactly when it exists, and its absence is a no-op, not
    /// an error.
    pub fn clean_plan(&self, descriptor_present: bool, build_dir_exists: bool) -> (r: Result<
        Option<String>,
        CleanError,
    >)
        ensures
            !descriptor_present ==> r == Result::<Option<String>, CleanError>::Err(
                CleanError::NotAProject,
            ),
            descriptor_present && build_dir_exists ==> (r matches Ok(Some(p)) && p@
                == self.build_dir@),
            descriptor_present && !build_dir_exists ==> r == Result::<Option<String>, CleanError>::Ok(
                None,
            ),
    {
        if !descriptor_present {
            Err(CleanError::NotAProject)
        } else if build_dir_exists {
            Ok(Some(self.build_dir.clone()))
        } else {
            Ok(None)
        }
    }

    /// The report a clean returns once the planned removal (if any) has been
    /// attempted: an I/O failure is surfaced, otherwise the report says
    /// whether the directory was removed and lists the advisory patterns.
    pub fn clean_result(&self, build_dir_existed: bool, removal_error: Option<String>) -> (r:
        Result<CleanReport, CleanError>)
        ensures
            removal_error matches Some(e) ==> r == Result::<CleanReport, CleanError>::Err(
                CleanError::RemoveFailed(e),
            ),
            removal_error is None ==> (r matches Ok(rep) && rep.removed_build_dir
                == build_dir_existed && views(rep.advisory_patterns@) == advisory_pattern_views()),
    {
        match removal_error {
            Some(e) => Err(CleanError::RemoveFailed(e)),
            None => Ok(
                CleanReport {
                    removed_build_dir: build_dir_existed,
                    advisory_patterns: artifact_patterns(),
                },
            ),
        }
    }
}

} // verus!
