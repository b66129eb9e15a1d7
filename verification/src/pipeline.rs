//! The build pipeline, as a state machine.
//!
//! Each phase names the one effect the caller must perform next
//! (`build_action`); the caller reports what it observed as an event, and
//! `build_step` decides how the pipeline proceeds.  Every decision is made
//! here and verified; the caller only checks, creates, reads and spawns as
//! told.  The shape of the machine itself carries the sequencing guarantees:
//! nothing mutates the filesystem before the project descriptor was seen,
//! and the toolchain subprocess is spawned exactly once, only after the
//! locator resolved a toolchain.

use vstd::prelude::*;
use crate::compiler::{BuildError, BuildOutput, Compiler, Target, target_spec};
use crate::locate::{candidate_views, first_true, toolchain_candidates, first_existing};
use crate::views;

verus! {

/// Where the build pipeline stands: each phase waits for the outcome of one
/// effect.
#[derive(Debug)]
pub enum BuildPhase {
    /// Waiting to learn whether the project descriptor file exists.
    CheckingProject,
    /// Waiting for the build output directory to be created or reused.
    EnsuringDir,
    /// Waiting to learn whether the entry source file exists.
    CheckingSource,
    /// Waiting for the value of the `PATH`-style environment variable.
    ReadingPath,
    /// Waiting for existence flags over the candidate toolchain paths.
    Probing { candidates: Vec<String> },
    /// Waiting for the toolchain subprocess to finish.
    Compiling { toolchain: String },
}

/// A build in progress: the resolved target and the current phase.
#[derive(Debug)]
pub struct BuildMachine {
    pub target: Target,
    pub phase: BuildPhase,
}

/// The one effect a phase asks its caller to perform.
#[derive(Debug)]
pub enum BuildAction {
    /// Check whether the file exists; do not create anything.
    CheckDescriptor { path: String },
    /// Create the directory (and any parents) if absent; reuse it if
    /// present, without touching its contents.
    EnsureDir { path: String },
    /// Check whether the file exists.
    CheckFile { path: String },
    /// Read the `PATH`-style environment variable.
    ReadPathVar,
    /// Check each path for existence, in order; execute nothing.
    CheckPaths { paths: Vec<String> },
    /// Spawn the toolchain on the source file with the output path as
    /// destination, wait for it, and capture exit status and stderr.
    RunCompiler { toolchain: String, source: String, output: String },
}

/// What the caller observed after performing the requested action.
#[derive(Debug)]
pub enum BuildEvent {
    DescriptorChecked { present: bool },
    /// `already_existed` reports a directory that was there before; only a
    /// directory that had to be created can carry a creation error.
    DirEnsured { already_existed: bool, create_error: Option<String> },
    SourceChecked { present: bool },
    /// The variable's value, or `None` when it is unset.
    PathVarRead { value: Option<String> },
    /// One existence flag per candidate, in the candidates' order.
    CandidatesChecked { flags: Vec<bool> },
    /// The toolchain's exit status and captured standard error.
    CompilerFinished { exit_ok: bool, stderr: String },
}

/// How the pipeline proceeds after an event.
#[derive(Debug)]
pub enum BuildStep {
    Continue(BuildMachine),
    Done(BuildOutput),
    Fail(BuildError),
}

/// The event a phase can answer: each phase accepts exactly the outcome of
/// its own action.
pub open spec fn build_event_fits(phase: BuildPhase, e: BuildEvent) -> bool {
    match (phase, e) {
        (BuildPhase::CheckingProject, BuildEvent::DescriptorChecked { .. }) => true,
        (
            BuildPhase::EnsuringDir,
            BuildEvent::DirEnsured { already_existed, create_error },
        ) => already_existed ==> create_error is None,
        (BuildPhase::CheckingSource, BuildEvent::SourceChecked { .. }) => true,
        (BuildPhase::ReadingPath, BuildEvent::PathVarRead { .. }) => true,
        (
            BuildPhase::Probing { candidates },
            BuildEvent::CandidatesChecked { flags },
        ) => candidates@.len() == flags@.len(),
        (BuildPhase::Compiling { .. }, BuildEvent::CompilerFinished { .. }) => true,
        _ => false,
    }
}

/// The action each phase calls for.
pub open spec fn build_action_spec(c: Compiler, m: BuildMachine, a: BuildAction) -> bool {
    match m.phase {
        BuildPhase::CheckingProject => a matches BuildAction::CheckDescriptor { path } && path@
            == "ipl.yaml"@,
        BuildPhase::EnsuringDir => a matches BuildAction::EnsureDir { path } && path@
            == c.build_dir@,
        BuildPhase::CheckingSource => a matches BuildAction::CheckFile { path } && path@
            == c.main_file@,
        BuildPhase::ReadingPath => a is ReadPathVar,
        BuildPhase::Probing { candidates } => a matches BuildAction::CheckPaths { paths } && views(
            paths@,
        ) == views(candidates@),
        BuildPhase::Compiling { toolchain } => a matches BuildAction::RunCompiler {
            toolchain: t,
            source,
            output,
        } && t@ == toolchain@ && source@ == c.main_file@ && output@ == c.build_dir@ + "/main"@,
    }
}

/// Does the action change the filesystem, or only observe it?
pub open spec fn build_action_mutates(a: BuildAction) -> bool {
    match a {
        BuildAction::CheckDescriptor { .. } => false,
        BuildAction::EnsureDir { .. } => true,
        BuildAction::CheckFile { .. } => false,
        BuildAction::ReadPathVar => false,
        BuildAction::CheckPaths { .. } => false,
        BuildAction::RunCompiler { .. } => true,
    }
}

/// The phases in pipeline order.
pub open spec fn build_phase_rank(p: BuildPhase) -> int {
    match p {
        BuildPhase::CheckingProject => 0,
        BuildPhase::EnsuringDir => 1,
        BuildPhase::CheckingSource => 2,
        BuildPhase::ReadingPath => 3,
        BuildPhase::Probing { .. } => 4,
        BuildPhase::Compiling { .. } => 5,
    }
}

/// The transition the pipeline must take: how each phase answers its event.
pub open spec fn build_step_spec(c: Compiler, m: BuildMachine, e: BuildEvent, r: BuildStep) -> bool {
    match (m.phase, e) {
        (BuildPhase::CheckingProject, BuildEvent::DescriptorChecked { present }) => if present {
            r matches BuildStep::Continue(m2) && m2.target == m.target && m2.phase is EnsuringDir
        } else {
            r == BuildStep::Fail(BuildError::NotAProject)
        },
        (BuildPhase::EnsuringDir, BuildEvent::DirEnsured { already_existed, create_error }) => if (
        already_existed || create_error is None) {
            r matches BuildStep::Continue(m2) && m2.target == m.target
                && m2.phase is CheckingSource
        } else {
            create_error matches Some(err) && r == BuildStep::Fail(
                BuildError::DirCreateFailed(err),
            )
        },
        (BuildPhase::CheckingSource, BuildEvent::SourceChecked { present }) => if present {
            r matches BuildStep::Continue(m2) && m2.target == m.target && m2.phase is ReadingPath
        } else {
            r matches BuildStep::Fail(err) && err matches BuildError::SourceNotFound(p) && p@
                == c.main_file@
        },
        (BuildPhase::ReadingPath, BuildEvent::PathVarRead { value }) => r matches
            BuildStep::Continue(m2) && m2.target == m.target && (m2.phase matches
        BuildPhase::Probing { candidates } && views(candidates@) == candidate_views(value)),
        (BuildPhase::Probing { candidates }, BuildEvent::CandidatesChecked { flags }) => match
            first_true(flags@) {
            Some(i) => r matches BuildStep::Continue(m2) && m2.target == m.target && (m2.phase
                matches BuildPhase::Compiling { toolchain } && toolchain@ == candidates@[i]@),
            None => r matches BuildStep::Fail(err) && err matches BuildError::ToolchainNotFound(
                attempts,
            ) && views(attempts@) == views(candidates@),
        },
        (BuildPhase::Compiling { toolchain }, BuildEvent::CompilerFinished { exit_ok, stderr }) => if exit_ok {
            r matches BuildStep::Done(out) && out.target == m.target && out.build_dir@
                == c.build_dir@ && out.artifact@ == c.build_dir@ + "/main"@
        } else {
            r == BuildStep::Fail(BuildError::CompileFailed(stderr))
        },
        _ => false,
    }
}

impl Compiler {
    /// Starts a build of the requested target.  The first step validates the
    /// project context; nothing is touched before that.
    pub fn build_start(&self, target: Option<String>) -> (m: BuildMachine)
        ensures
            m.target == target_spec(target),
            m.phase is CheckingProject,
    {
        BuildMachine { target: Target::resolve(target), phase: BuildPhase::CheckingProject }
    }

    /// The one effect the caller must perform for the machine's current
    /// phase.
    pub fn build_action(&self, m: &BuildMachine) -> (a: BuildAction)
        ensures
            build_action_spec(*self, *m, a),
    {
        match &m.phase {
            BuildPhase::CheckingProject => BuildAction::CheckDescriptor {
                path: "ipl.yaml".to_owned(),
            },
            BuildPhase::EnsuringDir => BuildAction::EnsureDir { path: self.build_dir.clone() },
            BuildPhase::CheckingSource => BuildAction::CheckFile { path: self.main_file.clone() },
            BuildPhase::ReadingPath => BuildAction::ReadPathVar,
            BuildPhase::Probing { candidates } => {
                let paths = clone_paths(candidates);
                BuildAction::CheckPaths { paths }
            },
            BuildPhase::Compiling { toolchain } => BuildAction::RunCompiler {
                toolchain: toolchain.clone(),
                source: self.main_file.clone(),
                output: self.build_dir.clone().concat("/main"),
            },
        }
    }

    /// Advances the pipeline by one observed event.
    pub fn build_step(&self, m: BuildMachine, e: BuildEvent) -> (r: BuildStep)
        requires
            build_event_fits(m.phase, e),
        ensures
            build_step_spec(*self, m, e, r),
    {
        let BuildMachine { target, phase } = m;
        match (phase, e) {
            (BuildPhase::CheckingProject, BuildEvent::DescriptorChecked { present }) => {
                if present {
                    BuildStep::Continue(BuildMachine { target, phase: BuildPhase::EnsuringDir })
                } else {
                    BuildStep::Fail(BuildError::NotAProject)
                }
            },
            (BuildPhase::EnsuringDir, BuildEvent::DirEnsured { already_existed, create_error }) => {
                match create_error {
                    None => BuildStep::Continue(
                        BuildMachine { target, phase: BuildPhase::CheckingSource },
                    ),
                    Some(err) => {
                        if already_existed {
                            BuildStep::Continue(
                                BuildMachine { target, phase: BuildPhase::CheckingSource },
                            )
                        } else {
                            BuildStep::Fail(BuildError::DirCreateFailed(err))
                        }
                    },
                }
            },
            (BuildPhase::CheckingSource, BuildEvent::SourceChecked { present }) => {
                if present {
                    BuildStep::Continue(BuildMachine { target, phase: BuildPhase::ReadingPath })
                } else {
                    BuildStep::Fail(BuildError::SourceNotFound(self.main_file.clone()))
                }
            },
            (BuildPhase::ReadingPath, BuildEvent::PathVarRead { value }) => {
                let candidates = toolchain_candidates(&value);
                BuildStep::Continue(
                    BuildMachine { target, phase: BuildPhase::Probing { candidates } },
                )
            },
            (BuildPhase::Probing { candidates }, BuildEvent::CandidatesChecked { flags }) => {
                match first_existing(&flags) {
                    Some(i) => {
                        let toolchain = candidates[i].clone();
                        BuildStep::Continue(
                            BuildMachine { target, phase: BuildPhase::Compiling { toolchain } },
                        )
                    },
                    None => BuildStep::Fail(BuildError::ToolchainNotFound(candidates)),
                }
            },
            (BuildPhase::Compiling { toolchain: _ }, BuildEvent::CompilerFinished {
                exit_ok,
                stderr,
            }) => {
                if exit_ok {
                    BuildStep::Done(
                        BuildOutput {
                            target,
                            build_dir: self.build_dir.clone(),
                            artifact: self.build_dir.clone().concat("/main"),
                        },
                    )
                } else {
                    BuildStep::Fail(BuildError::CompileFailed(stderr))
                }
            },
            _ => {
                proof {
                    assert(false);
                }
                vstd::pervasive::unreached()
            },
        }
    }
}

/// Copies a candidate list, keeping every path's characters.
fn clone_paths(paths: &Vec<String>) -> (r: Vec<String>)
    ensures
        views(r@) == views(paths@),
{
    let r = paths.clone();
    proof {
        assert(views(r@) =~= views(paths@));
    }
    r
}

} // verus!
