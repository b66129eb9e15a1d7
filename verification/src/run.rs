//! The run pipeline: a fresh build of the default target, then execution of
//! the produced artifact.
//!
//! Run never executes a stale artifact: its machine embeds the whole build
//! machine and can only reach the executing phase through a completed build
//! followed by an artifact check.  When the artifact is unexpectedly absent
//! after a successful build, it falls back to compiling the source directly,
//! with the same entry-file and toolchain-resolution steps the build uses.

use vstd::prelude::*;
use crate::compiler::{BuildError, Compiler, ExecutionResult, RunError, Target};
use crate::pipeline::{
    build_event_fits, build_action_spec, build_step_spec, BuildAction, BuildEvent, BuildMachine,
    BuildPhase, BuildStep,
};

verus! {

/// Where the run pipeline stands.
#[derive(Debug)]
pub enum RunPhase {
    /// Waiting to learn whether the project descriptor file exists.
    CheckingProject,
    /// Driving the embedded build of the default target.
    Building(BuildMachine),
    /// Waiting to learn whether the built artifact exists.
    CheckingArtifact,
    /// Waiting for the executed artifact's captured outcome.
    Executing,
    /// The artifact was absent after a successful build: compiling the
    /// source directly, through the build machine's own source, locate and
    /// compile phases.
    Recovering(BuildMachine),
}

/// The one effect a run phase asks its caller to perform.
#[derive(Debug)]
pub enum RunAction {
    /// Check whether the file exists; do not create anything.
    CheckDescriptor { path: String },
    /// Perform the embedded build machine's action.
    Build(BuildAction),
    /// Check whether the file exists.
    CheckArtifact { path: String },
    /// Execute the artifact with no arguments, wait for it, and capture its
    /// exit status and both streams.
    Execute { path: String },
}

/// What the caller observed after performing the requested run action.
#[derive(Debug)]
pub enum RunEvent {
    DescriptorChecked { present: bool },
    Build(BuildEvent),
    ArtifactChecked { present: bool },
    /// The captured execution, or the launch error's text.
    ExecFinished(Result<ExecutionResult, String>),
}

/// What a completed run produced: an executed artifact with its captured
/// streams, or a successful direct recompilation with nothing executed.
#[derive(Debug)]
pub enum RunOutcome {
    Executed(ExecutionResult),
    Rebuilt,
}

/// How the run pipeline proceeds after an event.
#[derive(Debug)]
pub enum RunStep {
    Continue(RunPhase),
    Done(RunOutcome),
    Fail(RunError),
}

/// The event a run phase can answer.
pub open spec fn run_event_fits(phase: RunPhase, e: RunEvent) -> bool {
    match (phase, e) {
        (RunPhase::CheckingProject, RunEvent::DescriptorChecked { .. }) => true,
        (RunPhase::Building(bm), RunEvent::Build(be)) => build_event_fits(bm.phase, be),
        (RunPhase::CheckingArtifact, RunEvent::ArtifactChecked { .. }) => true,
        (RunPhase::Executing, RunEvent::ExecFinished(_)) => true,
        (RunPhase::Recovering(bm), RunEvent::Build(be)) => build_event_fits(bm.phase, be),
        _ => false,
    }
}

/// The action each run phase calls for.
pub open spec fn run_action_spec(c: Compiler, p: RunPhase, a: RunAction) -> bool {
    match p {
        RunPhase::CheckingProject => a matches RunAction::CheckDescriptor { path } && path@
            == "ipl.yaml"@,
        RunPhase::Building(bm) => a matches RunAction::Build(ba) && build_action_spec(c, bm, ba),
        RunPhase::CheckingArtifact => a matches RunAction::CheckArtifact { path } && path@
            == c.build_dir@ + "/main"@,
        RunPhase::Executing => a matches RunAction::Execute { path } && path@ == c.build_dir@
            + "/main"@,
        RunPhase::Recovering(bm) => a matches RunAction::Build(ba) && build_action_spec(c, bm, ba),
    }
}

/// Does the action change the filesystem or start a process, or only
/// observe?
pub open spec fn run_action_mutates(a: RunAction) -> bool {
    match a {
        RunAction::CheckDescriptor { .. } => false,
        RunAction::Build(ba) => crate::pipeline::build_action_mutates(ba),
        RunAction::CheckArtifact { .. } => false,
        RunAction::Execute { .. } => true,
    }
}

/// How a step of the embedded build advances the run: a continuing build
/// keeps building, a finished one moves on to the artifact check, a failed
/// one fails the run with the build's error.
pub open spec fn lift_build(rb: BuildStep) -> RunStep {
    match rb {
        BuildStep::Continue(m2) => RunStep::Continue(RunPhase::Building(m2)),
        BuildStep::Done(_) => RunStep::Continue(RunPhase::CheckingArtifact),
        BuildStep::Fail(err) => RunStep::Fail(RunError::Build(err)),
    }
}

/// How a step of the recovery compilation advances the run: a success ends
/// the run with nothing executed, a failure fails it with the build's error.
pub open spec fn lift_recovery(rb: BuildStep) -> RunStep {
    match rb {
        BuildStep::Continue(m2) => RunStep::Continue(RunPhase::Recovering(m2)),
        BuildStep::Done(_) => RunStep::Done(RunOutcome::Rebuilt),
        BuildStep::Fail(err) => RunStep::Fail(RunError::Build(err)),
    }
}

/// The run phases in pipeline order: the embedded build's phases sit between
/// the opening context check and the artifact check, and a recovery's sit
/// after the executing decision.
pub open spec fn run_phase_rank(p: RunPhase) -> int {
    match p {
        RunPhase::CheckingProject => 0,
        RunPhase::Building(bm) => 1 + crate::pipeline::build_phase_rank(bm.phase),
        RunPhase::CheckingArtifact => 7,
        RunPhase::Executing => 8,
        RunPhase::Recovering(bm) => 8 + crate::pipeline::build_phase_rank(bm.phase),
    }
}

/// The transition the run pipeline must take.
pub open spec fn run_step_spec(c: Compiler, p: RunPhase, e: RunEvent, r: RunStep) -> bool {
    match (p, e) {
        (RunPhase::CheckingProject, RunEvent::DescriptorChecked { present }) => if present {
            r matches RunStep::Continue(p2) && (p2 matches RunPhase::Building(bm) && bm.target
                is Executable && bm.phase is CheckingProject)
        } else {
            r == RunStep::Fail(RunError::Build(BuildError::NotAProject))
        },
        (RunPhase::Building(bm), RunEvent::Build(be)) => exists|rb: BuildStep|
            build_step_spec(c, bm, be, rb) && r == lift_build(rb),
        (RunPhase::CheckingArtifact, RunEvent::ArtifactChecked { present }) => if present {
            r == RunStep::Continue(RunPhase::Executing)
        } else {
            r matches RunStep::Continue(p2) && (p2 matches RunPhase::Recovering(bm) && bm.target
                is Executable && bm.phase is CheckingSource)
        },
        (RunPhase::Executing, RunEvent::ExecFinished(outcome)) => match outcome {
            Ok(res) => r == RunStep::Done(RunOutcome::Executed(res)),
            Err(msg) => r == RunStep::Fail(RunError::LaunchFailed(msg)),
        },
        (RunPhase::Recovering(bm), RunEvent::Build(be)) => exists|rb: BuildStep|
            build_step_spec(c, bm, be, rb) && r == lift_recovery(rb),
        _ => false,
    }
}

impl Compiler {
    /// Starts a run.  The first step validates the project context; the
    /// build that follows validates it again as every build does.
    pub fn run_start(&self) -> (p: RunPhase)
        ensures
            p is CheckingProject,
    {
        RunPhase::CheckingProject
    }

    /// The one effect the caller must perform for the run's current phase.
    pub fn run_action(&self, p: &RunPhase) -> (a: RunAction)
        ensures
            run_action_spec(*self, *p, a),
    {
        match p {
            RunPhase::CheckingProject => RunAction::CheckDescriptor { path: "ipl.yaml".to_owned() },
            RunPhase::Building(bm) => RunAction::Build(self.build_action(bm)),
            RunPhase::CheckingArtifact => RunAction::CheckArtifact {
                path: self.build_dir.clone().concat("/main"),
            },
            RunPhase::Executing => RunAction::Execute {
                path: self.build_dir.clone().concat("/main"),
            },
            RunPhase::Recovering(bm) => RunAction::Build(self.build_action(bm)),
        }
    }

    /// Advances the run pipeline by one observed event.
    pub fn run_step(&self, p: RunPhase, e: RunEvent) -> (r: RunStep)
        requires
            run_event_fits(p, e),
        ensures
            run_step_spec(*self, p, e, r),
    {
        match (p, e) {
            (RunPhase::CheckingProject, RunEvent::DescriptorChecked { present }) => {
                if present {
                    RunStep::Continue(
                        RunPhase::Building(
                            BuildMachine {
                                target: Target::Executable,
                                phase: BuildPhase::CheckingProject,
                            },
                        ),
                    )
                } else {
                    RunStep::Fail(RunError::Build(BuildError::NotAProject))
                }
            },
            (RunPhase::Building(bm), RunEvent::Build(be)) => {
                let ghost gbm = bm;
                let ghost gbe = be;
                let rb = self.build_step(bm, be);
                let ghost grb = rb;
                let r = match rb {
                    BuildStep::Continue(m2) => RunStep::Continue(RunPhase::Building(m2)),
                    BuildStep::Done(_) => RunStep::Continue(RunPhase::CheckingArtifact),
                    BuildStep::Fail(err) => RunStep::Fail(RunError::Build(err)),
                };
                proof {
                    assert(build_step_spec(*self, gbm, gbe, grb) && r == lift_build(grb));
                }
                r
            },
            (RunPhase::CheckingArtifact, RunEvent::ArtifactChecked { present }) => {
                if present {
                    RunStep::Continue(RunPhase::Executing)
                } else {
                    RunStep::Continue(
                        RunPhase::Recovering(
                            BuildMachine {
                                target: Target::Executable,
                                phase: BuildPhase::CheckingSource,
                            },
                        ),
                    )
                }
            },
            (RunPhase::Executing, RunEvent::ExecFinished(outcome)) => {
                match outcome {
                    Ok(res) => RunStep::Done(RunOutcome::Executed(res)),
                    Err(msg) => RunStep::Fail(RunError::LaunchFailed(msg)),
                }
            },
            (RunPhase::Recovering(bm), RunEvent::Build(be)) => {
                let ghost gbm = bm;
                let ghost gbe = be;
                let rb = self.build_step(bm, be);
                let ghost grb = rb;
                let r = match rb {
                    BuildStep::Continue(m2) => RunStep::Continue(RunPhase::Recovering(m2)),
                    BuildStep::Done(_) => RunStep::Done(RunOutcome::Rebuilt),
                    BuildStep::Fail(err) => RunStep::Fail(RunError::Build(err)),
                };
                proof {
                    assert(build_step_spec(*self, gbm, gbe, grb) && r == lift_recovery(grb));
                }
                r
            },
            _ => {
                proof {
                    assert(false);
                }
                vstd::pervasive::unreached()
            },
        }
    }
}

} // verus!
