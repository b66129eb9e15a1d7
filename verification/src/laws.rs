//! The pipeline guarantees, stated and proved over the machines' transition
//! and action specifications.

use vstd::prelude::*;
use crate::compiler::{BuildError, Compiler, RunError};
use crate::locate::first_true;
use crate::pipeline::{
    build_action_mutates, build_action_spec, build_phase_rank, build_step_spec, BuildAction,
    BuildEvent, BuildMachine, BuildStep,
};
use crate::run::{
    lift_build, lift_recovery, run_action_mutates, run_action_spec, run_phase_rank, run_step_spec,
    RunEvent, RunPhase, RunStep,
};

verus! {

/// A working directory without the project descriptor stops a build at its
/// very first step, with `NotAProject` and nothing else.
pub proof fn lemma_missing_descriptor_stops_build(
    c: Compiler,
    m: BuildMachine,
    e: BuildEvent,
    r: BuildStep,
)
    requires
        m.phase is CheckingProject,
        e == (BuildEvent::DescriptorChecked { present: false }),
        build_step_spec(c, m, e, r),
    ensures
        r == BuildStep::Fail(BuildError::NotAProject),
{
}

/// A working directory without the project descriptor stops a run the same
/// way.
pub proof fn lemma_missing_descriptor_stops_run(c: Compiler, p: RunPhase, e: RunEvent, r: RunStep)
    requires
        p is CheckingProject,
        e == (RunEvent::DescriptorChecked { present: false }),
        run_step_spec(c, p, e, r),
    ensures
        r == RunStep::Fail(RunError::Build(BuildError::NotAProject)),
{
}

/// Until the project context is validated, a build asks for nothing but a
/// read: the one action of the opening phase never mutates the filesystem,
/// so a failed context check leaves everything untouched.
pub proof fn lemma_build_context_check_reads_only(c: Compiler, m: BuildMachine, a: BuildAction)
    requires
        m.phase is CheckingProject,
        build_action_spec(c, m, a),
    ensures
        !build_action_mutates(a),
{
}

/// The same for a run: its opening phase only reads.
pub proof fn lemma_run_context_check_reads_only(
    c: Compiler,
    p: RunPhase,
    a: crate::run::RunAction,
)
    requires
        p is CheckingProject,
        run_action_spec(c, p, a),
    ensures
        !run_action_mutates(a),
{
}

/// A build output directory that already exists is reused as it is: the
/// directory phase proceeds and never fails on it, so building twice in
/// succession cannot fail over the directory's existence.
pub proof fn lemma_existing_build_dir_is_reused(
    c: Compiler,
    m: BuildMachine,
    e: BuildEvent,
    r: BuildStep,
)
    requires
        m.phase is EnsuringDir,
        e matches BuildEvent::DirEnsured { already_existed: true, create_error: _ },
        build_step_spec(c, m, e, r),
    ensures
        r matches BuildStep::Continue(m2) && m2.target == m.target
            && m2.phase is CheckingSource,
{
}

/// A failed compile fails the whole run with `CompileFailed`, carrying the
/// toolchain's diagnostic text verbatim: no stale artifact is executed.
pub proof fn lemma_run_reports_compile_failure(
    c: Compiler,
    p: RunPhase,
    e: RunEvent,
    r: RunStep,
    stderr: String,
)
    requires
        p matches RunPhase::Building(bm) && bm.phase is Compiling,
        e == RunEvent::Build(BuildEvent::CompilerFinished { exit_ok: false, stderr }),
        run_step_spec(c, p, e, r),
    ensures
        r == RunStep::Fail(RunError::Build(BuildError::CompileFailed(stderr))),
{
    match p {
        RunPhase::Building(bm) => {
            let be = BuildEvent::CompilerFinished { exit_ok: false, stderr };
            let rb = choose|rb: BuildStep| build_step_spec(c, bm, be, rb) && r == lift_build(rb);
            assert(rb == BuildStep::Fail(BuildError::CompileFailed(stderr)));
        },
        _ => {
            assert(false);
        },
    }
}

/// A run reaches its executing phase only straight from a positive artifact
/// check: execution always sits behind a completed build.
pub proof fn lemma_run_executes_only_checked_artifact(
    c: Compiler,
    p: RunPhase,
    e: RunEvent,
    r: RunStep,
)
    requires
        run_step_spec(c, p, e, r),
        r matches RunStep::Continue(p2) && p2 is Executing,
    ensures
        p is CheckingArtifact,
        e == (RunEvent::ArtifactChecked { present: true }),
{
    match (p, e) {
        (RunPhase::Building(bm), RunEvent::Build(be)) => {
            let rb = choose|rb: BuildStep| build_step_spec(c, bm, be, rb) && r == lift_build(rb);
            assert(false);
        },
        (RunPhase::Recovering(bm), RunEvent::Build(be)) => {
            let rb = choose|rb: BuildStep| build_step_spec(c, bm, be, rb) && r == lift_recovery(
                rb,
            );
            assert(false);
        },
        _ => {},
    }
}

/// The artifact check is reached only out of the embedded build, and only
/// when that build finished: together with the lemma above, execution always
/// sits behind a freshly completed build.
pub proof fn lemma_artifact_check_needs_finished_build(
    c: Compiler,
    p: RunPhase,
    e: RunEvent,
    r: RunStep,
)
    requires
        run_step_spec(c, p, e, r),
        r matches RunStep::Continue(p2) && p2 is CheckingArtifact,
    ensures
        p is Building,
{
    match (p, e) {
        (RunPhase::Building(bm), RunEvent::Build(be)) => {
            let rb = choose|rb: BuildStep| build_step_spec(c, bm, be, rb) && r == lift_build(rb);
        },
        (RunPhase::Recovering(bm), RunEvent::Build(be)) => {
            let rb = choose|rb: BuildStep| build_step_spec(c, bm, be, rb) && r == lift_recovery(
                rb,
            );
            assert(false);
        },
        _ => {},
    }
}

/// A build advances through its phases strictly in order, one at a time: no
/// phase is ever revisited, so each build performs each effect — the
/// toolchain subprocess among them — at most once.
pub proof fn lemma_build_never_revisits_a_phase(
    c: Compiler,
    m: BuildMachine,
    e: BuildEvent,
    r: BuildStep,
)
    requires
        build_step_spec(c, m, e, r),
        r matches BuildStep::Continue(m2),
    ensures
        r matches BuildStep::Continue(m2) && build_phase_rank(m2.phase) == build_phase_rank(
            m.phase,
        ) + 1,
{
}

/// The compile event ends the build either way: a success finishes it and a
/// failure is reported, never retried.
pub proof fn lemma_compile_is_never_retried(
    c: Compiler,
    m: BuildMachine,
    e: BuildEvent,
    r: BuildStep,
)
    requires
        m.phase is Compiling,
        build_step_spec(c, m, e, r),
    ensures
        !(r is Continue),
        e matches BuildEvent::CompilerFinished { exit_ok, .. } && (exit_ok <==> r is Done),
{
}

/// The only action that spawns the toolchain belongs to the compiling phase.
pub proof fn lemma_spawn_needs_resolved_toolchain(c: Compiler, m: BuildMachine, a: BuildAction)
    requires
        build_action_spec(c, m, a),
        a is RunCompiler,
    ensures
        m.phase is Compiling,
{
}

/// A run, too, only moves forward: every continuing step strictly raises the
/// phase's place in the pipeline, so no phase is revisited and the run
/// terminates.
pub proof fn lemma_run_never_revisits_a_phase(c: Compiler, p: RunPhase, e: RunEvent, r: RunStep)
    requires
        run_step_spec(c, p, e, r),
        r matches RunStep::Continue(p2),
    ensures
        r matches RunStep::Continue(p2) && run_phase_rank(p2) > run_phase_rank(p),
{
    match (p, e) {
        (RunPhase::Building(bm), RunEvent::Build(be)) => {
            let rb = choose|rb: BuildStep| build_step_spec(c, bm, be, rb) && r == lift_build(rb);
            match rb {
                BuildStep::Continue(m2) => {
                    lemma_build_never_revisits_a_phase(c, bm, be, rb);
                },
                BuildStep::Done(_) => {},
                BuildStep::Fail(_) => {
                    assert(false);
                },
            }
        },
        (RunPhase::Recovering(bm), RunEvent::Build(be)) => {
            let rb = choose|rb: BuildStep| build_step_spec(c, bm, be, rb) && r == lift_recovery(
                rb,
            );
            match rb {
                BuildStep::Continue(m2) => {
                    lemma_build_never_revisits_a_phase(c, bm, be, rb);
                },
                BuildStep::Done(_) => {
                    assert(false);
                },
                BuildStep::Fail(_) => {
                    assert(false);
                },
            }
        },
        _ => {},
    }
}

/// The compiling phase is entered only when probing found an existing
/// candidate: with no toolchain anywhere in the search order, no subprocess
/// is ever asked for.
pub proof fn lemma_compile_waits_for_toolchain(
    c: Compiler,
    m: BuildMachine,
    e: BuildEvent,
    r: BuildStep,
)
    requires
        build_step_spec(c, m, e, r),
        r matches BuildStep::Continue(m2) && m2.phase is Compiling,
    ensures
        m.phase is Probing,
        e matches BuildEvent::CandidatesChecked { flags } && first_true(flags@) is Some,
{
}

} // verus!
