use ipl_cli::compiler::{BuildError, Compiler, ExecutionResult, RunError};
use ipl_cli::pipeline::{BuildEvent, BuildPhase};
use ipl_cli::run::{RunAction, RunEvent, RunOutcome, RunPhase, RunStep};

fn advance(c: &Compiler, p: RunPhase, e: RunEvent) -> RunPhase {
    match c.run_step(p, e) {
        RunStep::Continue(next) => next,
        other => panic!("expected the run to continue, got {:?}", other),
    }
}

/// Drives the embedded build through a full success, up to the artifact
/// check.
fn run_through_build(c: &Compiler) -> RunPhase {
    let p = c.run_start();
    let p = advance(c, p, RunEvent::DescriptorChecked { present: true });
    let p = advance(c, p, RunEvent::Build(BuildEvent::DescriptorChecked { present: true }));
    let p = advance(
        c,
        p,
        RunEvent::Build(BuildEvent::DirEnsured { already_existed: true, create_error: None }),
    );
    let p = advance(c, p, RunEvent::Build(BuildEvent::SourceChecked { present: true }));
    let p = advance(c, p, RunEvent::Build(BuildEvent::PathVarRead { value: None }));
    let p = advance(
        c,
        p,
        RunEvent::Build(
            BuildEvent::CandidatesChecked { flags: vec![true, false, false, false] },
        ),
    );
    advance(
        c,
        p,
        RunEvent::Build(BuildEvent::CompilerFinished { exit_ok: true, stderr: String::new() }),
    )
}

#[test]
fn run_fails_without_descriptor() {
    let c = Compiler::new();
    let p = c.run_start();
    match c.run_action(&p) {
        RunAction::CheckDescriptor { path } => assert_eq!(path, "ipl.yaml"),
        other => panic!("expected a descriptor check, got {:?}", other),
    }
    match c.run_step(p, RunEvent::DescriptorChecked { present: false }) {
        RunStep::Fail(RunError::Build(BuildError::NotAProject)) => {},
        other => panic!("expected NotAProject, got {:?}", other),
    }
}

#[test]
fn run_rebuilds_before_executing() {
    // The sequencing itself: a run begins with a full build of the default
    // target and only then looks at the artifact.
    let c = Compiler::new();
    let p = c.run_start();
    let p = advance(&c, p, RunEvent::DescriptorChecked { present: true });
    match &p {
        RunPhase::Building(bm) => assert!(matches!(bm.phase, BuildPhase::CheckingProject)),
        other => panic!("expected the embedded build to start, got {:?}", other),
    }
    let p = run_through_build(&c);
    match &p {
        RunPhase::CheckingArtifact => {},
        other => panic!("expected the artifact check, got {:?}", other),
    }
    match c.run_action(&p) {
        RunAction::CheckArtifact { path } => assert_eq!(path, "build/main"),
        other => panic!("expected an artifact check, got {:?}", other),
    }
}

#[test]
fn run_reports_a_failed_compile_and_executes_nothing() {
    // A project whose source fails to compile: the run must report
    // CompileFailed and never reach the executing phase.
    let c = Compiler::new();
    let p = c.run_start();
    let p = advance(&c, p, RunEvent::DescriptorChecked { present: true });
    let p = advance(&c, p, RunEvent::Build(BuildEvent::DescriptorChecked { present: true }));
    let p = advance(
        &c,
        p,
        RunEvent::Build(BuildEvent::DirEnsured { already_existed: true, create_error: None }),
    );
    let p = advance(&c, p, RunEvent::Build(BuildEvent::SourceChecked { present: true }));
    let p = advance(&c, p, RunEvent::Build(BuildEvent::PathVarRead { value: None }));
    let p = advance(
        &c,
        p,
        RunEvent::Build(
            BuildEvent::CandidatesChecked { flags: vec![true, false, false, false] },
        ),
    );
    match c.run_step(
        p,
        RunEvent::Build(
            BuildEvent::CompilerFinished { exit_ok: false, stderr: "type error".to_string() },
        ),
    ) {
        RunStep::Fail(RunError::Build(BuildError::CompileFailed(diag))) => {
            assert_eq!(diag, "type error");
        },
        other => panic!("expected CompileFailed, got {:?}", other),
    }
}

#[test]
fn run_executes_the_artifact_and_relays_streams() {
    let c = Compiler::new();
    let p = run_through_build(&c);
    let p = advance(&c, p, RunEvent::ArtifactChecked { present: true });
    match c.run_action(&p) {
        RunAction::Execute { path } => assert_eq!(path, "build/main"),
        other => panic!("expected execution, got {:?}", other),
    }
    let result = ExecutionResult {
        exit_ok: true,
        stdout: b"hello\n".to_vec(),
        stderr: Vec::new(),
    };
    match c.run_step(p, RunEvent::ExecFinished(Ok(result))) {
        RunStep::Done(RunOutcome::Executed(res)) => {
            assert_eq!(res.stdout, b"hello\n");
            // Standard output is relayed unconditionally; empty standard
            // error is not.
            assert!(!res.relay_stderr());
        },
        other => panic!("expected an executed artifact, got {:?}", other),
    }
}

#[test]
fn run_relays_nonempty_stderr() {
    let res = ExecutionResult {
        exit_ok: false,
        stdout: Vec::new(),
        stderr: b"warning\n".to_vec(),
    };
    assert!(res.relay_stderr());
}

#[test]
fn run_surfaces_a_launch_failure() {
    let c = Compiler::new();
    let p = run_through_build(&c);
    let p = advance(&c, p, RunEvent::ArtifactChecked { present: true });
    match c.run_step(p, RunEvent::ExecFinished(Err("not executable".to_string()))) {
        RunStep::Fail(RunError::LaunchFailed(e)) => assert_eq!(e, "not executable"),
        other => panic!("expected LaunchFailed, got {:?}", other),
    }
}

#[test]
fn run_recovers_by_compiling_the_source_directly() {
    // The artifact is unexpectedly absent after a successful build: the run
    // falls back to direct compilation, with the build's own source and
    // toolchain steps, and ends having rebuilt without executing.
    let c = Compiler::new();
    let p = run_through_build(&c);
    let p = advance(&c, p, RunEvent::ArtifactChecked { present: false });
    match &p {
        RunPhase::Recovering(bm) => assert!(matches!(bm.phase, BuildPhase::CheckingSource)),
        other => panic!("expected recovery, got {:?}", other),
    }
    let p = advance(&c, p, RunEvent::Build(BuildEvent::SourceChecked { present: true }));
    let p = advance(&c, p, RunEvent::Build(BuildEvent::PathVarRead { value: None }));
    let p = advance(
        &c,
        p,
        RunEvent::Build(
            BuildEvent::CandidatesChecked { flags: vec![false, true, false, false] },
        ),
    );
    match c.run_step(
        p,
        RunEvent::Build(BuildEvent::CompilerFinished { exit_ok: true, stderr: String::new() }),
    ) {
        RunStep::Done(RunOutcome::Rebuilt) => {},
        other => panic!("expected a rebuilt project, got {:?}", other),
    }
}

#[test]
fn run_recovery_fails_without_the_source() {
    let c = Compiler::new();
    let p = run_through_build(&c);
    let p = advance(&c, p, RunEvent::ArtifactChecked { present: false });
    match c.run_step(p, RunEvent::Build(BuildEvent::SourceChecked { present: false })) {
        RunStep::Fail(RunError::Build(BuildError::SourceNotFound(f))) => {
            assert_eq!(f, "src/main.ipl");
        },
        other => panic!("expected SourceNotFound, got {:?}", other),
    }
}

#[test]
fn run_error_messages() {
    assert_eq!(
        RunError::Build(BuildError::CompileFailed("oops".to_string())).message(),
        "IPL compiler failed: oops"
    );
    assert_eq!(
        RunError::LaunchFailed("no such file".to_string()).message(),
        "Failed to launch artifact: no such file"
    );
}
