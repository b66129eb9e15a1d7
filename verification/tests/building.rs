use ipl_cli::compiler::{BuildError, Compiler, Target};
use ipl_cli::pipeline::{BuildAction, BuildEvent, BuildMachine, BuildStep};

fn advance(c: &Compiler, m: BuildMachine, e: BuildEvent) -> BuildMachine {
    match c.build_step(m, e) {
        BuildStep::Continue(next) => next,
        other => panic!("expected the build to continue, got {:?}", other),
    }
}

#[test]
fn build_fails_without_descriptor() {
    let c = Compiler::new();
    let m = c.build_start(None);
    match c.build_action(&m) {
        BuildAction::CheckDescriptor { path } => assert_eq!(path, "ipl.yaml"),
        other => panic!("expected a descriptor check, got {:?}", other),
    }
    match c.build_step(m, BuildEvent::DescriptorChecked { present: false }) {
        BuildStep::Fail(BuildError::NotAProject) => {},
        other => panic!("expected NotAProject, got {:?}", other),
    }
}

#[test]
fn build_reuses_an_existing_directory() {
    let c = Compiler::new();
    let m = c.build_start(None);
    let m = advance(&c, m, BuildEvent::DescriptorChecked { present: true });
    match c.build_action(&m) {
        BuildAction::EnsureDir { path } => assert_eq!(path, "build"),
        other => panic!("expected a directory step, got {:?}", other),
    }
    // A directory that is already there is reused, never an error.
    let m = advance(
        &c,
        m,
        BuildEvent::DirEnsured { already_existed: true, create_error: None },
    );
    match c.build_action(&m) {
        BuildAction::CheckFile { path } => assert_eq!(path, "src/main.ipl"),
        other => panic!("expected a source check, got {:?}", other),
    }
}

#[test]
fn build_surfaces_directory_creation_failure() {
    let c = Compiler::new();
    let m = c.build_start(None);
    let m = advance(&c, m, BuildEvent::DescriptorChecked { present: true });
    match c.build_step(
        m,
        BuildEvent::DirEnsured {
            already_existed: false,
            create_error: Some("permission denied".to_string()),
        },
    ) {
        BuildStep::Fail(BuildError::DirCreateFailed(e)) => assert_eq!(e, "permission denied"),
        other => panic!("expected DirCreateFailed, got {:?}", other),
    }
}

#[test]
fn build_fails_without_the_entry_source() {
    let c = Compiler::new();
    let m = c.build_start(None);
    let m = advance(&c, m, BuildEvent::DescriptorChecked { present: true });
    let m = advance(
        &c,
        m,
        BuildEvent::DirEnsured { already_existed: false, create_error: None },
    );
    match c.build_step(m, BuildEvent::SourceChecked { present: false }) {
        BuildStep::Fail(BuildError::SourceNotFound(p)) => assert_eq!(p, "src/main.ipl"),
        other => panic!("expected SourceNotFound, got {:?}", other),
    }
}

#[test]
fn build_succeeds_end_to_end() {
    // The project root holds the descriptor and the entry source; the
    // toolchain resolves to an existing candidate and reports success: the
    // default target yields the conventional artifact.
    let c = Compiler::new();
    let m = c.build_start(None);
    assert!(matches!(m.target, Target::Executable));
    let m = advance(&c, m, BuildEvent::DescriptorChecked { present: true });
    let m = advance(
        &c,
        m,
        BuildEvent::DirEnsured { already_existed: false, create_error: None },
    );
    let m = advance(&c, m, BuildEvent::SourceChecked { present: true });
    match c.build_action(&m) {
        BuildAction::ReadPathVar => {},
        other => panic!("expected a path variable read, got {:?}", other),
    }
    let m = advance(&c, m, BuildEvent::PathVarRead { value: None });
    let candidates = match c.build_action(&m) {
        BuildAction::CheckPaths { paths } => paths,
        other => panic!("expected existence probes, got {:?}", other),
    };
    assert_eq!(candidates[0], "../build/ipl_compiler");
    let flags = vec![true, false, false, false];
    let m = advance(&c, m, BuildEvent::CandidatesChecked { flags });
    match c.build_action(&m) {
        BuildAction::RunCompiler { toolchain, source, output } => {
            assert_eq!(toolchain, "../build/ipl_compiler");
            assert_eq!(source, "src/main.ipl");
            assert_eq!(output, "build/main");
        },
        other => panic!("expected the compile step, got {:?}", other),
    }
    match c.build_step(
        m,
        BuildEvent::CompilerFinished { exit_ok: true, stderr: String::new() },
    ) {
        BuildStep::Done(out) => {
            assert!(matches!(out.target, Target::Executable));
            assert_eq!(out.build_dir, "build");
            assert_eq!(out.artifact, "build/main");
            assert_eq!(out.success_report(), "Compilation completed. Output: build/main");
        },
        other => panic!("expected a finished build, got {:?}", other),
    }
}

#[test]
fn build_fails_before_any_spawn_without_a_toolchain() {
    // No toolchain exists anywhere in the search order: the build must fail
    // with ToolchainNotFound while still probing, before any subprocess step
    // is ever requested.
    let c = Compiler::new();
    let m = c.build_start(Some("wasm".to_string()));
    assert!(matches!(m.target, Target::Wasm));
    let m = advance(&c, m, BuildEvent::DescriptorChecked { present: true });
    let m = advance(
        &c,
        m,
        BuildEvent::DirEnsured { already_existed: true, create_error: None },
    );
    let m = advance(&c, m, BuildEvent::SourceChecked { present: true });
    let m = advance(&c, m, BuildEvent::PathVarRead { value: Some("/opt/bin".to_string()) });
    let candidates = match c.build_action(&m) {
        BuildAction::CheckPaths { paths } => paths,
        other => panic!("expected existence probes, got {:?}", other),
    };
    assert_eq!(candidates.len(), 5);
    let flags = vec![false; 5];
    match c.build_step(m, BuildEvent::CandidatesChecked { flags }) {
        BuildStep::Fail(BuildError::ToolchainNotFound(attempts)) => {
            assert_eq!(attempts, candidates);
        },
        other => panic!("expected ToolchainNotFound, got {:?}", other),
    }
}

#[test]
fn build_reports_the_compiler_diagnostic_verbatim() {
    let c = Compiler::new();
    let m = c.build_start(None);
    let m = advance(&c, m, BuildEvent::DescriptorChecked { present: true });
    let m = advance(
        &c,
        m,
        BuildEvent::DirEnsured { already_existed: true, create_error: None },
    );
    let m = advance(&c, m, BuildEvent::SourceChecked { present: true });
    let m = advance(&c, m, BuildEvent::PathVarRead { value: None });
    let flags = vec![false, false, true, false];
    let m = advance(&c, m, BuildEvent::CandidatesChecked { flags });
    match c.build_action(&m) {
        BuildAction::RunCompiler { toolchain, .. } => {
            assert_eq!(toolchain, "/usr/bin/ipl_compiler");
        },
        other => panic!("expected the compile step, got {:?}", other),
    }
    match c.build_step(
        m,
        BuildEvent::CompilerFinished {
            exit_ok: false,
            stderr: "main.ipl:3: unexpected token".to_string(),
        },
    ) {
        BuildStep::Fail(BuildError::CompileFailed(diag)) => {
            assert_eq!(diag, "main.ipl:3: unexpected token");
        },
        other => panic!("expected CompileFailed, got {:?}", other),
    }
}

#[test]
fn success_reports_are_target_specific() {
    let c = Compiler::new();
    let mut done = |target: Option<&str>| {
        let m = c.build_start(target.map(|t| t.to_string()));
        let m = advance(&c, m, BuildEvent::DescriptorChecked { present: true });
        let m = advance(
            &c,
            m,
            BuildEvent::DirEnsured { already_existed: true, create_error: None },
        );
        let m = advance(&c, m, BuildEvent::SourceChecked { present: true });
        let m = advance(&c, m, BuildEvent::PathVarRead { value: None });
        let m = advance(
            &c,
            m,
            BuildEvent::CandidatesChecked { flags: vec![true, false, false, false] },
        );
        match c.build_step(
            m,
            BuildEvent::CompilerFinished { exit_ok: true, stderr: String::new() },
        ) {
            BuildStep::Done(out) => out,
            other => panic!("expected a finished build, got {:?}", other),
        }
    };
    assert_eq!(
        done(Some("executable")).success_report(),
        "Compilation completed. Output: build/main"
    );
    assert_eq!(
        done(Some("wasm")).success_report(),
        "WASM compilation completed. Output: build/main.wasm"
    );
    assert_eq!(
        done(Some("js")).success_report(),
        "JavaScript compilation completed. Output: build/main.js"
    );
    assert_eq!(
        done(Some("arm64")).success_report(),
        "Compilation completed for target: arm64"
    );
}

#[test]
fn build_error_messages() {
    assert_eq!(
        BuildError::NotAProject.message(),
        "No IPL project found (ipl.yaml not found). Are you in an IPL project directory?"
    );
    assert_eq!(
        BuildError::SourceNotFound("src/main.ipl".to_string()).message(),
        "Main IPL file not found: src/main.ipl"
    );
    assert_eq!(
        BuildError::ToolchainNotFound(vec!["./ipl_compiler".to_string()]).message(),
        "IPL compiler (ipl_compiler) not found. Please build the IStudio project first."
    );
    assert_eq!(
        BuildError::CompileFailed("bad token".to_string()).message(),
        "IPL compiler failed: bad token"
    );
    assert_eq!(
        BuildError::DirCreateFailed("disk full".to_string()).message(),
        "Could not create build directory: disk full"
    );
}
