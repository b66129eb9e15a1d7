use ipl_cli::locate::{first_existing, split_list, toolchain_candidates};

#[test]
fn candidates_without_path_variable() {
    let c = toolchain_candidates(&None);
    assert_eq!(
        c,
        vec![
            "../build/ipl_compiler".to_string(),
            "/usr/local/bin/ipl_compiler".to_string(),
            "/usr/bin/ipl_compiler".to_string(),
            "./ipl_compiler".to_string(),
        ]
    );
}

#[test]
fn candidates_scan_path_directories_in_order() {
    let c = toolchain_candidates(&Some("/opt/bin:/home/dev/bin".to_string()));
    assert_eq!(c.len(), 6);
    assert_eq!(c[4], "/opt/bin/ipl_compiler");
    assert_eq!(c[5], "/home/dev/bin/ipl_compiler");
}

#[test]
fn candidates_treat_an_empty_path_entry_as_the_bare_name() {
    let c = toolchain_candidates(&Some("".to_string()));
    assert_eq!(c.len(), 5);
    assert_eq!(c[4], "ipl_compiler");
}

#[test]
fn split_keeps_every_segment() {
    let parts = split_list("a::b:", ':');
    assert_eq!(
        parts,
        vec!["a".to_string(), "".to_string(), "b".to_string(), "".to_string()]
    );
}

#[test]
fn first_existing_picks_the_first_present() {
    // Three candidates of which only the second and the third exist: the
    // second must win.
    let flags = vec![false, true, true];
    assert_eq!(first_existing(&flags), Some(1));
}

#[test]
fn first_existing_reports_nothing_found() {
    let flags = vec![false, false, false];
    assert_eq!(first_existing(&flags), None);
    assert_eq!(first_existing(&Vec::new()), None);
}
