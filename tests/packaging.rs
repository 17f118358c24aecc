use sidecar_lifecycle::artifact::{
    artifact_file_name, bundled_file_name, bundler_arguments, check_bundler, is_windows, join_path,
    package_plan, parse_host_triple, rename_plan, select_triple, PackError, RenamePlan,
};

#[test]
fn windows_triple_gets_exe_suffix() {
    assert_eq!(
        artifact_file_name("backend", "x86_64-pc-windows-msvc"),
        "backend-x86_64-pc-windows-msvc.exe"
    );
}

#[test]
fn unix_triples_get_no_suffix() {
    assert_eq!(
        artifact_file_name("backend", "x86_64-unknown-linux-gnu"),
        "backend-x86_64-unknown-linux-gnu"
    );
    assert_eq!(
        artifact_file_name("backend", "aarch64-apple-darwin"),
        "backend-aarch64-apple-darwin"
    );
}

#[test]
fn windows_detection() {
    assert!(is_windows("x86_64-pc-windows-msvc"));
    assert!(is_windows("i686-pc-windows-gnu"));
    assert!(!is_windows("x86_64-unknown-linux-gnu"));
    assert!(!is_windows("window"));
    assert!(!is_windows(""));
}

#[test]
fn bundled_name_keeps_base_and_extension() {
    assert_eq!(bundled_file_name("backend", "x86_64-pc-windows-msvc"), "backend.exe");
    assert_eq!(bundled_file_name("backend", "aarch64-apple-darwin"), "backend");
}

#[test]
fn host_line_is_read_from_toolchain_report() {
    let report = "rustc 1.80.0 (051478957 2024-07-21)\nbinary: rustc\nhost: x86_64-unknown-linux-gnu\nrelease: 1.80.0\n";
    assert_eq!(parse_host_triple(report), Some("x86_64-unknown-linux-gnu".to_string()));
}

#[test]
fn host_line_at_end_without_newline() {
    assert_eq!(parse_host_triple("host: aarch64-apple-darwin"), Some("aarch64-apple-darwin".to_string()));
}

#[test]
fn no_host_line_gives_none() {
    assert_eq!(parse_host_triple("rustc 1.80.0\nrelease: 1.80.0\n"), None);
    assert_eq!(parse_host_triple(""), None);
    // only a line that begins with the prefix counts
    assert_eq!(parse_host_triple("xhost: abc\n"), None);
}

#[test]
fn empty_host_value_gives_none() {
    assert_eq!(parse_host_triple("host: \nrelease: 1\n"), None);
}

#[test]
fn first_host_line_wins() {
    assert_eq!(parse_host_triple("host: first\nhost: second\n"), Some("first".to_string()));
}

#[test]
fn toolchain_triple_is_preferred() {
    let r = select_triple(Some("host: x86_64-unknown-linux-gnu\n"), Some("aarch64-apple-darwin"));
    assert_eq!(r, Ok("x86_64-unknown-linux-gnu".to_string()));
}

#[test]
fn environment_triple_is_the_fallback() {
    assert_eq!(
        select_triple(Some("release: 1.80.0\n"), Some("aarch64-apple-darwin")),
        Ok("aarch64-apple-darwin".to_string())
    );
    assert_eq!(select_triple(None, Some("i686-pc-windows-gnu")), Ok("i686-pc-windows-gnu".to_string()));
}

#[test]
fn no_triple_is_an_error() {
    assert_eq!(select_triple(None, None), Err(PackError::NoTargetTriple));
    assert_eq!(select_triple(Some("nothing here"), Some("")), Err(PackError::NoTargetTriple));
}

#[test]
fn join_path_inserts_separator() {
    assert_eq!(join_path("../sidecars", "backend"), "../sidecars/backend");
}

#[test]
fn rename_plan_names_both_files() {
    assert_eq!(
        rename_plan("../sidecars", "backend", "x86_64-pc-windows-msvc"),
        RenamePlan {
            from: "../sidecars/backend.exe".to_string(),
            to: "../sidecars/backend-x86_64-pc-windows-msvc.exe".to_string(),
        }
    );
}

#[test]
fn bundler_success_is_exit_zero() {
    assert_eq!(check_bundler(Some(0)), Ok(()));
    assert_eq!(check_bundler(Some(1)), Err(PackError::BundlerFailed { code: Some(1) }));
    assert_eq!(check_bundler(None), Err(PackError::BundlerFailed { code: None }));
}

#[test]
fn failed_bundler_plans_no_rename() {
    let r = package_plan(Some(2), Ok("x86_64-unknown-linux-gnu".to_string()), "../sidecars", "backend", true);
    assert_eq!(r, Err(PackError::BundlerFailed { code: Some(2) }));
}

#[test]
fn missing_output_names_both_paths() {
    let r = package_plan(Some(0), Ok("x86_64-unknown-linux-gnu".to_string()), "../sidecars", "backend", false);
    assert_eq!(
        r,
        Err(PackError::MissingArtifact {
            expected: "../sidecars/backend".to_string(),
            destination: "../sidecars/backend-x86_64-unknown-linux-gnu".to_string(),
        })
    );
}

#[test]
fn missing_triple_stops_packaging() {
    let r = package_plan(Some(0), Err(PackError::NoTargetTriple), "../sidecars", "backend", true);
    assert_eq!(r, Err(PackError::NoTargetTriple));
}

#[test]
fn successful_packaging_plans_one_rename() {
    let r = package_plan(Some(0), Ok("x86_64-pc-windows-msvc".to_string()), "../sidecars", "backend", true);
    assert_eq!(
        r,
        Ok(RenamePlan {
            from: "../sidecars/backend.exe".to_string(),
            to: "../sidecars/backend-x86_64-pc-windows-msvc.exe".to_string(),
        })
    );
}

#[test]
fn bundler_arguments_in_order() {
    let args = bundler_arguments("../../backend/app.py", "../sidecars", "../backend-build", "backend");
    assert_eq!(
        args,
        vec![
            "--onefile",
            "--distpath",
            "../sidecars",
            "--workpath",
            "../backend-build",
            "--specpath",
            "../backend-build",
            "--name",
            "backend",
            "../../backend/app.py",
        ]
    );
}
