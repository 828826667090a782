use sidecar_supervisor::error::BootError;
use sidecar_supervisor::boot::FailureKind;
use sidecar_supervisor::launch::{
    arguments_variable, executable_variable, storage_mode_variable, LaunchSpec,
};
use sidecar_supervisor::paths::{
    assemble_candidates, candidate_backend_paths, default_args_for, default_backend_path,
    first_existing, resolve_backend, Arch, Platform,
};

fn strings(items: &[&str]) -> Vec<String> {
    items.iter().map(|s| s.to_string()).collect()
}

/// `name` under `base`, with the separator of the machine the tests run on.
fn under(base: &str, name: &str) -> String {
    format!("{}{}{}", base, std::path::MAIN_SEPARATOR, name)
}

#[test]
fn development_candidates_without_override_or_bundle() {
    let paths = candidate_backend_paths(Platform::Other, None, None);
    assert_eq!(
        paths,
        strings(&[
            "../_build/prod/rel/hudson/bin/hudson",
            "../burrito_out/hudson_macos_arm",
            "../burrito_out/hudson_macos_intel",
        ])
    );
    let mac = candidate_backend_paths(Platform::MacOs, None, None);
    assert_eq!(mac, paths);
}

#[test]
fn development_candidates_on_windows() {
    let paths = candidate_backend_paths(Platform::Windows, None, None);
    assert_eq!(
        paths,
        strings(&[
            "..\\_build\\prod\\rel\\hudson\\bin\\hudson.bat",
            "..\\burrito_out\\hudson_windows.exe",
        ])
    );
}

#[test]
fn override_comes_first() {
    let paths = candidate_backend_paths(Platform::Other, Some("/opt/backend".to_string()), None);
    assert_eq!(paths.len(), 4);
    assert_eq!(paths[0], "/opt/backend");
    assert_eq!(paths[1], "../_build/prod/rel/hudson/bin/hudson");
    assert_eq!(paths[2], "../burrito_out/hudson_macos_arm");
    assert_eq!(paths[3], "../burrito_out/hudson_macos_intel");
}

#[test]
fn blank_override_is_ignored() {
    let none = candidate_backend_paths(Platform::Other, None, None);
    assert_eq!(candidate_backend_paths(Platform::Other, Some(String::new()), None), none);
    assert_eq!(candidate_backend_paths(Platform::Other, Some("  \t\n".to_string()), None), none);
    assert_eq!(
        candidate_backend_paths(Platform::Other, Some("\u{a0}\u{3000}".to_string()), None),
        none
    );
}

#[test]
fn override_is_kept_as_written() {
    let paths = candidate_backend_paths(Platform::Other, Some(" /opt/backend ".to_string()), None);
    assert_eq!(paths[0], " /opt/backend ");
}

#[test]
fn bundled_candidates_in_order() {
    let paths = candidate_backend_paths(
        Platform::MacOs,
        Some("/custom/bin".to_string()),
        Some("/App/Contents/Resources".to_string()),
    );
    let sibling = under("/App/Contents", "MacOS");
    let binaries = under("/App/Contents/Resources", "binaries");
    let names = ["hudson_macos_arm-aarch64-apple-darwin", "hudson_macos_arm", "hudson_backend"];
    let mut expected = vec!["/custom/bin".to_string()];
    for dir in [sibling.as_str(), binaries.as_str(), "/App/Contents/Resources"] {
        for name in names {
            expected.push(under(dir, name));
        }
    }
    expected.extend(strings(&[
        "../_build/prod/rel/hudson/bin/hudson",
        "../burrito_out/hudson_macos_arm",
        "../burrito_out/hudson_macos_intel",
    ]));
    assert_eq!(paths.len(), 13);
    assert_eq!(paths, expected);
    assert_ne!(paths[1], "/App/Contents");
    assert_ne!(paths[1], "hudson_macos_arm-aarch64-apple-darwin");
}

#[test]
fn resource_dir_without_parent_has_no_sibling_candidates() {
    let paths = candidate_backend_paths(Platform::Other, None, Some("/".to_string()));
    assert_eq!(paths.len(), 9);
    assert_eq!(paths[0], under("/binaries", "hudson_macos_arm-aarch64-apple-darwin"));
    assert_eq!(paths[3], "/hudson_macos_arm-aarch64-apple-darwin");
    assert_eq!(paths[5], "/hudson_backend");
    assert_eq!(paths[6], "../_build/prod/rel/hudson/bin/hudson");
}

#[test]
fn assembled_in_priority_order() {
    let paths = assemble_candidates(
        Platform::Other,
        Some("/override".to_string()),
        Some(strings(&["s1", "s2", "s3"])),
        strings(&["b1", "b2", "b3"]),
        strings(&["d1", "d2", "d3"]),
    );
    assert_eq!(
        paths,
        strings(&[
            "/override",
            "s1",
            "s2",
            "s3",
            "b1",
            "b2",
            "b3",
            "d1",
            "d2",
            "d3",
            "../_build/prod/rel/hudson/bin/hudson",
            "../burrito_out/hudson_macos_arm",
            "../burrito_out/hudson_macos_intel",
        ])
    );
}

#[test]
fn assembled_without_override_or_sibling() {
    let paths = assemble_candidates(
        Platform::Windows,
        Some(" \t".to_string()),
        None,
        strings(&["b1"]),
        Vec::new(),
    );
    assert_eq!(
        paths,
        strings(&[
            "b1",
            "..\\_build\\prod\\rel\\hudson\\bin\\hudson.bat",
            "..\\burrito_out\\hudson_windows.exe",
        ])
    );
    let empty = assemble_candidates(Platform::MacOs, None, Some(Vec::new()), Vec::new(), Vec::new());
    assert_eq!(
        empty,
        strings(&[
            "../_build/prod/rel/hudson/bin/hudson",
            "../burrito_out/hudson_macos_arm",
            "../burrito_out/hudson_macos_intel",
        ])
    );
}

#[test]
fn release_build_is_tried_before_the_native_build() {
    for platform in [Platform::Windows, Platform::MacOs, Platform::Other] {
        let paths = candidate_backend_paths(platform, None, None);
        for arch in [Arch::Aarch64, Arch::Other] {
            let release = default_backend_path(platform, arch, true);
            let native = default_backend_path(platform, arch, false);
            let at = |wanted: &String| paths.iter().position(|p| p == wanted);
            assert_eq!(at(&release), Some(0));
            assert!(at(&native) > Some(0));
            assert!(default_args_for(&native).is_empty());
            assert_eq!(default_args_for(&release), strings(&["foreground"]));
        }
    }
}

#[test]
fn first_existing_candidate_wins() {
    let candidates = strings(&["/a", "/b", "/c", "/d"]);
    let exists = vec![false, false, true, true];
    assert_eq!(first_existing(candidates.len(), &exists), Some(2));
    match resolve_backend(candidates, &exists) {
        Ok(path) => assert_eq!(path, "/c"),
        Err(_) => panic!("a candidate exists"),
    }
}

#[test]
fn lower_priority_files_do_not_matter() {
    let candidates = strings(&["/a", "/b", "/c", "/d"]);
    for tail in [vec![false, true], vec![true, false], vec![true, true], vec![false, false]] {
        let mut exists = vec![false, true];
        exists.extend(tail);
        match resolve_backend(candidates.clone(), &exists) {
            Ok(path) => assert_eq!(path, "/b"),
            Err(_) => panic!("a candidate exists"),
        }
    }
}

#[test]
fn no_candidate_exists_carries_the_whole_list() {
    let candidates = strings(&["/a", "/b", "/c"]);
    let exists = vec![false, false, false];
    match resolve_backend(candidates.clone(), &exists) {
        Ok(_) => panic!("nothing exists"),
        Err(error) => {
            assert_eq!(error.kind(), FailureKind::BackendNotFound);
            match error {
                BootError::BackendNotFound(tried) => assert_eq!(tried, candidates),
                _ => panic!("wrong error"),
            }
        }
    }
}

#[test]
fn missing_reports_count_as_absent() {
    let candidates = strings(&["/a", "/b"]);
    assert!(resolve_backend(candidates.clone(), &vec![]).is_err());
    assert!(resolve_backend(candidates.clone(), &vec![false]).is_err());
    assert!(resolve_backend(Vec::new(), &vec![true]).is_err());
    assert_eq!(first_existing(1, &vec![false, true]), None);
}

#[test]
fn native_build_gets_no_arguments() {
    assert_eq!(default_args_for("../burrito_out/hudson_macos_arm"), Vec::<String>::new());
    assert_eq!(default_args_for("burrito_out"), Vec::<String>::new());
    assert_eq!(default_args_for("/x/burrito_out"), Vec::<String>::new());
}

#[test]
fn release_build_runs_in_the_foreground() {
    assert_eq!(default_args_for("../_build/prod/rel/hudson/bin/hudson"), strings(&["foreground"]));
    assert_eq!(default_args_for(""), strings(&["foreground"]));
    assert_eq!(default_args_for("burrito_ou"), strings(&["foreground"]));
    assert_eq!(default_args_for("burrito-out/burrito_ou/t"), strings(&["foreground"]));
}

#[test]
fn default_backend_path_by_platform() {
    assert_eq!(
        default_backend_path(Platform::Windows, Arch::Other, true),
        "..\\_build\\prod\\rel\\hudson\\bin\\hudson.bat"
    );
    assert_eq!(
        default_backend_path(Platform::Windows, Arch::Aarch64, false),
        "..\\burrito_out\\hudson_windows.exe"
    );
    assert_eq!(
        default_backend_path(Platform::MacOs, Arch::Aarch64, true),
        "../_build/prod/rel/hudson/bin/hudson"
    );
    assert_eq!(
        default_backend_path(Platform::MacOs, Arch::Aarch64, false),
        "../burrito_out/hudson_macos_arm"
    );
    assert_eq!(
        default_backend_path(Platform::Other, Arch::Other, false),
        "../burrito_out/hudson_macos_intel"
    );
}

#[test]
fn launch_spec_defaults_to_offline() {
    let spec = LaunchSpec::build("../_build/prod/rel/hudson/bin/hudson".to_string(), None, None);
    assert_eq!(spec.executable(), "../_build/prod/rel/hudson/bin/hudson");
    assert_eq!(spec.args(), &strings(&["foreground"]));
    assert_eq!(spec.storage_mode(), "false");
}

#[test]
fn launch_spec_passes_the_storage_override_on() {
    let spec = LaunchSpec::build("/bin/x".to_string(), None, Some("true".to_string()));
    assert_eq!(spec.storage_mode(), "true");
    let spec = LaunchSpec::build("/bin/x".to_string(), None, Some("false".to_string()));
    assert_eq!(spec.storage_mode(), "false");
    let spec = LaunchSpec::build("/bin/x".to_string(), None, Some(String::new()));
    assert_eq!(spec.storage_mode(), "");
}

#[test]
fn launch_spec_argument_override_replaces_defaults() {
    let spec = LaunchSpec::build(
        "/bin/x".to_string(),
        Some("  start  --port\t4000\n".to_string()),
        None,
    );
    assert_eq!(spec.args(), &strings(&["start", "--port", "4000"]));
    let spec = LaunchSpec::build("/bin/x".to_string(), Some("   ".to_string()), None);
    assert!(spec.args().is_empty());
    let spec = LaunchSpec::build("../burrito_out/x".to_string(), None, None);
    assert!(spec.args().is_empty());
}

#[test]
fn variable_names() {
    assert_eq!(executable_variable(), "HUDSON_BACKEND_BIN");
    assert_eq!(arguments_variable(), "HUDSON_BACKEND_ARGS");
    assert_eq!(storage_mode_variable(), "HUDSON_ENABLE_NEON");
}
