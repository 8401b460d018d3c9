use analyzer_bridge::project::{
    resolve_relative, rest_behind, uri_or, Platform, Project, ProjectError, RootProbe,
    TransportType,
};

fn project_at(root: &str) -> Project {
    Project { root: root.to_string(), ignore_crates: Vec::new() }
}

#[test]
fn new_keeps_the_canonical_root() {
    let probe = RootProbe { exists: true, canonical: Ok("/work/app".to_string()) };
    let project = Project::new("/work/./app", probe, Platform::Unix).unwrap();
    assert_eq!(project.root().as_str(), "/work/app");
    assert!(project.ignore_crates().is_empty());
}

#[test]
fn new_refuses_a_missing_root() {
    let probe = RootProbe { exists: false, canonical: Ok("/work/app".to_string()) };
    let error = Project::new("/work/app", probe, Platform::Unix).unwrap_err();
    assert!(matches!(&error, ProjectError::RootMissing { root } if root == "/work/app"));
    assert_eq!(error.message(), "Project root path does not exist: \"/work/app\"");
}

#[test]
fn new_refuses_a_root_without_canonical_form() {
    let probe = RootProbe { exists: true, canonical: Err("permission denied".to_string()) };
    let error = Project::new("/work/app", probe, Platform::Unix).unwrap_err();
    assert!(matches!(&error, ProjectError::NotCanonical { cause } if cause == "permission denied"));
    assert_eq!(error.message(), "Failed to canonicalize project root: permission denied");
}

#[test]
fn uri_errors_have_their_messages() {
    assert_eq!(ProjectError::NoRootUri.message(), "Failed to create project root URI");
    assert_eq!(ProjectError::NoFileUri.message(), "Failed to create file URI");
}

#[test]
fn cache_paths_hang_below_the_root() {
    let project = project_at("/work/app");
    assert_eq!(project.cache_folder(), ".docs-cache");
    assert_eq!(project.cache_dir(), "/work/app/.docs-cache");
    assert_eq!(project.docs_dir(), "/work/app/.docs-cache/doc");
}

#[test]
fn ignore_crates_are_handed_out_in_order() {
    let project = Project {
        root: "/work/app".to_string(),
        ignore_crates: vec!["serde".to_string(), "tokio".to_string()],
    };
    assert_eq!(project.ignore_crates(), ["serde".to_string(), "tokio".to_string()]);
}

#[test]
fn uri_of_an_absolute_root() {
    assert_eq!(project_at("/work/app").uri().unwrap(), "file:///work/app");
}

#[test]
fn uri_of_a_relative_root_fails() {
    let error = project_at("work/app").uri().unwrap_err();
    assert!(matches!(error, ProjectError::NoRootUri));
}

#[test]
fn file_uri_joins_and_escapes() {
    let project = project_at("/work/app");
    assert_eq!(project.file_uri("src/main.rs").unwrap(), "file:///work/app/src/main.rs");
    assert_eq!(project.file_uri("my file.rs").unwrap(), "file:///work/app/my%20file.rs");
}

#[test]
fn file_uri_of_an_absolute_path_replaces_the_root() {
    let project = project_at("/work/app");
    assert_eq!(project.file_uri("/etc/hosts").unwrap(), "file:///etc/hosts");
}

#[test]
fn file_uri_under_a_relative_root_fails() {
    let error = project_at("work").file_uri("src/main.rs").unwrap_err();
    assert!(matches!(error, ProjectError::NoFileUri));
}

#[test]
fn relative_path_inside_the_root() {
    let project = project_at("/work/app");
    assert_eq!(project.relative_path("/work/app/src/lib.rs"), Ok("src/lib.rs".to_string()));
    assert_eq!(project.relative_path("/work/app"), Ok(String::new()));
}

#[test]
fn relative_path_outside_the_root_gives_the_file_name_as_error() {
    let project = project_at("/work/app");
    assert_eq!(project.relative_path("/other/place/Cargo.toml"), Err("Cargo.toml".to_string()));
    assert_eq!(project.relative_path("/work/application/x.rs"), Err("x.rs".to_string()));
}

#[test]
fn relative_path_without_a_file_name_names_both_paths() {
    let project = project_at("/work/app");
    assert_eq!(
        project.relative_path("/"),
        Err("Path \"/\" is not inside project root \"/work/app\"".to_string())
    );
}

#[test]
fn resolve_relative_prefers_the_stripped_rest() {
    let r = resolve_relative(Some("a/b".to_string()), Some("b".to_string()), "/r/a/b", "/r");
    assert_eq!(r, Ok("a/b".to_string()));
    let r = resolve_relative(None, Some("b".to_string()), "/x/b", "/r");
    assert_eq!(r, Err("b".to_string()));
    let r = resolve_relative(None, None, "/x/..", "/r");
    assert_eq!(r, Err("Path \"/x/..\" is not inside project root \"/r\"".to_string()));
}

#[test]
fn uri_or_maps_absence_to_the_error() {
    assert_eq!(uri_or(Some("file:///a".to_string()), ProjectError::NoFileUri).unwrap(), "file:///a");
    assert!(matches!(uri_or(None, ProjectError::NoRootUri), Err(ProjectError::NoRootUri)));
}

#[test]
fn transport_types_compare_by_content() {
    let a = TransportType::Sse { host: "localhost".to_string(), port: 4000 };
    let b = TransportType::Sse { host: "localhost".to_string(), port: 4000 };
    let c = TransportType::Sse { host: "localhost".to_string(), port: 4001 };
    assert!(a == b);
    assert!(a != c);
    assert!(TransportType::Stdio == TransportType::Stdio);
    assert!(TransportType::Stdio != a);
    assert!(a.clone() == a);
}

#[test]
fn rest_behind_a_prefix() {
    assert_eq!(rest_behind("/r", "/r/x/y"), Some("x/y".to_string()));
    assert_eq!(rest_behind("/r", "/r\\x"), Some("x".to_string()));
    assert_eq!(rest_behind("/r", "/r"), Some(String::new()));
    assert_eq!(rest_behind("/r/", "/r/x"), Some("x".to_string()));
    assert_eq!(rest_behind("/r", "/r//x"), Some("/x".to_string()));
    assert_eq!(rest_behind("/r", "/q/x"), None);
    assert_eq!(rest_behind("/r/long", "/r"), None);
}

#[test]
fn rest_behind_counts_characters_not_bytes() {
    assert_eq!(rest_behind("/\u{e9}t\u{e9}", "/\u{e9}t\u{e9}/x.rs"), Some("x.rs".to_string()));
}

#[test]
fn rest_behind_does_not_stop_at_a_component() {
    assert_eq!(rest_behind("/work/app", "/work/application/x.rs"), Some("lication/x.rs".to_string()));
}

#[test]
fn folded_relative_path_ignores_case_and_separators() {
    let project = project_at("C:\\Work\\App");
    let r = project.relative_path_folded("c:/work/app/SRC/Main.RS", None, None);
    assert_eq!(r, Ok("src/main.rs".to_string()));
    let r = project.relative_path_folded("C:\\WORK\\APP\\src\\lib.rs", None, None);
    assert_eq!(r, Ok("src/lib.rs".to_string()));
    let r = project.relative_path_folded("C:\\Work\\App", None, None);
    assert_eq!(r, Ok(String::new()));
}

#[test]
fn folded_relative_path_tries_the_canonical_forms() {
    let project = project_at("/link/app");
    let r = project.relative_path_folded("/REAL/app/a.rs", Some("/real/app".to_string()), None);
    assert_eq!(r, Ok("a.rs".to_string()));
    let r = project.relative_path_folded(
        "/other/a.rs",
        Some("/real/app".to_string()),
        Some("/Real/App/src/a.rs".to_string()),
    );
    assert_eq!(r, Ok("src/a.rs".to_string()));
}

#[test]
fn folded_relative_path_of_a_manifest_outside_the_root() {
    let project = project_at("/work/app");
    let r = project.relative_path_folded("/else/where/Cargo.toml", None, None);
    assert_eq!(r, Ok("Cargo.toml".to_string()));
}

#[test]
fn folded_relative_path_falls_back_to_the_plain_one() {
    let project = project_at("/work/app");
    let r = project.relative_path_folded("/else/where/x.rs", None, None);
    assert_eq!(r, Err("x.rs".to_string()));
    let r = project.relative_path_folded("/", None, None);
    assert_eq!(r, Err("Path \"/\" is not inside project root \"/work/app\"".to_string()));
}

#[test]
fn new_on_windows_keeps_a_root_without_canonical_form() {
    let probe = RootProbe { exists: true, canonical: Err("access denied".to_string()) };
    let project = Project::new("C:\\Work\\App", probe, Platform::Windows).unwrap();
    assert_eq!(project.root().as_str(), "C:\\Work\\App");
    assert!(project.ignore_crates().is_empty());
    let probe = RootProbe { exists: true, canonical: Ok("C:\\work\\app".to_string()) };
    let project = Project::new("C:\\Work\\App", probe, Platform::Windows).unwrap();
    assert_eq!(project.root().as_str(), "C:\\work\\app");
    let probe = RootProbe { exists: false, canonical: Err("x".to_string()) };
    let error = Project::new("C:\\Work\\App", probe, Platform::Windows).unwrap_err();
    assert!(matches!(error, ProjectError::RootMissing { .. }));
}

#[test]
fn relative_path_follows_the_platform() {
    let project = project_at("/Work/App");
    let r = project.relative_path_on(Platform::Unix, "/work/app/a.rs", None, None);
    assert_eq!(r, Err("a.rs".to_string()));
    let r = project.relative_path_on(Platform::Windows, "/work/app/a.rs", None, None);
    assert_eq!(r, Ok("a.rs".to_string()));
    let r = project.relative_path_on(Platform::Unix, "/Work/App/src/A.rs", None, None);
    assert_eq!(r, Ok("src/A.rs".to_string()));
    let r = project.relative_path_on(
        Platform::Unix,
        "/else/a.rs",
        Some("/else".to_string()),
        Some("/else/a.rs".to_string()),
    );
    assert_eq!(r, Err("a.rs".to_string()));
}
