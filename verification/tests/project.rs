use ohos_app::error::OhosAppError;
use ohos_app::project::{find_library_target, MetadataSummary, PackageSummary, ProjectInfo, TargetSummary};

fn target(name: &str, kinds: &[&str], crate_types: &[&str]) -> TargetSummary {
    TargetSummary {
        name: name.to_string(),
        kinds: kinds.iter().map(|s| s.to_string()).collect(),
        crate_types: crate_types.iter().map(|s| s.to_string()).collect(),
    }
}

fn metadata(targets: Vec<TargetSummary>) -> MetadataSummary {
    MetadataSummary {
        packages: vec![
            PackageSummary { name: "other".to_string(), manifest_path: None, targets: Vec::new() },
            PackageSummary {
                name: "demo-app".to_string(),
                manifest_path: Some("/p/demo/Cargo.toml".to_string()),
                targets,
            },
        ],
        target_directory: "/p/demo/target".to_string(),
    }
}

#[test]
fn loads_library_project_info_from_metadata() {
    let md = metadata(vec![target("demo-bin", &["bin"], &["bin"]), target("demo-app", &["staticlib"], &["staticlib"])]);
    let info = ProjectInfo::from_metadata("/p/demo/Cargo.toml", &md).unwrap();
    assert_eq!(info.package_name, "demo-app");
    assert_eq!(info.lib_name, "demo_app");
    assert_eq!(info.project_dir, "/p/demo");
    assert_eq!(info.target_dir, "/p/demo/target");
}

#[test]
fn finds_library_targets() {
    assert_eq!(find_library_target(&vec![target("a", &["bin"], &["bin"]), target("b", &["rlib"], &["cdylib"])]), Some(1));
    assert_eq!(find_library_target(&vec![target("a", &["bin"], &["rlib"])]), None);
}

#[test]
fn project_errors() {
    let md = metadata(vec![target("demo-bin", &["bin"], &["bin"])]);
    match ProjectInfo::from_metadata("/p/demo/Cargo.toml", &md) {
        Err(OhosAppError::MissingLibraryTarget { manifest_path }) => assert_eq!(manifest_path, "/p/demo/Cargo.toml"),
        other => panic!("unexpected {other:?}"),
    }
    match ProjectInfo::from_metadata("/q/Cargo.toml", &md) {
        Err(OhosAppError::Message(m)) => assert_eq!(m, "could not locate package metadata for manifest [/q/Cargo.toml]"),
        other => panic!("unexpected {other:?}"),
    }
    let md = metadata(vec![target("demo", &["lib"], &["lib"])]);
    match ProjectInfo::from_parts("/p/demo/Cargo.toml", &md, None) {
        Err(OhosAppError::Message(m)) => assert_eq!(m, "manifest path has no parent directory"),
        other => panic!("unexpected {other:?}"),
    }
}

#[test]
fn project_dir_is_manifest_parent() {
    let md = MetadataSummary {
        packages: vec![PackageSummary {
            name: "x".to_string(),
            manifest_path: Some("/a/b/Cargo.toml".to_string()),
            targets: vec![target("x", &["lib"], &["lib"])],
        }],
        target_directory: "/a/b/target".to_string(),
    };
    assert_eq!(ProjectInfo::from_metadata("/a/b/Cargo.toml", &md).unwrap().project_dir, "/a/b");
}
