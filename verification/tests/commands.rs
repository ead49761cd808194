use ohos_app::cli::{Abi, BuildCommand, CommonArgs, InitCommand, PackageArtifact, PackageCommand};
use ohos_app::commands::build::build_plan;
use ohos_app::commands::package::{ArtifactEntry, ArtifactSearch};
use ohos_app::commands::workflow::{Action, Outcome, Step, Workflow};
use ohos_app::commands::{build, command_env, init, package};
use ohos_app::config::{
    config_file_path, default_bundle_name, pick_config_file, resolve_output_dir, resolve_target, AppContext, EnvConfig, EnvVar, FileConfig,
    ResolvedConfig,
};
use ohos_app::error::OhosAppError;
use ohos_app::project::ProjectInfo;
use ohos_app::runner::CommandSpec;
use ohos_app::sdk::{HvigorInfo, SdkInfo};

fn common() -> CommonArgs {
    CommonArgs {
        deveco_studio_dir: None,
        ohpm_path: None,
        sdk_root: None,
        sdk_version: None,
        manifest_path: None,
        target: None,
        abi: None,
        out_dir: None,
        bundle_name: None,
        module_name: None,
        release: false,
        dry_run: false,
    }
}

fn unset() -> EnvVar {
    EnvVar { primary: None, legacy: None }
}

fn no_env() -> EnvConfig {
    EnvConfig {
        manifest_path: unset(),
        target: unset(),
        abi: unset(),
        profile: unset(),
        output_dir: unset(),
        module_name: unset(),
        bundle_name: unset(),
        deveco_studio_dir: unset(),
        ohpm_path: unset(),
        sdk_root: unset(),
        sdk_version: unset(),
    }
}

fn no_file() -> FileConfig {
    FileConfig {
        deveco_studio_dir: None,
        ohpm_path: None,
        sdk_root: None,
        sdk_version: None,
        bundle_name: None,
        module_name: None,
        target: None,
        abi: None,
        profile: None,
        output_dir: None,
    }
}

fn project() -> ProjectInfo {
    ProjectInfo {
        manifest_path: "/work/demo/Cargo.toml".to_string(),
        project_dir: "/work/demo".to_string(),
        package_name: "counter-native".to_string(),
        lib_name: "counter_native".to_string(),
        target_dir: "/work/demo/target".to_string(),
    }
}

fn app_with(common: &CommonArgs) -> AppContext {
    let project = project();
    let config = ResolvedConfig::resolve(common, &no_env(), &no_file(), &project).unwrap();
    AppContext {
        project,
        config,
        sdk: SdkInfo {
            root: "/sdk".to_string(),
            version: "20".to_string(),
            version_dir: "/sdk/20".to_string(),
            display_version: "6.0.0(20)".to_string(),
            native_dir: "/sdk/20/native".to_string(),
            toolchains_dir: "/sdk/20/toolchains".to_string(),
        },
        hvigor: HvigorInfo {
            wrapper_bat: "/deveco/tools/hvigor/bin/hvigorw.bat".to_string(),
            wrapper_js: "/deveco/tools/hvigor/bin/hvigorw.js".to_string(),
            hvigor_package_dir: "/deveco/tools/hvigor/hvigor".to_string(),
            hvigor_plugin_package_dir: "/deveco/tools/hvigor/hvigor-ohos-plugin".to_string(),
        },
    }
}

fn fixture_common() -> CommonArgs {
    CommonArgs {
        ohpm_path: Some("/deveco/tools/ohpm/bin/ohpm.bat".to_string()),
        deveco_studio_dir: Some("/deveco".to_string()),
        sdk_root: Some("/sdk".to_string()),
        ..common()
    }
}

fn printed(wf: &Workflow) -> String {
    let mut out = String::new();
    for step in &wf.remaining {
        match step {
            Step::Print(line) => {
                out.push_str(line);
                out.push('\n');
            }
            other => panic!("not a print step: {other:?}"),
        }
    }
    out
}

#[test]
fn resolves_defaults() {
    let cfg = ResolvedConfig::resolve(&common(), &no_env(), &no_file(), &project()).unwrap();
    assert_eq!(cfg.target, "aarch64-unknown-linux-ohos");
    assert_eq!(cfg.abi, "arm64-v8a");
    assert_eq!(cfg.profile_dir, "debug");
    assert_eq!(cfg.output_dir, "/work/demo/ohos-app");
    assert_eq!(cfg.bundle_name, "com.example.counternative");
    assert_eq!(cfg.module_name, "entry");
    assert_eq!(cfg.deveco_studio_dir, "D:\\Apps\\code\\DevEco Studio");
    assert_eq!(cfg.sdk_root, "C:\\Users\\25422\\AppData\\Local\\OpenHarmony\\Sdk");
    assert_eq!(cfg.sdk_version, None);
}

#[test]
fn command_line_wins_over_environment_and_file() {
    let mut env = no_env();
    env.bundle_name = EnvVar { primary: None, legacy: Some("com.env.legacy".to_string()) };
    env.module_name = EnvVar { primary: Some("env_module".to_string()), legacy: Some("legacy".to_string()) };
    env.profile = EnvVar { primary: Some("envprofile".to_string()), legacy: None };
    let mut file = no_file();
    file.bundle_name = Some("com.file".to_string());
    file.sdk_version = Some("18".to_string());
    file.profile = Some("fileprofile".to_string());
    file.output_dir = Some("/abs/out".to_string());
    let mut args = common();
    args.module_name = Some("cli_module".to_string());
    let cfg = ResolvedConfig::resolve(&args, &env, &file, &project()).unwrap();
    assert_eq!(cfg.module_name, "cli_module");
    assert_eq!(cfg.bundle_name, "com.env.legacy");
    assert_eq!(cfg.sdk_version.as_deref(), Some("18"));
    assert_eq!(cfg.profile_dir, "fileprofile");
    assert_eq!(cfg.output_dir, "/abs/out");
    args.release = true;
    let cfg = ResolvedConfig::resolve(&args, &env, &file, &project()).unwrap();
    assert_eq!(cfg.profile_dir, "release");
}

#[test]
fn target_precedence_and_errors() {
    let mut args = common();
    args.abi = Some(Abi::X86_64);
    assert_eq!(resolve_target(&args, &no_env(), &no_file()).unwrap(), "x86_64-unknown-linux-ohos");
    let mut env = no_env();
    env.abi = EnvVar { primary: Some("bogus".to_string()), legacy: None };
    match resolve_target(&common(), &env, &no_file()) {
        Err(OhosAppError::Message(m)) => assert_eq!(m, "unsupported OHOS ABI [bogus]"),
        other => panic!("unexpected {other:?}"),
    }
    let mut file = no_file();
    file.abi = Some("loongarch64".to_string());
    file.target = Some("armv7-unknown-linux-ohos".to_string());
    assert_eq!(resolve_target(&common(), &no_env(), &file).unwrap(), "armv7-unknown-linux-ohos");
    args.abi = None;
    args.target = Some("wasm32-unknown-unknown".to_string());
    match ResolvedConfig::resolve(&args, &no_env(), &no_file(), &project()) {
        Err(OhosAppError::UnsupportedTarget { target }) => assert_eq!(target, "wasm32-unknown-unknown"),
        other => panic!("unexpected {other:?}"),
    }
}

#[test]
fn default_bundle_names() {
    assert_eq!(default_bundle_name("Counter-Native_App"), "com.example.counternativeapp");
    assert_eq!(resolve_output_dir("out", "/p"), "/p/out");
    assert_eq!(resolve_output_dir("/abs", "/p"), "/abs");
}

#[test]
fn environment_names_are_distinct() {
    let app = app_with(&fixture_common());
    let env = command_env(&app);
    assert_eq!(env.len(), 13);
    let mut keys: Vec<&String> = env.iter().map(|(k, _)| k).collect();
    keys.sort();
    keys.dedup();
    assert_eq!(keys.len(), 13);
    let get = |k: &str| env.iter().find(|(key, _)| key == k).map(|(_, v)| v.clone()).unwrap();
    assert_eq!(get("CARGO_TARGET_AARCH64_UNKNOWN_LINUX_OHOS_LINKER"), "/sdk/20/native/llvm/bin/clang.exe");
    assert_eq!(get("CC_aarch64_unknown_linux_ohos"), "/sdk/20/native/llvm/bin/clang.exe");
    assert_eq!(get("CXX_aarch64_unknown_linux_ohos"), "/sdk/20/native/llvm/bin/clang++.exe");
    assert_eq!(get("AR_aarch64_unknown_linux_ohos"), "/sdk/20/native/llvm/bin/llvm-ar.exe");
    assert_eq!(
        get("RUSTFLAGS"),
        "-Clink-arg=--target=aarch64-linux-ohos -Clink-arg=--sysroot=/sdk/20/native/sysroot -Clink-arg=-D__MUSL__"
    );
    assert_eq!(get("OHOS_SDK_HOME"), "/sdk/20");
}

#[test]
fn displays_commands() {
    let spec = CommandSpec {
        program: "cargo".to_string(),
        args: vec!["rustc".to_string(), "a b".to_string()],
        cwd: "/".to_string(),
        env: Vec::new(),
    };
    assert_eq!(spec.display(), "cargo rustc \"a b\"");
    let bare = CommandSpec { args: Vec::new(), ..spec.clone() };
    assert_eq!(bare.display(), "cargo");
    let empty_arg = CommandSpec { args: vec![String::new()], ..spec };
    assert_eq!(empty_arg.display(), "cargo");
}

#[test]
fn build_plan_paths() {
    let mut args = fixture_common();
    args.release = true;
    let app = app_with(&args);
    let plan = build_plan(&app);
    assert_eq!(plan.source, "/work/demo/target/aarch64-unknown-linux-ohos/release/libcounter_native.a");
    assert_eq!(plan.destination, "/work/demo/ohos-app/entry/src/main/cpp/libs/arm64-v8a/libcounter_native.a");
    assert_eq!(plan.legacy_shared_destination, "/work/demo/ohos-app/entry/src/main/cpp/libs/arm64-v8a/libcounter_native.so");
    assert!(plan.command.display().contains("--release -- --crate-type staticlib"));
    assert_eq!(
        app.project.static_artifact_path("x", "debug"),
        "/work/demo/target/x/debug/libcounter_native.a"
    );
}

#[test]
fn build_dry_run_prints_cargo_and_copy_plan() {
    let mut args = fixture_common();
    args.dry_run = true;
    let app = app_with(&args);
    let wf = build::run(&BuildCommand { common: args }, &app);
    let output = printed(&wf);
    assert!(output.contains("cargo rustc --lib"));
    assert!(output.contains("copy"));
    assert!(output.contains("libcounter_native.a"));
}

#[test]
fn init_dry_run_and_run() {
    let mut args = fixture_common();
    args.dry_run = true;
    let app = app_with(&args);
    let wf = init::run(&InitCommand { common: args.clone() }, &app);
    assert_eq!(printed(&wf), "[dry-run] would generate OHOS shell at /work/demo/ohos-app for bundle com.example.counternative\n");
    args.dry_run = false;
    let wf = init::run(&InitCommand { common: args }, &app);
    assert!(matches!(wf.remaining[0], Step::WriteShell));
    match &wf.remaining[1] {
        Step::Print(line) => assert_eq!(line, "Generated OHOS shell at /work/demo/ohos-app using SDK /sdk (20)"),
        other => panic!("unexpected {other:?}"),
    }
}

fn package_command(common: CommonArgs, artifact: PackageArtifact) -> PackageCommand {
    PackageCommand { common, artifact, skip_init: false, skip_rust_build: false }
}

#[test]
fn package_dry_run_lists_full_sequence() {
    let mut args = fixture_common();
    args.dry_run = true;
    let app = app_with(&args);
    let wf = package::run(&package_command(args, PackageArtifact::Hap), &app);
    let output = printed(&wf);
    assert!(output.contains("generate OHOS shell"));
    assert!(output.contains("cargo rustc --lib"));
    assert!(output.contains("ohpm.bat install"));
    assert!(output.contains("hvigorw.bat clean assembleHap --no-daemon"));
}

#[test]
fn package_app_dry_run_uses_app_task() {
    let mut args = fixture_common();
    args.dry_run = true;
    let app = app_with(&args);
    let wf = package::run(&package_command(args, PackageArtifact::App), &app);
    let output = printed(&wf);
    assert!(output.contains("hvigorw.bat clean assembleApp --no-daemon"));
}

#[test]
fn package_dry_run_skips_init_and_build() {
    let mut args = fixture_common();
    args.dry_run = true;
    let app = app_with(&args);
    let command = PackageCommand { common: args, artifact: PackageArtifact::Hap, skip_init: true, skip_rust_build: true };
    let output = printed(&package::run(&command, &app));
    assert_eq!(
        output,
        "[dry-run] /deveco/tools/ohpm/bin/ohpm.bat install\n[dry-run] /deveco/tools/hvigor/bin/hvigorw.bat clean assembleHap --no-daemon\n"
    );
}

#[test]
fn package_x86_64_dry_run_switches_target_and_output_dir() {
    let mut args = fixture_common();
    args.dry_run = true;
    args.abi = Some(Abi::X86_64);
    let app = app_with(&args);
    let output = printed(&package::run(&package_command(args, PackageArtifact::Hap), &app));
    assert!(output.contains("--target x86_64-unknown-linux-ohos"));
    let sep = std::path::MAIN_SEPARATOR;
    assert!(output.contains(&format!("cpp{sep}libs{sep}x86_64")));
}

/// Drives a run, answering each action: commands whose program ends with one
/// of `failing` fail, every path exists, and the artifact is found.
fn drive(mut wf: Workflow, failing: &[&str]) -> (Vec<String>, Result<(), OhosAppError>) {
    let mut ran = Vec::new();
    let mut action = wf.begin();
    loop {
        let outcome = match action {
            Action::Finish => return (ran, Ok(())),
            Action::Fail(e) => return (ran, Err(e)),
            Action::Run(spec) => {
                ran.push(spec.program.clone());
                if failing.iter().any(|s| spec.program.ends_with(s)) {
                    Outcome::Failed(OhosAppError::CommandFailed { program: spec.program.clone(), cwd: spec.cwd.clone(), code: Some(1) })
                } else {
                    Outcome::Done
                }
            }
            Action::CheckExists(_) => Outcome::Exists(true),
            Action::FindArtifact { root, extension } => Outcome::Found(Some(format!("{root}/out.{extension}"))),
            Action::Print(line) => {
                ran.push(line);
                Outcome::Done
            }
            _ => Outcome::Done,
        };
        action = wf.next(outcome);
    }
}

#[test]
fn package_surfaces_ohpm_failure() {
    let app = app_with(&fixture_common());
    let wf = package::run(&package_command(fixture_common(), PackageArtifact::Hap), &app);
    let (ran, result) = drive(wf, &["ohpm.bat", "npm.cmd"]);
    assert!(matches!(result, Err(OhosAppError::CommandFailed { .. })));
    assert_eq!(ran, vec!["cargo", "/deveco/tools/ohpm/bin/ohpm.bat", "npm.cmd"]);
}

#[test]
fn package_falls_back_to_npm_and_reports_artifact() {
    let app = app_with(&fixture_common());
    let wf = package::run(&package_command(fixture_common(), PackageArtifact::App), &app);
    let (ran, result) = drive(wf, &["ohpm.bat"]);
    assert!(result.is_ok());
    assert_eq!(
        ran,
        vec![
            "cargo",
            "/deveco/tools/ohpm/bin/ohpm.bat",
            "npm.cmd",
            "/deveco/tools/hvigor/bin/hvigorw.bat",
            "Packaged OHOS .app at /work/demo/ohos-app/out.app",
        ]
    );
}

#[test]
fn missing_library_and_artifact() {
    let mut wf = Workflow::new(vec![Step::RequireFile("/x.a".to_string())]);
    assert!(matches!(wf.begin(), Action::CheckExists(_)));
    match wf.next(Outcome::Exists(false)) {
        Action::Fail(OhosAppError::MissingFile { path }) => assert_eq!(path, "/x.a"),
        other => panic!("unexpected {other:?}"),
    }
    let mut wf = Workflow::new(vec![Step::ReportArtifact {
        root: "/out".to_string(),
        extension: "hap".to_string(),
        label: ".hap".to_string(),
    }]);
    wf.begin();
    match wf.next(Outcome::Found(None)) {
        Action::Fail(OhosAppError::PackageArtifactNotFound { search_root }) => assert_eq!(search_root, "/out"),
        other => panic!("unexpected {other:?}"),
    }
    let mut wf = Workflow::new(vec![Step::RemoveIfPresent("/old.so".to_string())]);
    wf.begin();
    assert!(matches!(wf.next(Outcome::Exists(true)), Action::RemoveFile(_)));
    assert!(matches!(wf.next(Outcome::Done), Action::Finish));
}

#[test]
fn artifact_search_is_depth_first() {
    let mut search = ArtifactSearch::new("/out");
    assert_eq!(search.next_dir().as_deref(), Some("/out"));
    let entries = vec![
        ArtifactEntry { path: "/out/a".to_string(), is_dir: true, extension: None },
        ArtifactEntry { path: "/out/x.txt".to_string(), is_dir: false, extension: Some("txt".to_string()) },
        ArtifactEntry { path: "/out/b".to_string(), is_dir: true, extension: None },
    ];
    assert_eq!(search.visit(entries, "hap"), None);
    assert_eq!(search.next_dir().as_deref(), Some("/out/b"));
    let entries = vec![
        ArtifactEntry { path: "/out/b/c".to_string(), is_dir: true, extension: None },
        ArtifactEntry { path: "/out/b/app.hap".to_string(), is_dir: false, extension: Some("hap".to_string()) },
        ArtifactEntry { path: "/out/b/d".to_string(), is_dir: true, extension: None },
    ];
    assert_eq!(search.visit(entries, "hap").as_deref(), Some("/out/b/app.hap"));
    assert_eq!(search.next_dir().as_deref(), Some("/out/b/c"));
    assert_eq!(search.next_dir().as_deref(), Some("/out/a"));
    assert_eq!(search.next_dir(), None);
}

#[test]
fn prefers_new_configuration_file_name() {
    assert_eq!(pick_config_file("a".to_string(), true, "b".to_string(), true), Some("a".to_string()));
    assert_eq!(pick_config_file("a".to_string(), false, "b".to_string(), true), Some("b".to_string()));
    assert_eq!(pick_config_file("a".to_string(), false, "b".to_string(), false), None);
    assert_eq!(config_file_path("/nonexistent/project"), None);
}

#[test]
fn build_run_builds_then_copies() {
    let app = app_with(&fixture_common());
    let mut wf = build::run(&BuildCommand { common: fixture_common() }, &app);
    let mut kinds = Vec::new();
    let mut action = wf.begin();
    loop {
        let outcome = match &action {
            Action::Finish => break,
            Action::Fail(e) => panic!("failed: {e:?}"),
            Action::Run(spec) => {
                kinds.push(format!("run {}", spec.program));
                Outcome::Done
            }
            Action::CheckExists(p) => {
                kinds.push(format!("exists {p}"));
                Outcome::Exists(!p.ends_with(".so"))
            }
            Action::CreateParentDir(p) => {
                kinds.push(format!("mkdir {p}"));
                Outcome::Done
            }
            Action::Copy(a, b) => {
                kinds.push(format!("copy {a} {b}"));
                Outcome::Done
            }
            Action::Print(l) => {
                kinds.push(l.clone());
                Outcome::Done
            }
            other => panic!("unexpected {other:?}"),
        };
        action = wf.next(outcome);
    }
    let dest = "/work/demo/ohos-app/entry/src/main/cpp/libs/arm64-v8a/libcounter_native.a";
    let src = "/work/demo/target/aarch64-unknown-linux-ohos/debug/libcounter_native.a";
    assert_eq!(
        kinds,
        vec![
            "run cargo".to_string(),
            format!("exists {src}"),
            "exists /work/demo/ohos-app/entry/src/main/cpp/libs/arm64-v8a/libcounter_native.so".to_string(),
            format!("mkdir {dest}"),
            format!("copy {src} {dest}"),
            format!("Built Rust staticlib and copied it to {dest}"),
        ]
    );
}

#[test]
fn failed_command_ends_the_run() {
    let app = app_with(&fixture_common());
    let wf = build::run(&BuildCommand { common: fixture_common() }, &app);
    let (ran, result) = drive(wf, &["cargo"]);
    assert_eq!(ran, vec!["cargo"]);
    match result {
        Err(OhosAppError::CommandFailed { program, .. }) => assert_eq!(program, "cargo"),
        other => panic!("unexpected {other:?}"),
    }
}

#[test]
fn shell_plan_layout() {
    let app = app_with(&fixture_common());
    let plan = ohos_app::template::shell_plan(&app);
    assert_eq!(plan.files.len(), 25);
    assert_eq!(plan.files[0].0, "/work/demo/ohos-app/AppScope/app.json5");
    assert!(plan.files[0].1.contains("\"bundleName\": \"com.example.counternative\""));
    assert_eq!(plan.icon_paths[2], "/work/demo/ohos-app/entry/src/main/resources/base/media/startIcon.png");
    assert_eq!(plan.libs_dir, "/work/demo/ohos-app/entry/src/main/cpp/libs/arm64-v8a");
    assert_eq!(plan.wrapper_copies[1], ("/deveco/tools/hvigor/bin/hvigorw.js".to_string(), "/work/demo/ohos-app/hvigorw.js".to_string()));
    let package_json = plan.files.iter().find(|(p, _)| p.ends_with("/package.json")).unwrap();
    assert!(package_json.1.contains("file:/deveco/tools/hvigor/hvigor-ohos-plugin"));
}

#[test]
fn places_output_directory_by_absoluteness() {
    assert_eq!(ohos_app::config::output_dir_for("/abs/out", "/p", true), "/abs/out");
    assert_eq!(ohos_app::config::output_dir_for("out", "/p", false), "/p/out");
}

#[test]
fn maps_process_status() {
    let spec = CommandSpec { program: "x".to_string(), args: Vec::new(), cwd: "/w".to_string(), env: Vec::new() };
    assert!(ohos_app::runner::command_outcome(&spec, true, Some(0)).is_ok());
    match ohos_app::runner::command_outcome(&spec, false, Some(3)) {
        Err(OhosAppError::CommandFailed { program, cwd, code }) => {
            assert_eq!((program.as_str(), cwd.as_str(), code), ("x", "/w", Some(3)))
        }
        other => panic!("unexpected {other:?}"),
    }
}

#[test]
fn output_dir_under_paths_with_trailing_slash() {
    assert_eq!(resolve_output_dir("out/", "/p/"), "/p/out/");
    assert_eq!(resolve_output_dir("out", "/"), "/out");
    assert_eq!(resolve_output_dir("a/b", "/p/"), "/p/a/b");
}

#[test]
fn init_generates_ohos_shell_structure() {
    let args = fixture_common();
    let app = app_with(&args);
    let wf = init::run(&InitCommand { common: args }, &app);
    assert!(matches!(wf.remaining[0], Step::WriteShell));
    let plan = ohos_app::template::shell_plan(&app);
    let out = std::path::Path::new("/work/demo/ohos-app");
    let written: Vec<&str> = plan.files.iter().map(|(path, _)| path.as_str()).collect();
    assert!(written.contains(&out.join("AppScope/app.json5").to_str().unwrap()));
    assert!(written.contains(&out.join("entry/src/main/module.json5").to_str().unwrap()));
    assert!(plan.wrapper_copies.iter().any(|(_, to)| to.as_str() == out.join("hvigorw.bat").to_str().unwrap()));
}

#[test]
fn paths_under_directories_with_trailing_slash() {
    let mut args = fixture_common();
    args.out_dir = Some("/tmp/out/".to_string());
    let mut app = app_with(&args);
    app.sdk.native_dir = "/sdk/20/native/".to_string();
    let plan = ohos_app::template::shell_plan(&app);
    assert_eq!(plan.files[0].0, "/tmp/out/AppScope/app.json5");
    assert_eq!(plan.libs_dir, "/tmp/out/entry/src/main/cpp/libs/arm64-v8a");
    assert_eq!(plan.wrapper_copies[0].1, "/tmp/out/hvigorw.bat");
    let env = command_env(&app);
    let get = |k: &str| env.iter().find(|(key, _)| key == k).map(|(_, v)| v.clone()).unwrap();
    assert_eq!(get("CC_aarch64_unknown_linux_ohos"), "/sdk/20/native/llvm/bin/clang.exe");
    assert!(get("RUSTFLAGS").contains("--sysroot=/sdk/20/native/sysroot"));
}
