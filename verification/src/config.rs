//! Settings of a run: each one taken from the command line, else from the
//! environment, else from the project's `ohos-app.toml`, else a default; and
//! the context that the commands work in.
use vstd::prelude::*;
use crate::cli::{abi_name, CommonArgs};
use crate::error::{AppResult, OhosAppError};
use crate::paths::{components, join_all, joins_to, open_ended, path_exists, path_is_absolute, plain, views};
use crate::project::ProjectInfo;
use crate::sdk::{
    abi_of_target, abi_to_target, discover_hvigor, hvigor_check_result, hvigor_layout, lemma_cli_abi_has_target, target_of_abi,
    target_to_abi, unsupported_abi_message, auto_requested, HvigorInfo, SdkAsk, SdkDiscovery, SdkInfo, SdkStage,
};
use crate::text::{ascii_lowercase, concat2, owned, remove_chars, to_ascii_lower, without_chars};

verus! {

pub const DEFAULT_DEV_ECO_STUDIO_DIR: &'static str = "D:\\Apps\\code\\DevEco Studio";

pub const DEFAULT_OHPM_PATH: &'static str = "D:\\Apps\\code\\DevEco Studio\\tools\\ohpm\\bin\\ohpm.bat";

pub const DEFAULT_SDK_ROOT: &'static str = "C:\\Users\\25422\\AppData\\Local\\OpenHarmony\\Sdk";

pub const DEFAULT_TARGET: &'static str = "aarch64-unknown-linux-ohos";

/// Everything a run works with.
#[derive(Debug, Clone)]
pub struct AppContext {
    pub project: ProjectInfo,
    pub config: ResolvedConfig,
    pub sdk: SdkInfo,
    pub hvigor: HvigorInfo,
}

/// The settings in effect for a run.
#[derive(Debug, Clone)]
pub struct ResolvedConfig {
    pub deveco_studio_dir: String,
    pub ohpm_path: String,
    pub sdk_root: String,
    pub sdk_version: Option<String>,
    pub target: String,
    pub abi: String,
    pub profile_dir: String,
    pub output_dir: String,
    pub bundle_name: String,
    pub module_name: String,
}

/// The settings of `ohos-app.toml` (or of the older `harmony-app.toml`).
#[derive(Debug, Clone)]
pub struct FileConfig {
    pub deveco_studio_dir: Option<String>,
    pub ohpm_path: Option<String>,
    pub sdk_root: Option<String>,
    pub sdk_version: Option<String>,
    pub bundle_name: Option<String>,
    pub module_name: Option<String>,
    pub target: Option<String>,
    pub abi: Option<String>,
    pub profile: Option<String>,
    pub output_dir: Option<String>,
}

/// One setting in the environment: `OHOS_APP_<NAME>`, and the older
/// `HARMONY_APP_<NAME>` that counts only where the first is not set.
#[derive(Debug, Clone)]
pub struct EnvVar {
    pub primary: Option<String>,
    pub legacy: Option<String>,
}

/// The settings that the environment gives.
#[derive(Debug, Clone)]
pub struct EnvConfig {
    pub manifest_path: EnvVar,
    pub target: EnvVar,
    pub abi: EnvVar,
    pub profile: EnvVar,
    pub output_dir: EnvVar,
    pub module_name: EnvVar,
    pub bundle_name: EnvVar,
    pub deveco_studio_dir: EnvVar,
    pub ohpm_path: EnvVar,
    pub sdk_root: EnvVar,
    pub sdk_version: EnvVar,
}

pub open spec fn opt_view(o: Option<String>) -> Option<Seq<char>> {
    match o {
        Some(s) => Some(s@),
        None => None,
    }
}

pub open spec fn or_else(a: Option<Seq<char>>, b: Option<Seq<char>>) -> Option<Seq<char>> {
    if a is Some {
        a
    } else {
        b
    }
}

pub open spec fn or_default(a: Option<Seq<char>>, d: Seq<char>) -> Seq<char> {
    match a {
        Some(x) => x,
        None => d,
    }
}

pub open spec fn env_view(v: EnvVar) -> Option<Seq<char>> {
    or_else(opt_view(v.primary), opt_view(v.legacy))
}

/// A setting from the command line, else the environment, else the file.
pub open spec fn layered(cli: Option<String>, env: EnvVar, file: Option<String>) -> Option<Seq<char>> {
    or_else(opt_view(cli), or_else(env_view(env), opt_view(file)))
}

/// The Rust target of a run, or `Err(abi)` for an ABI without one. A target
/// given outright wins over an ABI at the same level, and the command line
/// over the environment over the file.
pub open spec fn spec_target(common: CommonArgs, env: EnvConfig, file: FileConfig) -> Result<Seq<char>, Seq<char>> {
    if common.target is Some {
        Ok(common.target->0@)
    } else if common.abi is Some {
        Ok(target_of_abi(abi_name(common.abi->0))->0)
    } else if env_view(env.target) is Some {
        Ok(env_view(env.target)->0)
    } else if env_view(env.abi) is Some {
        by_abi(env_view(env.abi)->0)
    } else if file.target is Some {
        Ok(file.target->0@)
    } else if file.abi is Some {
        by_abi(file.abi->0@)
    } else {
        Ok(DEFAULT_TARGET@)
    }
}

pub open spec fn by_abi(abi: Seq<char>) -> Result<Seq<char>, Seq<char>> {
    match target_of_abi(abi) {
        Some(t) => Ok(t),
        None => Err(abi),
    }
}

/// The build profile directory: `release` for a release build, else the
/// file's profile, else the environment's, else `debug`.
pub open spec fn spec_profile_dir(common: CommonArgs, env: EnvConfig, file: FileConfig) -> Seq<char> {
    if common.release {
        "release"@
    } else {
        or_default(or_else(opt_view(file.profile), env_view(env.profile)), "debug"@)
    }
}

/// Where the shell project goes, before it is placed under the project
/// directory: the command line, else the environment, else the file, else
/// `ohos-app`.
pub open spec fn output_candidate(common: CommonArgs, env: EnvConfig, file: FileConfig) -> Seq<char> {
    or_default(layered(common.out_dir, env.output_dir, file.output_dir), "ohos-app"@)
}

/// The bundle name derived from a package name: `com.example.` and the name
/// in ASCII lower case without `-` and `_`.
pub open spec fn spec_default_bundle_name(package_name: Seq<char>) -> Seq<char> {
    "com.example."@ + ascii_lowercase(without_chars(package_name, '-', '_'))
}

/// The settings that a run resolves to, but for the output directory, which
/// is stated on its own.
pub open spec fn resolves_to(
    cfg: ResolvedConfig,
    common: CommonArgs,
    env: EnvConfig,
    file: FileConfig,
    package_name: Seq<char>,
) -> bool {
    &&& spec_target(common, env, file) == Ok::<Seq<char>, Seq<char>>(cfg.target@)
    &&& abi_of_target(cfg.target@) == Some(cfg.abi@)
    &&& cfg.profile_dir@ == spec_profile_dir(common, env, file)
    &&& cfg.module_name@ == or_default(layered(common.module_name, env.module_name, file.module_name), "entry"@)
    &&& cfg.bundle_name@ == or_default(
        layered(common.bundle_name, env.bundle_name, file.bundle_name),
        spec_default_bundle_name(package_name),
    )
    &&& cfg.deveco_studio_dir@ == or_default(
        layered(common.deveco_studio_dir, env.deveco_studio_dir, file.deveco_studio_dir),
        DEFAULT_DEV_ECO_STUDIO_DIR@,
    )
    &&& cfg.ohpm_path@ == or_default(layered(common.ohpm_path, env.ohpm_path, file.ohpm_path), DEFAULT_OHPM_PATH@)
    &&& cfg.sdk_root@ == or_default(layered(common.sdk_root, env.sdk_root, file.sdk_root), DEFAULT_SDK_ROOT@)
    &&& opt_view(cfg.sdk_version) == layered(common.sdk_version, env.sdk_version, file.sdk_version)
}

fn copy_opt(o: &Option<String>) -> (res: Option<String>)
    ensures
        opt_view(res) == opt_view(*o),
{
    match o {
        Some(s) => Some(s.clone()),
        None => None,
    }
}

fn env_value(v: &EnvVar) -> (res: Option<String>)
    ensures
        opt_view(res) == env_view(*v),
{
    match &v.primary {
        Some(s) => Some(s.clone()),
        None => copy_opt(&v.legacy),
    }
}

fn layered_value(cli: &Option<String>, env: &EnvVar, file: &Option<String>) -> (res: Option<String>)
    ensures
        opt_view(res) == layered(*cli, *env, *file),
{
    match cli {
        Some(s) => Some(s.clone()),
        None => match env_value(env) {
            Some(s) => Some(s),
            None => copy_opt(file),
        },
    }
}

fn value_or(o: Option<String>, default: &str) -> (res: String)
    ensures
        res@ == or_default(opt_view(o), default@),
{
    match o {
        Some(s) => s,
        None => owned(default),
    }
}

/// The Rust target that a run builds for.
pub fn resolve_target(common: &CommonArgs, env: &EnvConfig, file: &FileConfig) -> (res: AppResult<String>)
    ensures
        match res {
            Ok(t) => spec_target(*common, *env, *file) == Ok::<Seq<char>, Seq<char>>(t@),
            Err(e) => exists|abi: Seq<char>|
                spec_target(*common, *env, *file) == Err::<Seq<char>, Seq<char>>(abi) && (e matches OhosAppError::Message(m)
                    && m@ == unsupported_abi_message(abi)),
        },
{
    if let Some(t) = &common.target {
        return Ok(t.clone());
    }
    if let Some(abi) = common.abi {
        proof {
            lemma_cli_abi_has_target(abi);
        }
        let t = abi_to_target(abi.as_str())?;
        return Ok(owned(t));
    }
    if let Some(t) = env_value(&env.target) {
        return Ok(t);
    }
    if let Some(abi) = env_value(&env.abi) {
        let t = abi_to_target(abi.as_str())?;
        return Ok(owned(t));
    }
    if let Some(t) = &file.target {
        return Ok(t.clone());
    }
    if let Some(abi) = &file.abi {
        let t = abi_to_target(abi.as_str())?;
        return Ok(owned(t));
    }
    Ok(owned(DEFAULT_TARGET))
}

/// The bundle name used when none is configured.
pub fn default_bundle_name(package_name: &str) -> (res: String)
    ensures
        res@ == spec_default_bundle_name(package_name@),
{
    let stripped = remove_chars(package_name, '-', '_');
    let lower = to_ascii_lower(stripped.as_str());
    concat2("com.example.", lower.as_str())
}

/// An output directory placed: `candidate` itself when it is absolute,
/// else `candidate` under the project directory.
pub open spec fn placed_output_dir(res: Seq<char>, candidate: Seq<char>, project_dir: Seq<char>, absolute: bool) -> bool {
    &&& absolute ==> res == candidate
    &&& !absolute && plain(candidate) && open_ended(project_dir) ==> joins_to(res, project_dir, seq![candidate])
}

/// Places an output directory, given whether it is absolute.
pub fn output_dir_for(candidate: &str, project_dir: &str, absolute: bool) -> (res: String)
    ensures
        placed_output_dir(res@, candidate@, project_dir@, absolute),
{
    if absolute {
        owned(candidate)
    } else {
        let parts = components(&[candidate]);
        assert(views(parts@) =~= seq![candidate@]);
        join_all(project_dir, &parts)
    }
}

/// Places an output directory: an absolute one as it is, a relative one
/// under the project directory. Which paths are absolute is the platform's
/// to say; a plain relative path is not absolute on any platform.
pub fn resolve_output_dir(candidate: &str, project_dir: &str) -> (res: String)
    ensures
        exists|absolute: bool|
            #![trigger placed_output_dir(res@, candidate@, project_dir@, absolute)]
            placed_output_dir(res@, candidate@, project_dir@, absolute) && (plain(candidate@) ==> !absolute),
{
    let absolute = path_is_absolute(candidate);
    let res = output_dir_for(candidate, project_dir, absolute);
    assert(placed_output_dir(res@, candidate@, project_dir@, absolute));
    res
}

impl ResolvedConfig {
    /// Resolves the settings of a run from the command line, the environment
    /// and the project's configuration file.
    pub fn resolve(common: &CommonArgs, env: &EnvConfig, file: &FileConfig, project: &ProjectInfo) -> (res: AppResult<ResolvedConfig>)
        ensures
            match res {
                Ok(cfg) => {
                    &&& resolves_to(cfg, *common, *env, *file, project.package_name@)
                    &&& exists|absolute: bool|
                        #![trigger placed_output_dir(cfg.output_dir@, output_candidate(*common, *env, *file), project.project_dir@, absolute)]
                        placed_output_dir(cfg.output_dir@, output_candidate(*common, *env, *file), project.project_dir@, absolute)
                            && (plain(output_candidate(*common, *env, *file)) ==> !absolute)
                },
                Err(e) => {
                    ||| exists|abi: Seq<char>|
                        spec_target(*common, *env, *file) == Err::<Seq<char>, Seq<char>>(abi) && (e matches OhosAppError::Message(m)
                            && m@ == unsupported_abi_message(abi))
                    ||| exists|t: Seq<char>|
                        spec_target(*common, *env, *file) == Ok::<Seq<char>, Seq<char>>(t) && abi_of_target(t) is None
                            && (e matches OhosAppError::UnsupportedTarget { target } && target@ == t)
                },
            },
    {
        let target = resolve_target(common, env, file)?;
        let abi = owned(target_to_abi(target.as_str())?);
        let profile_dir = if common.release {
            owned("release")
        } else {
            let p = match &file.profile {
                Some(p) => Some(p.clone()),
                None => env_value(&env.profile),
            };
            value_or(p, "debug")
        };
        let candidate = value_or(layered_value(&common.out_dir, &env.output_dir, &file.output_dir), "ohos-app");
        let output_dir = resolve_output_dir(candidate.as_str(), project.project_dir.as_str());
        let ghost absolute = choose|absolute: bool|
            placed_output_dir(output_dir@, candidate@, project.project_dir@, absolute) && (plain(candidate@) ==> !absolute);
        let default_bundle = default_bundle_name(project.package_name.as_str());
        let module_name = value_or(layered_value(&common.module_name, &env.module_name, &file.module_name), "entry");
        let bundle_name = match layered_value(&common.bundle_name, &env.bundle_name, &file.bundle_name) {
            Some(b) => b,
            None => default_bundle,
        };
        let deveco_studio_dir = value_or(
            layered_value(&common.deveco_studio_dir, &env.deveco_studio_dir, &file.deveco_studio_dir),
            DEFAULT_DEV_ECO_STUDIO_DIR,
        );
        let ohpm_path = value_or(layered_value(&common.ohpm_path, &env.ohpm_path, &file.ohpm_path), DEFAULT_OHPM_PATH);
        let sdk_root = value_or(layered_value(&common.sdk_root, &env.sdk_root, &file.sdk_root), DEFAULT_SDK_ROOT);
        let sdk_version = layered_value(&common.sdk_version, &env.sdk_version, &file.sdk_version);
        let cfg = ResolvedConfig {
            deveco_studio_dir,
            ohpm_path,
            sdk_root,
            sdk_version,
            target,
            abi,
            profile_dir,
            output_dir,
            bundle_name,
            module_name,
        };
        assert(placed_output_dir(cfg.output_dir@, output_candidate(*common, *env, *file), project.project_dir@, absolute));
        Ok(cfg)
    }
}

/// Where the manifest is looked for: the command line, else the
/// environment, else `Cargo.toml` in the working directory (`None`).
pub open spec fn manifest_candidate(common: CommonArgs, env: EnvConfig) -> Option<Seq<char>> {
    or_else(opt_view(common.manifest_path), env_view(env.manifest_path))
}

proof fn lemma_cargo_toml_plain()
    ensures
        plain("Cargo.toml"@),
{
    reveal_strlit("Cargo.toml");
}

/// The path that a manifest lookup settled on, found or missing.
pub open spec fn looked_at(res: AppResult<String>) -> Seq<char> {
    match res {
        Ok(p) => p@,
        Err(OhosAppError::MissingFile { path }) => path@,
        Err(_) => Seq::empty(),
    }
}

/// The manifest of the project; `MissingFile` when nothing is on disk there.
pub fn resolve_manifest_path(common: &CommonArgs, env: &EnvConfig, cwd: &str) -> (res: AppResult<String>)
    ensures
        res is Ok || res matches Err(OhosAppError::MissingFile { .. }),
        manifest_candidate(*common, *env) matches Some(c) ==> looked_at(res) == c,
        manifest_candidate(*common, *env) is None && open_ended(cwd@) ==> joins_to(
            looked_at(res),
            cwd@,
            seq!["Cargo.toml"@],
        ),
{
    let path = match layered_value(&common.manifest_path, &env.manifest_path, &None) {
        Some(p) => p,
        None => {
            proof {
                lemma_cargo_toml_plain();
            }
            let parts = components(&["Cargo.toml"]);
            assert(views(parts@) =~= seq!["Cargo.toml"@]);
            join_all(cwd, &parts)
        },
    };
    if path_exists(path.as_str()) {
        Ok(path)
    } else {
        Err(OhosAppError::MissingFile { path })
    }
}

impl AppContext {
    /// The context of a run, once the project, the settings and the SDK are
    /// known: finds the hvigor files of DevEco Studio.
    pub fn load(project: ProjectInfo, config: ResolvedConfig, sdk: SdkInfo) -> (res: AppResult<AppContext>)
        ensures
            match res {
                Ok(app) => app.project == project && app.config == config && app.sdk == sdk,
                Err(e) => e matches OhosAppError::MissingFile { .. },
            },
            exists|info: HvigorInfo, present: [bool; 4]|
                #![trigger hvigor_check_result(info, present@)]
                (open_ended(config.deveco_studio_dir@) ==> hvigor_layout(info, config.deveco_studio_dir@)) && match res {
                    Ok(app) => hvigor_check_result(info, present@) == Ok::<HvigorInfo, OhosAppError>(app.hvigor),
                    Err(e) => hvigor_check_result(info, present@) == Err::<HvigorInfo, OhosAppError>(e),
                },
    {
        let found = discover_hvigor(config.deveco_studio_dir.as_str());
        proof {
            let (info, present) = choose|info: HvigorInfo, present: [bool; 4]|
                (open_ended(config.deveco_studio_dir@) ==> hvigor_layout(info, config.deveco_studio_dir@))
                    && #[trigger] hvigor_check_result(info, present@) == found;
        }
        let hvigor = found?;
        let app = AppContext { project, config, sdk, hvigor };
        Ok(app)
    }
}

/// A setting given on the command line wins over the environment, the
/// environment (`OHOS_APP_*` before `HARMONY_APP_*`) over the file, and the
/// file over the default.
/// Where a run's Rust target comes from. A target on the command line wins;
/// else an ABI on the command line gives the target that builds for that
/// ABI; else the environment's `OHOS_APP_TARGET` (or, where that is unset,
/// `HARMONY_APP_TARGET`) is the target, whatever the file and the default
/// say; with no target or ABI anywhere, `aarch64-unknown-linux-ohos`. The
/// ABI of the settings is the one that the resolved target builds for.
pub proof fn lemma_target_precedence(
    common: CommonArgs,
    env: EnvConfig,
    file: FileConfig,
    cfg: ResolvedConfig,
    package_name: Seq<char>,
)
    ensures
        common.target is Some ==> spec_target(common, env, file) == Ok::<Seq<char>, Seq<char>>(common.target->0@),
        common.target is None && common.abi is Some ==> spec_target(common, env, file) is Ok && abi_of_target(
            spec_target(common, env, file)->Ok_0,
        ) == Some(abi_name(common.abi->0)),
        common.target is None && common.abi is None && env.target.primary is Some ==> spec_target(common, env, file)
            == Ok::<Seq<char>, Seq<char>>(env.target.primary->0@),
        common.target is None && common.abi is None && env.target.primary is None && env.target.legacy is Some
            ==> spec_target(common, env, file) == Ok::<Seq<char>, Seq<char>>(env.target.legacy->0@),
        common.target is None && common.abi is None && env.target.primary is None && env.target.legacy is None
            && env.abi.primary is Some ==> (spec_target(common, env, file) is Ok <==> target_of_abi(
            env.abi.primary->0@,
        ) is Some) && (spec_target(common, env, file) is Ok ==> abi_of_target(spec_target(common, env, file)->Ok_0)
            == Some(env.abi.primary->0@)),
        common.target is None && common.abi is None && env.target.primary is None && env.target.legacy is None
            && env.abi.primary is None && env.abi.legacy is None && file.target is Some ==> spec_target(
            common,
            env,
            file,
        ) == Ok::<Seq<char>, Seq<char>>(file.target->0@),
        common.target is None && common.abi is None && env.target.primary is None && env.target.legacy is None
            && env.abi.primary is None && env.abi.legacy is None && file.target is None && file.abi is None
            ==> spec_target(common, env, file) == Ok::<Seq<char>, Seq<char>>("aarch64-unknown-linux-ohos"@),
        resolves_to(cfg, common, env, file, package_name) && common.target is None && common.abi is None
            && env.target.primary is Some ==> cfg.target@ == env.target.primary->0@ && abi_of_target(
            env.target.primary->0@,
        ) == Some(cfg.abi@),
{
    if common.target is None && common.abi is Some {
        lemma_cli_abi_has_target(common.abi->0);
    }
    if env.abi.primary is Some {
        let a = env.abi.primary->0@;
        if target_of_abi(a) is Some {
            crate::sdk::lemma_target_abi_inverse(target_of_abi(a)->0, a);
        }
    }
}

pub proof fn lemma_setting_precedence(cli: Option<String>, env: EnvVar, file: Option<String>, default: Seq<char>)
    ensures
        cli matches Some(c) ==> or_default(layered(cli, env, file), default) == c@,
        cli is None && env.primary is Some ==> or_default(layered(cli, env, file), default) == env.primary->0@,
        cli is None && env.primary is None && env.legacy is Some ==> or_default(
            layered(cli, env, file),
            default,
        ) == env.legacy->0@,
        cli is None && env_view(env) is None && file is Some ==> or_default(
            layered(cli, env, file),
            default,
        ) == file->0@,
        cli is None && env_view(env) is None && file is None ==> or_default(layered(cli, env, file), default)
            == default,
{
}

proof fn lemma_config_names_plain()
    ensures
        plain("ohos-app.toml"@),
        plain("harmony-app.toml"@),
{
    reveal_strlit("ohos-app.toml");
    reveal_strlit("harmony-app.toml");
}

/// The configuration file to read: `ohos-app.toml` if it exists, else the
/// older `harmony-app.toml` if that exists, else none.
pub fn pick_config_file(primary: String, primary_exists: bool, legacy: String, legacy_exists: bool) -> (res: Option<String>)
    ensures
        primary_exists ==> res == Some(primary),
        !primary_exists && legacy_exists ==> res == Some(legacy),
        !primary_exists && !legacy_exists ==> res is None,
{
    if primary_exists {
        Some(primary)
    } else if legacy_exists {
        Some(legacy)
    } else {
        None
    }
}

/// The configuration file found: the primary path if it exists, else the
/// legacy path if it exists, else none.
pub open spec fn picked_config(
    primary: Seq<char>,
    primary_exists: bool,
    legacy: Seq<char>,
    legacy_exists: bool,
) -> Option<Seq<char>> {
    if primary_exists {
        Some(primary)
    } else if legacy_exists {
        Some(legacy)
    } else {
        None
    }
}

/// Looks in the project directory for its configuration file:
/// `ohos-app.toml`, else the older `harmony-app.toml`, else none. Which
/// files exist is not stated: that depends on the disk.
pub fn config_file_path(project_dir: &str) -> (res: Option<String>)
    ensures
        exists|primary: Seq<char>, legacy: Seq<char>, primary_exists: bool, legacy_exists: bool|
            #![trigger picked_config(primary, primary_exists, legacy, legacy_exists)]
            (open_ended(project_dir@) ==> joins_to(primary, project_dir@, seq!["ohos-app.toml"@]) && joins_to(
                legacy,
                project_dir@,
                seq!["harmony-app.toml"@],
            )) && opt_view(res) == picked_config(primary, primary_exists, legacy, legacy_exists),
{
    proof {
        lemma_config_names_plain();
    }
    let primary_parts = components(&["ohos-app.toml"]);
    let legacy_parts = components(&["harmony-app.toml"]);
    assert(views(primary_parts@) =~= seq!["ohos-app.toml"@]);
    assert(views(legacy_parts@) =~= seq!["harmony-app.toml"@]);
    let primary = join_all(project_dir, &primary_parts);
    let legacy = join_all(project_dir, &legacy_parts);
    let ghost (pv, lv) = (primary@, legacy@);
    let primary_exists = path_exists(primary.as_str());
    let legacy_exists = if primary_exists {
        false
    } else {
        path_exists(legacy.as_str())
    };
    let res = pick_config_file(primary, primary_exists, legacy, legacy_exists);
    assert(opt_view(res) == picked_config(pv, primary_exists, lv, legacy_exists));
    res
}

impl ResolvedConfig {
    /// Starts finding the SDK of these settings: under the SDK root, for the
    /// configured version (or the newest installed one).
    pub fn sdk_discovery(&self) -> (res: (SdkDiscovery, SdkAsk))
        ensures
            res.0.root@ == self.sdk_root@,
            match self.sdk_version {
                Some(v) => if auto_requested(v@) {
                    res.0.requested is None
                } else {
                    res.0.requested matches Some(r) && r@ == v@
                },
                None => res.0.requested is None,
            },
            res.0.stage == SdkStage::Root,
            res.1 == SdkAsk::Exists(res.0.root),
    {
        let requested = match &self.sdk_version {
            Some(v) => Some(v.as_str()),
            None => None,
        };
        SdkDiscovery::start(self.sdk_root.as_str(), requested)
    }
}

} // verus!
