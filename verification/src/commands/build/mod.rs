//! `build`: compile the project's library as a static library for the
//! target and copy it into the shell project.
use vstd::prelude::*;
use crate::cli::BuildCommand;
use crate::commands::{command_env, is_command_env};
use crate::commands::workflow::{all_prints, printed, Step, Workflow};
use crate::config::AppContext;
use crate::paths::{all_plain, components, join_all, joins_to, open_ended, plain, views};
use crate::project::static_lib_file;
use crate::runner::{arg_views, shown_command, CommandSpec};
use crate::text::{concat2, concat3, owned, str_eq};
use vstd::string::StringExecFns;

verus! {

/// The cargo command, and where the static library is built, where it goes
/// in the shell project, and where a shared library of an older layout lies.
#[derive(Debug)]
pub struct BuildPlan {
    pub command: CommandSpec,
    pub source: String,
    pub destination: String,
    pub legacy_shared_destination: String,
}

/// `cargo rustc` for the library, for the target, in release mode for the
/// `release` profile, as a static library.
pub open spec fn build_args(app: AppContext) -> Seq<Seq<char>> {
    seq!["rustc"@, "--lib"@, "--manifest-path"@, app.project.manifest_path@, "--target"@, app.config.target@]
        + (if app.config.profile_dir@ == "release"@ {
        seq!["--release"@]
    } else {
        Seq::empty()
    }) + seq!["--"@, "--crate-type"@, "staticlib"@]
}

/// The directory of the shell project that holds the native libraries for an ABI.
pub open spec fn libs_dir_parts(abi: Seq<char>) -> Seq<Seq<char>> {
    seq!["entry"@, "src"@, "main"@, "cpp"@, "libs"@, abi]
}

/// The file name of the shared library of a crate named `lib_name`.
pub open spec fn shared_lib_file(lib_name: Seq<char>) -> Seq<char> {
    "lib"@ + lib_name + ".so"@
}

pub open spec fn is_build_plan(plan: BuildPlan, app: AppContext) -> bool {
    let out = app.config.output_dir@;
    let abi = app.config.abi@;
    let lib = app.project.lib_name@;
    &&& plan.command.program@ == "cargo"@
    &&& arg_views(plan.command.args@) == build_args(app)
    &&& plan.command.cwd@ == app.project.project_dir@
    &&& is_command_env(plan.command.env@, app)
    &&& open_ended(app.project.target_dir@) && all_plain(
        seq![app.config.target@, app.config.profile_dir@, static_lib_file(lib)],
    ) ==> joins_to(
        plan.source@,
        app.project.target_dir@,
        seq![app.config.target@, app.config.profile_dir@, static_lib_file(lib)],
    )
    &&& open_ended(out) && plain(abi) && plain(static_lib_file(lib)) ==> joins_to(
        plan.destination@,
        out,
        libs_dir_parts(abi).push(static_lib_file(lib)),
    )
    &&& open_ended(out) && plain(abi) && plain(shared_lib_file(lib)) ==> joins_to(
        plan.legacy_shared_destination@,
        out,
        libs_dir_parts(abi).push(shared_lib_file(lib)),
    )
}

pub proof fn lemma_layout_names_plain()
    ensures
        plain("entry"@),
        plain("src"@),
        plain("main"@),
        plain("cpp"@),
        plain("libs"@),
{
    reveal_strlit("entry");
    reveal_strlit("src");
    reveal_strlit("main");
    reveal_strlit("cpp");
    reveal_strlit("libs");
}

/// The cargo command builds in release mode exactly for the `release`
/// profile: `--release` stands among the flags after the target exactly
/// when the profile directory is `release`, so cargo writes the static
/// library under the profile directory that the plan copies it from. The
/// command is `cargo rustc --lib --manifest-path <manifest> --target
/// <target>`, then the flags, ending in `-- --crate-type staticlib`.
pub proof fn lemma_build_release_matches_profile(plan: BuildPlan, app: AppContext)
    requires
        is_build_plan(plan, app),
    ensures
        ({
            let args = arg_views(plan.command.args@);
            &&& args.len() >= 9
            &&& args.take(6) == seq![
                "rustc"@,
                "--lib"@,
                "--manifest-path"@,
                app.project.manifest_path@,
                "--target"@,
                app.config.target@,
            ]
            &&& args.skip(args.len() - 3) == seq!["--"@, "--crate-type"@, "staticlib"@]
            &&& (exists|i: int| 6 <= i < args.len() && #[trigger] args[i] == "--release"@) <==> app.config.profile_dir@
                == "release"@
        }),
{
    reveal_strlit("--release");
    reveal_strlit("--");
    reveal_strlit("--crate-type");
    reveal_strlit("staticlib");
    let args = arg_views(plan.command.args@);
    if app.config.profile_dir@ == "release"@ {
        assert(args[6] == "--release"@);
    } else {
        assert(args.len() == 9);
        assert("--"@.len() != "--release"@.len());
        assert("--crate-type"@.len() != "--release"@.len());
        assert("staticlib"@[0] != "--release"@[0]);
        assert(args[6] == "--"@ && args[7] == "--crate-type"@ && args[8] == "staticlib"@);
        assert forall|i: int| 6 <= i < args.len() implies #[trigger] args[i] != "--release"@ by {
            if i == 8 {
                assert(args[i][0] != "--release"@[0]);
            }
        }
    }
    assert(args.take(6) =~= seq![
        "rustc"@,
        "--lib"@,
        "--manifest-path"@,
        app.project.manifest_path@,
        "--target"@,
        app.config.target@,
    ]);
    assert(args.skip(args.len() - 3) =~= seq!["--"@, "--crate-type"@, "staticlib"@]);
}

/// `file` in the native library directory for `abi` under `out`.
pub fn lib_path(out: &str, abi: &str, file: &str) -> (res: String)
    ensures
        open_ended(out@) && plain(abi@) && plain(file@) ==> joins_to(res@, out@, libs_dir_parts(abi@).push(file@)),
{
    proof {
        lemma_layout_names_plain();
    }
    let parts = components(&["entry", "src", "main", "cpp", "libs", abi, file]);
    assert(views(parts@) =~= libs_dir_parts(abi@).push(file@));
    join_all(out, &parts)
}

pub fn build_plan(app: &AppContext) -> (plan: BuildPlan)
    ensures
        is_build_plan(plan, *app),
{
    let mut args: Vec<String> = Vec::new();
    args.push(owned("rustc"));
    args.push(owned("--lib"));
    args.push(owned("--manifest-path"));
    args.push(app.project.manifest_path.clone());
    args.push(owned("--target"));
    args.push(app.config.target.clone());
    let release = str_eq(app.config.profile_dir.as_str(), "release");
    if release {
        args.push(owned("--release"));
    }
    args.push(owned("--"));
    args.push(owned("--crate-type"));
    args.push(owned("staticlib"));
    assert(arg_views(args@) =~= build_args(*app));
    let source = app.project.static_artifact_path(app.config.target.as_str(), app.config.profile_dir.as_str());
    let static_file = concat3("lib", app.project.lib_name.as_str(), ".a");
    let shared_file = concat3("lib", app.project.lib_name.as_str(), ".so");
    let destination = lib_path(app.config.output_dir.as_str(), app.config.abi.as_str(), static_file.as_str());
    let legacy = lib_path(app.config.output_dir.as_str(), app.config.abi.as_str(), shared_file.as_str());
    BuildPlan {
        command: CommandSpec {
            program: owned("cargo"),
            args,
            cwd: app.project.project_dir.clone(),
            env: command_env(app),
        },
        source,
        destination,
        legacy_shared_destination: legacy,
    }
}

/// The dry-run report of a build: the cargo command and the copy.
pub open spec fn build_dry_run_lines(plan: BuildPlan) -> Seq<Seq<char>> {
    seq![
        "[dry-run] "@ + shown_command(plan.command.program@, arg_views(plan.command.args@)),
        "[dry-run] copy "@ + plan.source@ + " -> "@ + plan.destination@,
    ]
}

pub fn dry_run_steps(plan: &BuildPlan) -> (res: Vec<Step>)
    ensures
        all_prints(res@),
        printed(res@) == build_dry_run_lines(*plan),
{
    let shown = plan.command.display();
    let first = concat2("[dry-run] ", shown.as_str());
    let mut second = concat3("[dry-run] copy ", plan.source.as_str(), " -> ");
    second.append(plan.destination.as_str());
    let res = vec![Step::Print(first), Step::Print(second)];
    assert(printed(res@) =~= build_dry_run_lines(*plan));
    res
}

/// The steps that build the library and put it in place.
pub open spec fn rust_build_steps(plan: BuildPlan) -> Seq<Step> {
    seq![
        Step::Run(plan.command),
        Step::RequireFile(plan.source),
        Step::RemoveIfPresent(plan.legacy_shared_destination),
        Step::CreateParentDir(plan.destination),
        Step::Copy(plan.source, plan.destination),
    ]
}

pub fn build_steps(plan: BuildPlan) -> (res: Vec<Step>)
    ensures
        res@ == rust_build_steps(plan),
{
    let ghost p = plan;
    let source = plan.source.clone();
    let destination = plan.destination.clone();
    let res = vec![
        Step::Run(plan.command),
        Step::RequireFile(plan.source),
        Step::RemoveIfPresent(plan.legacy_shared_destination),
        Step::CreateParentDir(destination.clone()),
        Step::Copy(source, destination),
    ];
    assert(res@ =~= rust_build_steps(p));
    res
}

pub open spec fn built_report(destination: Seq<char>) -> Seq<char> {
    "Built Rust staticlib and copied it to "@ + destination
}

/// The steps of `build`: the dry-run report, or the build followed by its report.
pub open spec fn is_build_run(steps: Seq<Step>, command: BuildCommand, plan: BuildPlan) -> bool {
    if command.common.dry_run {
        all_prints(steps) && printed(steps) == build_dry_run_lines(plan)
    } else {
        &&& steps.len() == 6
        &&& steps.take(5) == rust_build_steps(plan)
        &&& steps[5] matches Step::Print(l) && l@ == built_report(plan.destination@)
    }
}

/// The run of `build` for the context.
pub fn run(command: &BuildCommand, app: &AppContext) -> (res: Workflow)
    ensures
        res.awaiting == crate::commands::workflow::Awaiting::Done,
        exists|plan: BuildPlan| is_build_plan(plan, *app) && is_build_run(res.remaining@, *command, plan),
{
    let plan = build_plan(app);
    let ghost p = plan;
    if command.common.dry_run {
        let steps = dry_run_steps(&plan);
        return Workflow::new(steps);
    }
    let report = concat2("Built Rust staticlib and copied it to ", plan.destination.as_str());
    let mut steps = build_steps(plan);
    steps.push(Step::Print(report));
    assert(steps@.take(5) =~= rust_build_steps(p));
    Workflow::new(steps)
}

} // verus!
