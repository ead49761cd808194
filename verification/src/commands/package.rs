//! `package`: generate the shell project, build the library into it, install
//! the shell's dependencies with ohpm (or npm where ohpm fails), assemble it
//! with hvigor and report the artifact.
use vstd::prelude::*;
use crate::cli::{InitCommand, PackageArtifact, PackageCommand};
use crate::commands::build::{
    build_dry_run_lines, build_plan, build_steps, dry_run_steps, is_build_plan, rust_build_steps, BuildPlan,
};
use crate::commands::workflow::{all_prints, printed, Awaiting, Step, Workflow};
use crate::commands::{command_env, is_command_env};
use crate::config::AppContext;
use crate::runner::{arg_views, shown_command, CommandSpec};
use crate::text::{concat2, owned};

verus! {

pub open spec fn spec_hvigor_task(artifact: PackageArtifact) -> Seq<char> {
    match artifact {
        PackageArtifact::App => "assembleApp"@,
        PackageArtifact::Hap => "assembleHap"@,
    }
}

pub open spec fn spec_artifact_extension(artifact: PackageArtifact) -> Seq<char> {
    match artifact {
        PackageArtifact::App => "app"@,
        PackageArtifact::Hap => "hap"@,
    }
}

pub open spec fn spec_artifact_label(artifact: PackageArtifact) -> Seq<char> {
    match artifact {
        PackageArtifact::App => ".app"@,
        PackageArtifact::Hap => ".hap"@,
    }
}

/// The hvigor task that assembles an artifact.
pub fn hvigor_task(artifact: PackageArtifact) -> (res: &'static str)
    ensures
        res@ == spec_hvigor_task(artifact),
{
    match artifact {
        PackageArtifact::App => "assembleApp",
        PackageArtifact::Hap => "assembleHap",
    }
}

/// The file extension of an artifact.
pub fn artifact_extension(artifact: PackageArtifact) -> (res: &'static str)
    ensures
        res@ == spec_artifact_extension(artifact),
{
    match artifact {
        PackageArtifact::App => "app",
        PackageArtifact::Hap => "hap",
    }
}

/// How an artifact is named in the report.
pub fn artifact_label(artifact: PackageArtifact) -> (res: &'static str)
    ensures
        res@ == spec_artifact_label(artifact),
{
    match artifact {
        PackageArtifact::App => ".app",
        PackageArtifact::Hap => ".hap",
    }
}

pub open spec fn spec_describe_init(app: AppContext) -> Seq<char> {
    "generate OHOS shell at "@ + app.config.output_dir@
}

/// What `init` would do, in words.
pub fn describe_init(_command: &InitCommand, app: &AppContext) -> (res: String)
    ensures
        res@ == spec_describe_init(*app),
{
    concat2("generate OHOS shell at ", app.config.output_dir.as_str())
}

/// A command run in the shell project's directory with the tools' environment.
pub open spec fn in_shell(c: CommandSpec, app: AppContext, program: Seq<char>, args: Seq<Seq<char>>) -> bool {
    &&& c.program@ == program
    &&& arg_views(c.args@) == args
    &&& c.cwd@ == app.config.output_dir@
    &&& is_command_env(c.env@, app)
}

fn shell_command(app: &AppContext, program: String, args: Vec<String>) -> (res: CommandSpec)
    ensures
        in_shell(res, *app, program@, arg_views(args@)),
{
    CommandSpec { program, args, cwd: app.config.output_dir.clone(), env: command_env(app) }
}

/// `ohpm install` with the configured ohpm.
pub fn install_command(app: &AppContext) -> (res: CommandSpec)
    ensures
        in_shell(res, *app, app.config.ohpm_path@, seq!["install"@]),
{
    let args = vec![owned("install")];
    assert(arg_views(args@) =~= seq!["install"@]);
    shell_command(app, app.config.ohpm_path.clone(), args)
}

/// `npm.cmd install`, run where ohpm fails.
pub fn npm_install_command(app: &AppContext) -> (res: CommandSpec)
    ensures
        in_shell(res, *app, "npm.cmd"@, seq!["install"@]),
{
    let args = vec![owned("install")];
    assert(arg_views(args@) =~= seq!["install"@]);
    shell_command(app, owned("npm.cmd"), args)
}

/// `hvigorw.bat clean <task> --no-daemon` for the artifact.
pub fn hvigor_command(app: &AppContext, artifact: PackageArtifact) -> (res: CommandSpec)
    ensures
        in_shell(res, *app, app.hvigor.wrapper_bat@, seq!["clean"@, spec_hvigor_task(artifact), "--no-daemon"@]),
{
    let args = vec![owned("clean"), owned(hvigor_task(artifact)), owned("--no-daemon")];
    assert(arg_views(args@) =~= seq!["clean"@, spec_hvigor_task(artifact), "--no-daemon"@]);
    shell_command(app, app.hvigor.wrapper_bat.clone(), args)
}

/// The dry-run report of `package`: what `init` would do unless skipped,
/// the build unless skipped, then the ohpm and hvigor commands.
pub open spec fn package_dry_run_lines(
    command: PackageCommand,
    app: AppContext,
    plan: BuildPlan,
    install: CommandSpec,
    hvigor: CommandSpec,
) -> Seq<Seq<char>> {
    (if command.skip_init {
        Seq::empty()
    } else {
        seq!["[dry-run] "@ + spec_describe_init(app)]
    }) + (if command.skip_rust_build {
        Seq::empty()
    } else {
        build_dry_run_lines(plan)
    }) + seq![
        "[dry-run] "@ + shown_command(install.program@, arg_views(install.args@)),
        "[dry-run] "@ + shown_command(hvigor.program@, arg_views(hvigor.args@)),
    ]
}

/// The steps of a real `package` run.
pub open spec fn package_steps(
    command: PackageCommand,
    plan: BuildPlan,
    install: CommandSpec,
    fallback: CommandSpec,
    hvigor: CommandSpec,
) -> Seq<Step> {
    (if command.skip_init {
        Seq::empty()
    } else {
        seq![Step::WriteShell]
    }) + (if command.skip_rust_build {
        Seq::empty()
    } else {
        rust_build_steps(plan)
    }) + seq![Step::RunWithFallback(install, fallback), Step::Run(hvigor)]
}

/// The last step of a real `package` run: find and report the artifact.
pub open spec fn reports_artifact(step: Step, app: AppContext, artifact: PackageArtifact) -> bool {
    step matches Step::ReportArtifact { root, extension, label } && root@ == app.config.output_dir@
        && extension@ == spec_artifact_extension(artifact) && label@ == spec_artifact_label(artifact)
}

pub open spec fn is_package_run(
    steps: Seq<Step>,
    command: PackageCommand,
    app: AppContext,
    plan: BuildPlan,
    install: CommandSpec,
    fallback: CommandSpec,
    hvigor: CommandSpec,
) -> bool {
    &&& is_build_plan(plan, app)
    &&& in_shell(install, app, app.config.ohpm_path@, seq!["install"@])
    &&& in_shell(fallback, app, "npm.cmd"@, seq!["install"@])
    &&& in_shell(
        hvigor,
        app,
        app.hvigor.wrapper_bat@,
        seq!["clean"@, spec_hvigor_task(command.artifact), "--no-daemon"@],
    )
    &&& if command.common.dry_run {
        all_prints(steps) && printed(steps) == package_dry_run_lines(command, app, plan, install, hvigor)
    } else {
        &&& steps.len() > 0
        &&& steps.drop_last() == package_steps(command, plan, install, fallback, hvigor)
        &&& reports_artifact(steps.last(), app, command.artifact)
    }
}

/// The run of `package` for the context.
pub fn run(command: &PackageCommand, app: &AppContext) -> (res: Workflow)
    ensures
        res.awaiting == Awaiting::Done,
        exists|plan: BuildPlan, install: CommandSpec, fallback: CommandSpec, hvigor: CommandSpec|
            is_package_run(res.remaining@, *command, *app, plan, install, fallback, hvigor),
{
    let plan = build_plan(app);
    let install = install_command(app);
    let fallback = npm_install_command(app);
    let hvigor = hvigor_command(app, command.artifact);
    let ghost (p, i, f, h) = (plan, install, fallback, hvigor);
    let mut steps: Vec<Step> = Vec::new();
    if command.common.dry_run {
        if !command.skip_init {
            let init = InitCommand { common: command.common.clone() };
            let described = describe_init(&init, app);
            steps.push(Step::Print(concat2("[dry-run] ", described.as_str())));
        }
        let ghost before_build = steps@;
        if !command.skip_rust_build {
            let mut lines = dry_run_steps(&plan);
            steps.append(&mut lines);
        }
        let ghost before_tail = steps@;
        let shown_install = install.display();
        let shown_hvigor = hvigor.display();
        steps.push(Step::Print(concat2("[dry-run] ", shown_install.as_str())));
        steps.push(Step::Print(concat2("[dry-run] ", shown_hvigor.as_str())));
        proof {
            assert(all_prints(steps@)) by {
                assert forall|k: int| 0 <= k < steps@.len() implies #[trigger] steps@[k] is Print by {
                    if k < before_build.len() {
                        assert(steps@[k] == before_build[k]);
                    } else if k < before_tail.len() {
                        assert(steps@[k] == before_tail[k]);
                    }
                }
            }
            assert(printed(steps@) =~= package_dry_run_lines(*command, *app, p, i, h));
            assert(is_package_run(steps@, *command, *app, p, i, f, h));
        }
        return Workflow::new(steps);
    }
    if !command.skip_init {
        steps.push(Step::WriteShell);
    }
    if !command.skip_rust_build {
        let mut build = build_steps(plan);
        steps.append(&mut build);
    }
    steps.push(Step::RunWithFallback(install, fallback));
    steps.push(Step::Run(hvigor));
    let ghost body = steps@;
    steps.push(
        Step::ReportArtifact {
            root: app.config.output_dir.clone(),
            extension: owned(artifact_extension(command.artifact)),
            label: owned(artifact_label(command.artifact)),
        },
    );
    assert(body =~= package_steps(*command, p, i, f, h));
    assert(steps@.drop_last() =~= body);
    assert(reports_artifact(steps@.last(), *app, command.artifact));
    assert(is_package_run(steps@, *command, *app, p, i, f, h));
    Workflow::new(steps)
}

/// An entry of a directory met while looking for the artifact: its path,
/// whether it is a directory, and its extension where it has one.
#[derive(Debug, Clone)]
pub struct ArtifactEntry {
    pub path: String,
    pub is_dir: bool,
    pub extension: Option<String>,
}

/// A depth-first search for the packaged artifact: the directories still to
/// be read, the last one found first.
pub struct ArtifactSearch {
    pub pending: Vec<String>,
}

/// A file (not a directory) with the extension looked for.
pub open spec fn is_artifact(e: ArtifactEntry, extension: Seq<char>) -> bool {
    !e.is_dir && (e.extension matches Some(x) && x@ == extension)
}

/// The paths of the directories among `es`, in order.
pub open spec fn dirs_of(es: Seq<ArtifactEntry>) -> Seq<String>
    decreases es.len(),
{
    if es.len() == 0 {
        Seq::empty()
    } else if es.last().is_dir {
        dirs_of(es.drop_last()).push(es.last().path)
    } else {
        dirs_of(es.drop_last())
    }
}

impl ArtifactSearch {
    /// A search that starts at `root`.
    pub fn new(root: &str) -> (res: ArtifactSearch)
        ensures
            res.pending@.len() == 1,
            res.pending@[0]@ == root@,
    {
        ArtifactSearch { pending: vec![owned(root)] }
    }

    /// The next directory to read, if any is left.
    pub fn next_dir(&mut self) -> (res: Option<String>)
        ensures
            old(self).pending@.len() == 0 ==> res is None && final(self).pending@.len() == 0,
            old(self).pending@.len() > 0 ==> res == Some(old(self).pending@.last()) && final(self).pending@
                == old(self).pending@.drop_last(),
    {
        self.pending.pop()
    }

    /// Goes through the entries of a directory in order: the first file with
    /// the extension is the artifact; the directories before it are left to
    /// be read.
    pub fn visit(&mut self, entries: Vec<ArtifactEntry>, extension: &str) -> (found: Option<String>)
        ensures
            match found {
                Some(p) => exists|k: int|
                    0 <= k < entries@.len() && #[trigger] is_artifact(entries@[k], extension@) && (forall|j: int|
                        0 <= j < k ==> !is_artifact(#[trigger] entries@[j], extension@)) && p == entries@[k].path
                        && final(self).pending@ == old(self).pending@ + dirs_of(entries@.take(k)),
                None => (forall|j: int| 0 <= j < entries@.len() ==> !is_artifact(#[trigger] entries@[j], extension@))
                    && final(self).pending@ == old(self).pending@ + dirs_of(entries@),
            },
    {
        let n = entries.len();
        let mut i: usize = 0;
        while i < n
            invariant
                n == entries@.len(),
                i <= n,
                forall|j: int| 0 <= j < i ==> !is_artifact(#[trigger] entries@[j], extension@),
                self.pending@ == old(self).pending@ + dirs_of(entries@.take(i as int)),
            decreases n - i,
        {
            let e = &entries[i];
            assert(entries@.take(i + 1).drop_last() =~= entries@.take(i as int));
            if e.is_dir {
                self.pending.push(e.path.clone());
                assert(self.pending@ =~= old(self).pending@ + dirs_of(entries@.take(i + 1)));
            } else {
                let matches = match &e.extension {
                    Some(x) => crate::text::str_eq(x.as_str(), extension),
                    None => false,
                };
                if matches {
                    assert(is_artifact(entries@[i as int], extension@));
                    return Some(e.path.clone());
                }
                assert(self.pending@ =~= old(self).pending@ + dirs_of(entries@.take(i + 1)));
            }
            i = i + 1;
        }
        assert(entries@.take(n as int) =~= entries@);
        None
    }
}

/// Whether an artifact lies under directory `d` of a directory tree (each
/// directory's path mapped to its entries) at most `depth` levels down.
pub open spec fn artifact_below(
    tree: Map<Seq<char>, Seq<ArtifactEntry>>,
    d: Seq<char>,
    extension: Seq<char>,
    depth: nat,
) -> bool
    decreases depth,
{
    tree.dom().contains(d) && ((exists|i: int| 0 <= i < tree[d].len() && #[trigger] is_artifact(tree[d][i], extension))
        || (depth > 0 && exists|i: int|
        0 <= i < tree[d].len() && #[trigger] tree[d][i].is_dir && artifact_below(
            tree,
            tree[d][i].path@,
            extension,
            (depth - 1) as nat,
        )))
}

/// Whether an artifact lies somewhere under directory `d` of the tree.
pub open spec fn artifact_under(tree: Map<Seq<char>, Seq<ArtifactEntry>>, d: Seq<char>, extension: Seq<char>) -> bool {
    exists|depth: nat| artifact_below(tree, d, extension, depth)
}

/// Whether an artifact lies under one of the pending directories.
pub open spec fn artifact_pending(
    tree: Map<Seq<char>, Seq<ArtifactEntry>>,
    pending: Seq<String>,
    extension: Seq<char>,
) -> bool {
    exists|k: int| 0 <= k < pending.len() && artifact_under(tree, #[trigger] pending[k]@, extension)
}

proof fn lemma_dirs_of_contains(es: Seq<ArtifactEntry>, i: int)
    requires
        0 <= i < es.len(),
        es[i].is_dir,
    ensures
        dirs_of(es).contains(es[i].path),
    decreases es.len(),
{
    if i < es.len() - 1 {
        lemma_dirs_of_contains(es.drop_last(), i);
        assert(es.drop_last()[i] == es[i]);
        if es.last().is_dir {
            let d = dirs_of(es.drop_last());
            let k = choose|k: int| 0 <= k < d.len() && d[k] == es[i].path;
            assert(d.push(es.last().path)[k] == es[i].path);
        }
    } else {
        assert(dirs_of(es)[dirs_of(es).len() - 1] == es[i].path);
    }
}

/// A step of the search keeps every artifact within reach: when the last
/// pending directory is read with its entries as the tree gives them and no
/// artifact is among them, any artifact that lay under a pending directory
/// still lies under one. So a search that runs out of directories without a
/// result has found every artifact under the root absent.
pub proof fn lemma_search_step_keeps_artifacts(
    tree: Map<Seq<char>, Seq<ArtifactEntry>>,
    before: Seq<String>,
    entries: Seq<ArtifactEntry>,
    after: Seq<String>,
    extension: Seq<char>,
)
    requires
        before.len() > 0,
        tree.dom().contains(before.last()@) ==> tree[before.last()@] == entries,
        forall|j: int| 0 <= j < entries.len() ==> !is_artifact(#[trigger] entries[j], extension),
        after == before.drop_last() + dirs_of(entries),
        artifact_pending(tree, before, extension),
    ensures
        artifact_pending(tree, after, extension),
{
    let k = choose|k: int| 0 <= k < before.len() && artifact_under(tree, #[trigger] before[k]@, extension);
    let depth = choose|depth: nat| artifact_below(tree, before[k]@, extension, depth);
    if k < before.len() - 1 {
        assert(after[k] == before[k]);
        assert(artifact_under(tree, after[k]@, extension));
    } else {
        let d = before[k]@;
        assert(tree.dom().contains(d));
        assert(tree[d] == entries);
        if exists|i: int| 0 <= i < tree[d].len() && #[trigger] is_artifact(tree[d][i], extension) {
            let i = choose|i: int| 0 <= i < tree[d].len() && #[trigger] is_artifact(tree[d][i], extension);
            assert(!is_artifact(entries[i], extension));
        } else {
            let i = choose|i: int|
                0 <= i < tree[d].len() && #[trigger] tree[d][i].is_dir && artifact_below(
                    tree,
                    tree[d][i].path@,
                    extension,
                    (depth - 1) as nat,
                );
            lemma_dirs_of_contains(entries, i);
            let m = choose|m: int| 0 <= m < dirs_of(entries).len() && dirs_of(entries)[m] == entries[i].path;
            let a = before.len() - 1 + m;
            assert(after[a] == entries[i].path);
            assert(artifact_under(tree, after[a]@, extension));
        }
    }
}

/// A search with no directory left holds no artifact within reach.
pub proof fn lemma_search_exhausted(tree: Map<Seq<char>, Seq<ArtifactEntry>>, pending: Seq<String>, extension: Seq<char>)
    requires
        pending.len() == 0,
    ensures
        !artifact_pending(tree, pending, extension),
{
}

/// A real `package` run ends by looking for the artifact that its hvigor
/// task assembles: for `.hap` the task is `assembleHap` and the files sought
/// end in `hap`, for `.app` it is `assembleApp` and `app`. The label reported
/// is the extension after a dot, and the task is `assemble` followed by the
/// extension with its first letter in upper case.
pub proof fn lemma_package_seeks_assembled_artifact(
    steps: Seq<Step>,
    command: PackageCommand,
    app: AppContext,
    plan: BuildPlan,
    install: CommandSpec,
    fallback: CommandSpec,
    hvigor: CommandSpec,
)
    requires
        is_package_run(steps, command, app, plan, install, fallback, hvigor),
        !command.common.dry_run,
    ensures
        steps.last() is ReportArtifact,
        steps.last()->ReportArtifact_root@ == app.config.output_dir@,
        steps.last()->ReportArtifact_label@ == seq!['.'] + steps.last()->ReportArtifact_extension@,
        arg_views(hvigor.args@)[1] == "assemble"@ + seq![crate::text::upper_char(steps.last()->ReportArtifact_extension@[0])]
            + steps.last()->ReportArtifact_extension@.skip(1),
        command.artifact is Hap ==> steps.last()->ReportArtifact_extension@ == "hap"@,
        command.artifact is App ==> steps.last()->ReportArtifact_extension@ == "app"@,
{
    reveal_strlit("hap");
    reveal_strlit("app");
    reveal_strlit(".hap");
    reveal_strlit(".app");
    reveal_strlit("assemble");
    reveal_strlit("assembleHap");
    reveal_strlit("assembleApp");
    let ext = steps.last()->ReportArtifact_extension@;
    assert(arg_views(hvigor.args@)[1] == spec_hvigor_task(command.artifact));
    assert(crate::text::upper_char('h') == 'H');
    assert(crate::text::upper_char('a') == 'A');
    match command.artifact {
        PackageArtifact::Hap => {
            assert(ext.skip(1) =~= seq!['a', 'p']);
            assert("assemble"@ + seq![crate::text::upper_char(ext[0])] + ext.skip(1) =~= "assembleHap"@);
            assert(seq!['.'] + ext =~= ".hap"@);
        },
        PackageArtifact::App => {
            assert(ext.skip(1) =~= seq!['p', 'p']);
            assert("assemble"@ + seq![crate::text::upper_char(ext[0])] + ext.skip(1) =~= "assembleApp"@);
            assert(seq!['.'] + ext =~= ".app"@);
        },
    }
}

} // verus!
