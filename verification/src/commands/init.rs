//! `init`: generate the OHOS shell project.
use vstd::prelude::*;
use crate::cli::InitCommand;
use crate::commands::workflow::{all_prints, printed, Awaiting, Step, Workflow};
use crate::config::{opt_view, or_default, AppContext};
use crate::template::template_context;
use crate::text::concat3;
use vstd::string::StringExecFns;

verus! {

pub open spec fn init_dry_run_line(app: AppContext) -> Seq<char> {
    "[dry-run] would generate OHOS shell at "@ + app.config.output_dir@ + " for bundle "@ + app.config.bundle_name@
}

/// The report after the shell project is written: where, and with which SDK
/// (the configured version, else the one found).
pub open spec fn init_report(app: AppContext) -> Seq<char> {
    "Generated OHOS shell at "@ + app.config.output_dir@ + " using SDK "@ + app.config.sdk_root@ + " ("@
        + or_default(opt_view(app.config.sdk_version), app.sdk.version@) + ")"@
}

/// The run of `init` for the context: the dry-run report, or writing the
/// shell project and reporting it.
pub fn run(command: &InitCommand, app: &AppContext) -> (res: Workflow)
    ensures
        res.awaiting == Awaiting::Done,
        command.common.dry_run ==> all_prints(res.remaining@) && printed(res.remaining@) == seq![init_dry_run_line(*app)],
        !command.common.dry_run ==> res.remaining@.len() == 2 && res.remaining@[0] == Step::WriteShell && (res.remaining@[1] matches Step::Print(l)
            && l@ == init_report(*app)),
{
    let context = template_context(app);
    if command.common.dry_run {
        let mut line = concat3("[dry-run] would generate OHOS shell at ", app.config.output_dir.as_str(), " for bundle ");
        line.append(context.bundle_name.as_str());
        let steps = vec![Step::Print(line)];
        assert(printed(steps@) =~= seq![init_dry_run_line(*app)]);
        return Workflow::new(steps);
    }
    let mut line = concat3("Generated OHOS shell at ", app.config.output_dir.as_str(), " using SDK ");
    line.append(app.config.sdk_root.as_str());
    line.append(" (");
    match &app.config.sdk_version {
        Some(v) => line.append(v.as_str()),
        None => line.append(app.sdk.version.as_str()),
    }
    line.append(")");
    Workflow::new(vec![Step::WriteShell, Step::Print(line)])
}

} // verus!
