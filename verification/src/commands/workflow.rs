//! Running a command is a sequence of steps: printing, writing the shell
//! project, running tools and moving files. The `Workflow` state machine
//! decides, from the outcome of each action, what is done next; the program
//! performs the actions and reports their outcomes.
use vstd::prelude::*;
use crate::error::OhosAppError;
use crate::runner::CommandSpec;
use crate::text::{concat3, owned};
use vstd::string::StringExecFns;

verus! {

/// One step of a command.
#[derive(Debug)]
pub enum Step {
    /// Print a line.
    Print(String),
    /// Write the OHOS shell project.
    WriteShell,
    /// Run a command; its failure ends the run.
    Run(CommandSpec),
    /// Run the first command; should it fail, run the second one instead,
    /// whose failure ends the run.
    RunWithFallback(CommandSpec, CommandSpec),
    /// Fail with `MissingFile` unless something is on disk at the path.
    RequireFile(String),
    /// Remove the file at the path if there is one.
    RemoveIfPresent(String),
    /// Create the directory that will hold the path, with its parents.
    CreateParentDir(String),
    /// Copy a file.
    Copy(String, String),
    /// Look for a file with the extension under the root, then report it
    /// under the label; fail with `PackageArtifactNotFound` if there is none.
    ReportArtifact { root: String, extension: String, label: String },
}

/// What the program is asked to do next.
#[derive(Debug)]
pub enum Action {
    Print(String),
    WriteShell,
    Run(CommandSpec),
    /// Report with `Outcome::Exists` whether something is on disk there.
    CheckExists(String),
    RemoveFile(String),
    CreateParentDir(String),
    Copy(String, String),
    /// Report with `Outcome::Found` the first file with the extension found
    /// under the root.
    FindArtifact { root: String, extension: String },
    /// The command has succeeded.
    Finish,
    /// The command has failed with this error.
    Fail(OhosAppError),
}

/// What came of the last action.
#[derive(Debug)]
pub enum Outcome {
    Done,
    Failed(OhosAppError),
    Exists(bool),
    Found(Option<String>),
}

/// What the machine waits for.
#[derive(Debug)]
pub enum Awaiting {
    /// The last action to complete.
    Done,
    /// The first command of a fallback pair; the second one is held here.
    Primary(CommandSpec),
    /// Whether a required file exists.
    Required(String),
    /// Whether a file to remove exists.
    Probe(String),
    /// The artifact search under the root, reported under the label.
    Artifact { root: String, label: String },
    /// Nothing: the run is over.
    Over,
}

pub struct Workflow {
    pub remaining: Vec<Step>,
    pub awaiting: Awaiting,
}

/// The first action of a step, and what the machine then waits for.
pub open spec fn begins(step: Step, action: Action, awaiting: Awaiting) -> bool {
    match step {
        Step::Print(line) => action == Action::Print(line) && awaiting == Awaiting::Done,
        Step::WriteShell => action == Action::WriteShell && awaiting == Awaiting::Done,
        Step::Run(c) => action == Action::Run(c) && awaiting == Awaiting::Done,
        Step::RunWithFallback(p, f) => action == Action::Run(p) && awaiting == Awaiting::Primary(f),
        Step::RequireFile(p) => action == Action::CheckExists(p) && awaiting == Awaiting::Required(p),
        Step::RemoveIfPresent(p) => action == Action::CheckExists(p) && awaiting == Awaiting::Probe(p),
        Step::CreateParentDir(p) => action == Action::CreateParentDir(p) && awaiting == Awaiting::Done,
        Step::Copy(a, b) => action == Action::Copy(a, b) && awaiting == Awaiting::Done,
        Step::ReportArtifact { root, extension, label } => action == Action::FindArtifact {
            root,
            extension,
        } && awaiting == Awaiting::Artifact { root, label },
    }
}

/// Moving on to the next step: `Finish` when none is left, else its first
/// action.
pub open spec fn advances(before: Seq<Step>, after: Workflow, action: Action) -> bool {
    if before.len() == 0 {
        action == Action::Finish && after.awaiting == Awaiting::Over && after.remaining@.len() == 0
    } else {
        after.remaining@ == before.drop_first() && begins(before[0], action, after.awaiting)
    }
}

/// Ending the run with an action.
pub open spec fn stops(after: Workflow, action: Action, remaining: Seq<Step>) -> bool {
    after.awaiting == Awaiting::Over && after.remaining@ == remaining && action is Fail
}

/// The report of a found artifact.
pub open spec fn artifact_report(label: Seq<char>, path: Seq<char>) -> Seq<char> {
    "Packaged OHOS "@ + label + " at "@ + path
}

pub open spec fn unexpected_outcome_message() -> Seq<char> {
    "unexpected outcome of a step"@
}

/// One move of the machine on the outcome of the last action.
pub open spec fn transition(before: Workflow, outcome: Outcome, after: Workflow, action: Action) -> bool {
    let rest = before.remaining@;
    match before.awaiting {
        Awaiting::Over => action == Action::Finish && after.awaiting == Awaiting::Over && after.remaining@ == rest,
        Awaiting::Primary(fallback) => match outcome {
            Outcome::Done => advances(rest, after, action),
            Outcome::Failed(_) => action == Action::Run(fallback) && after.awaiting == Awaiting::Done
                && after.remaining@ == rest,
            _ => stops(after, action, rest) && (action matches Action::Fail(OhosAppError::Message(m))
                && m@ == unexpected_outcome_message()),
        },
        _ => match outcome {
            Outcome::Failed(e) => stops(after, action, rest) && action == Action::Fail(e),
            _ => match before.awaiting {
                Awaiting::Done => if outcome is Done {
                    advances(rest, after, action)
                } else {
                    stops(after, action, rest) && (action matches Action::Fail(OhosAppError::Message(m))
                        && m@ == unexpected_outcome_message())
                },
                Awaiting::Required(p) => match outcome {
                    Outcome::Exists(true) => advances(rest, after, action),
                    Outcome::Exists(false) => stops(after, action, rest) && (action matches Action::Fail(
                        OhosAppError::MissingFile { path },
                    ) && path == p),
                    _ => stops(after, action, rest) && (action matches Action::Fail(OhosAppError::Message(m))
                        && m@ == unexpected_outcome_message()),
                },
                Awaiting::Probe(p) => match outcome {
                    Outcome::Exists(true) => action == Action::RemoveFile(p) && after.awaiting == Awaiting::Done
                        && after.remaining@ == rest,
                    Outcome::Exists(false) => advances(rest, after, action),
                    _ => stops(after, action, rest) && (action matches Action::Fail(OhosAppError::Message(m))
                        && m@ == unexpected_outcome_message()),
                },
                Awaiting::Artifact { root, label } => match outcome {
                    Outcome::Found(Some(path)) => (action matches Action::Print(line) && line@
                        == artifact_report(label@, path@)) && after.awaiting == Awaiting::Done
                        && after.remaining@ == rest,
                    Outcome::Found(None) => stops(after, action, rest) && (action matches Action::Fail(
                        OhosAppError::PackageArtifactNotFound { search_root },
                    ) && search_root == root),
                    _ => stops(after, action, rest) && (action matches Action::Fail(OhosAppError::Message(m))
                        && m@ == unexpected_outcome_message()),
                },
                _ => false,
            },
        },
    }
}

impl Workflow {
    /// A run of the steps, in order; nothing has been done yet.
    pub fn new(steps: Vec<Step>) -> (res: Workflow)
        ensures
            res.remaining@ == steps@,
            res.awaiting == Awaiting::Done,
    {
        Workflow { remaining: steps, awaiting: Awaiting::Done }
    }

    /// The first action of the run.
    pub fn begin(&mut self) -> (action: Action)
        ensures
            advances(old(self).remaining@, *final(self), action),
    {
        self.advance()
    }

    fn advance(&mut self) -> (action: Action)
        ensures
            advances(old(self).remaining@, *final(self), action),
    {
        if self.remaining.len() == 0 {
            self.awaiting = Awaiting::Over;
            return Action::Finish;
        }
        let step = self.remaining.remove(0);
        assert(old(self).remaining@.remove(0) =~= old(self).remaining@.drop_first());
        match step {
            Step::Print(line) => {
                self.awaiting = Awaiting::Done;
                Action::Print(line)
            },
            Step::WriteShell => {
                self.awaiting = Awaiting::Done;
                Action::WriteShell
            },
            Step::Run(c) => {
                self.awaiting = Awaiting::Done;
                Action::Run(c)
            },
            Step::RunWithFallback(p, f) => {
                self.awaiting = Awaiting::Primary(f);
                Action::Run(p)
            },
            Step::RequireFile(p) => {
                self.awaiting = Awaiting::Required(p.clone());
                Action::CheckExists(p)
            },
            Step::RemoveIfPresent(p) => {
                self.awaiting = Awaiting::Probe(p.clone());
                Action::CheckExists(p)
            },
            Step::CreateParentDir(p) => {
                self.awaiting = Awaiting::Done;
                Action::CreateParentDir(p)
            },
            Step::Copy(a, b) => {
                self.awaiting = Awaiting::Done;
                Action::Copy(a, b)
            },
            Step::ReportArtifact { root, extension, label } => {
                self.awaiting = Awaiting::Artifact { root: root.clone(), label };
                Action::FindArtifact { root, extension }
            },
        }
    }

    fn stop(&mut self, error: OhosAppError) -> (action: Action)
        ensures
            final(self).awaiting == Awaiting::Over,
            final(self).remaining@ == old(self).remaining@,
            action == Action::Fail(error),
    {
        self.awaiting = Awaiting::Over;
        Action::Fail(error)
    }

    /// The next action, given what came of the last one.
    pub fn next(&mut self, outcome: Outcome) -> (action: Action)
        ensures
            transition(*old(self), outcome, *final(self), action),
    {
        let mut awaiting = Awaiting::Over;
        std::mem::swap(&mut awaiting, &mut self.awaiting);
        match awaiting {
            Awaiting::Over => Action::Finish,
            Awaiting::Primary(fallback) => match outcome {
                Outcome::Done => self.advance(),
                Outcome::Failed(_) => {
                    self.awaiting = Awaiting::Done;
                    Action::Run(fallback)
                },
                _ => self.stop(OhosAppError::Message(owned("unexpected outcome of a step"))),
            },
            Awaiting::Done => match outcome {
                Outcome::Done => self.advance(),
                Outcome::Failed(e) => self.stop(e),
                _ => self.stop(OhosAppError::Message(owned("unexpected outcome of a step"))),
            },
            Awaiting::Required(p) => match outcome {
                Outcome::Exists(true) => self.advance(),
                Outcome::Exists(false) => self.stop(OhosAppError::MissingFile { path: p }),
                Outcome::Failed(e) => self.stop(e),
                _ => self.stop(OhosAppError::Message(owned("unexpected outcome of a step"))),
            },
            Awaiting::Probe(p) => match outcome {
                Outcome::Exists(true) => {
                    self.awaiting = Awaiting::Done;
                    Action::RemoveFile(p)
                },
                Outcome::Exists(false) => self.advance(),
                Outcome::Failed(e) => self.stop(e),
                _ => self.stop(OhosAppError::Message(owned("unexpected outcome of a step"))),
            },
            Awaiting::Artifact { root, label } => match outcome {
                Outcome::Found(Some(path)) => {
                    self.awaiting = Awaiting::Done;
                    let mut line = concat3("Packaged OHOS ", label.as_str(), " at ");
                    line.append(path.as_str());
                    Action::Print(line)
                },
                Outcome::Found(None) => self.stop(OhosAppError::PackageArtifactNotFound { search_root: root }),
                Outcome::Failed(e) => self.stop(e),
                _ => self.stop(OhosAppError::Message(owned("unexpected outcome of a step"))),
            },
        }
    }
}

/// The lines that a run of print steps prints.
pub open spec fn printed(steps: Seq<Step>) -> Seq<Seq<char>> {
    steps.map_values(|s: Step| match s {
        Step::Print(l) => l@,
        _ => Seq::empty(),
    })
}

/// Whether every step only prints.
pub open spec fn all_prints(steps: Seq<Step>) -> bool {
    forall|i: int| 0 <= i < steps.len() ==> #[trigger] steps[i] is Print
}

/// A run that has only printing left.
pub open spec fn print_only(wf: Workflow) -> bool {
    all_prints(wf.remaining@) && (wf.awaiting is Done || wf.awaiting is Over)
}

/// A run made only of print steps, such as a dry run, asks for nothing but
/// printing until it finishes: it runs no command and touches no file.
pub proof fn lemma_print_only_run(before: Workflow, outcome: Outcome, after: Workflow, action: Action)
    requires
        print_only(before),
        outcome is Done,
        transition(before, outcome, after, action),
    ensures
        action is Print || action is Finish,
        print_only(after),
{
    let rest = before.remaining@;
    if before.awaiting is Done && rest.len() > 0 {
        assert(rest[0] is Print);
        assert forall|i: int| 0 <= i < after.remaining@.len() implies #[trigger] after.remaining@[i] is Print by {
            assert(after.remaining@[i] == rest[i + 1]);
        }
    }
}

/// The first action of a run made only of print steps prints or finishes.
pub proof fn lemma_print_only_begin(steps: Seq<Step>, after: Workflow, action: Action)
    requires
        all_prints(steps),
        advances(steps, after, action),
    ensures
        action is Print || action is Finish,
        print_only(after),
{
    if steps.len() > 0 {
        assert(steps[0] is Print);
        assert forall|i: int| 0 <= i < after.remaining@.len() implies #[trigger] after.remaining@[i] is Print by {
            assert(after.remaining@[i] == steps[i + 1]);
        }
    }
}

} // verus!
