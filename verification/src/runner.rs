//! External commands: what to run, where and with which environment, and how
//! a command is shown in the dry-run output.
use vstd::prelude::*;
use crate::error::{AppResult, OhosAppError};
use crate::text::{has_char, push_char};
use vstd::string::StringExecFns;

verus! {

/// A command to run. `env` holds the variables to set, each name once.
#[derive(Debug, Clone)]
pub struct CommandSpec {
    pub program: String,
    pub args: Vec<String>,
    pub cwd: String,
    pub env: Vec<(String, String)>,
}

/// Runs commands. Implemented for the operating system by the program, and
/// by tests that record what would have been run.
pub trait CommandRunner {
    fn run(&mut self, spec: &CommandSpec) -> AppResult<()>;
}

/// An argument as shown: in double quotes when it holds a space.
pub open spec fn shown_arg(a: Seq<char>) -> Seq<char> {
    if a.contains(' ') {
        seq!['"'] + a + seq!['"']
    } else {
        a
    }
}

/// The parts one after the other, a space between each two.
pub open spec fn space_joined(parts: Seq<Seq<char>>) -> Seq<char>
    decreases parts.len(),
{
    if parts.len() == 0 {
        Seq::empty()
    } else if parts.len() == 1 {
        parts[0]
    } else {
        space_joined(parts.drop_last()) + seq![' '] + parts.last()
    }
}

pub open spec fn arg_views(args: Seq<String>) -> Seq<Seq<char>> {
    args.map_values(|a: String| a@)
}

/// How a command line is shown: the program, then, if the shown arguments
/// are not empty, a space and the arguments.
pub open spec fn shown_command(program: Seq<char>, args: Seq<Seq<char>>) -> Seq<char> {
    let rendered = space_joined(args.map_values(|a: Seq<char>| shown_arg(a)));
    if rendered.len() == 0 {
        program
    } else {
        program + seq![' '] + rendered
    }
}

impl CommandSpec {
    pub fn display(&self) -> (res: String)
        ensures
            res@ == shown_command(self.program@, arg_views(self.args@)),
    {
        let ghost shown = arg_views(self.args@).map_values(|a: Seq<char>| shown_arg(a));
        let n = self.args.len();
        let mut rendered = String::new();
        let mut i: usize = 0;
        while i < n
            invariant
                n == self.args@.len(),
                i <= n,
                shown == arg_views(self.args@).map_values(|a: Seq<char>| shown_arg(a)),
                rendered@ == space_joined(shown.take(i as int)),
            decreases n - i,
        {
            let arg = &self.args[i];
            if i > 0 {
                push_char(&mut rendered, ' ');
            }
            if has_char(arg.as_str(), ' ') {
                push_char(&mut rendered, '"');
                rendered.append(arg.as_str());
                push_char(&mut rendered, '"');
            } else {
                rendered.append(arg.as_str());
            }
            proof {
                assert(shown[i as int] == shown_arg(self.args@[i as int]@));
                assert(shown.take(i + 1).drop_last() =~= shown.take(i as int));
                if i == 0 {
                    assert(space_joined(shown.take(0)) =~= Seq::<char>::empty());
                }
            }
            i = i + 1;
        }
        assert(shown.take(n as int) =~= shown);
        let mut res = self.program.clone();
        if !rendered.as_str().is_empty() {
            push_char(&mut res, ' ');
            res.append(rendered.as_str());
        }
        res
    }
}

/// What came of a command that ran: success, or `CommandFailed` with the
/// program, the directory and the exit code (none when a signal ended it).
pub fn command_outcome(spec: &CommandSpec, success: bool, code: Option<i32>) -> (res: AppResult<()>)
    ensures
        success ==> res is Ok,
        !success ==> res == Err::<(), OhosAppError>(
            OhosAppError::CommandFailed { program: spec.program, cwd: spec.cwd, code },
        ),
{
    if success {
        Ok(())
    } else {
        Err(OhosAppError::CommandFailed { program: spec.program.clone(), cwd: spec.cwd.clone(), code })
    }
}

} // verus!
