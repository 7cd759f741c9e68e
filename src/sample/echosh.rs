//! An executor that echoes each command back, and collects lines of input for
//! `cat`.

use vstd::prelude::*;

use crate::command::{
    CommandInput, CommandOutput, Execute, InputView, New, OutputAction, Prepare, PrepareView,
};

verus! {

/// The echo executor.
pub struct Executor {}

/// The echo executor keeps no state.
pub struct Context {}

/// The output that echoing `input` leaves: the command as its only output
/// line, and the input lines it was given.
pub open spec fn echo(input: InputView) -> crate::command::OutputView {
    crate::command::OutputView {
        prompt: input.prompt,
        command: input.command,
        stdin: match input.stdin {
            Some(lines) => lines,
            None => Seq::empty(),
        },
        stdout: seq![input.command],
        stderr: Seq::empty(),
    }
}

impl New for Executor {
    open spec fn new_spec(r: Result<(Self, Self::Context), anyhow::Error>) -> bool {
        r == Ok::<(Executor, Context), anyhow::Error>((Executor {}, Context {}))
    }

    fn new() -> (r: Result<(Self, Self::Context), anyhow::Error>) {
        Ok((Executor {}, Context {}))
    }
}

impl Execute for Executor {
    type Context = Context;

    open spec fn prompt_spec(&self, ctx: &Context) -> Seq<char> {
        seq!['$']
    }

    open spec fn prepare_spec(&self, cmd: Seq<char>) -> PrepareView {
        PrepareView { command: cmd, stdin_required: cmd == seq!['c', 'a', 't'] }
    }

    open spec fn execute_spec(
        &self,
        before: Context,
        input: CommandInput,
        after: Context,
        outcome: Result<OutputAction, anyhow::Error>,
    ) -> bool {
        match outcome {
            Ok(OutputAction::Command(output)) => output@ == echo(input@),
            _ => false,
        }
    }

    fn prompt(&self, ctx: &Context) -> (r: String) {
        let r = crate::text::char_string('$');
        r
    }

    fn prepare(&self, cmd: &str) -> (r: Prepare) {
        let stdin_required = is_cat(cmd);
        Prepare { command: String::from_str(cmd), stdin_required }
    }

    fn execute(&self, ctx: &mut Context, cmd: CommandInput) -> (r: Result<
        OutputAction,
        anyhow::Error,
    >) {
        let CommandInput { prompt, command, stdin, runtime: _ } = cmd;
        let stdin = match stdin {
            Some(lines) => lines,
            None => Vec::new(),
        };
        let stdout = vec![command.clone()];
        let output = CommandOutput { prompt, command, stdin, stdout, stderr: Vec::new() };
        proof {
            assert(output.stdout.deep_view() =~= seq![cmd.command@]);
            assert(output.stderr.deep_view() =~= Seq::<Seq<char>>::empty());
        }
        Ok(OutputAction::Command(output))
    }
}

/// Whether `cmd` is exactly `cat`.
fn is_cat(cmd: &str) -> (r: bool)
    ensures
        r == (cmd@ == seq!['c', 'a', 't']),
{
    let cat = "cat";
    proof {
        reveal_strlit("cat");
    }
    let n = crate::text::char_len(cmd);
    if n != 3 {
        return false;
    }
    let mut i: usize = 0;
    while i < 3
        invariant
            i <= 3,
            n == 3,
            cmd@.len() == 3,
            cat@ == seq!['c', 'a', 't'],
            forall|j: int| 0 <= j < i ==> cmd@[j] == cat@[j],
        decreases 3 - i,
    {
        if cmd.get_char(i) != cat.get_char(i) {
            return false;
        }
        i = i + 1;
    }
    assert(cmd@ =~= seq!['c', 'a', 't']);
    true
}

} // verus!
