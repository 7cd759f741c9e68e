//! The contract that a pluggable command executor fulfils, and the values
//! that cross it.
//!
//! A shell asks its executor for a prompt, for completions of a partial
//! command, whether a command needs lines of input before it runs
//! ([`Execute::prepare`]), and finally to run it ([`Execute::execute`]).

use vstd::prelude::*;

pub mod echosh;

verus! {

/// Declares tokio's `Runtime`, the task host handed to every execution. The
/// engine only carries it, shared, to the executor.
#[verifier::external_type_specification]
#[verifier::external_body]
pub struct ExRuntime(tokio::runtime::Runtime);

/// Declares anyhow's `Error`, the failure an executor reports. The engine only
/// passes it on.
#[verifier::external_type_specification]
#[verifier::external_body]
pub struct ExError(anyhow::Error);

/// What a finished command leaves in the history.
pub struct CommandOutput {
    /// The prompt that was displayed.
    pub prompt: String,
    /// The command that was executed.
    pub command: String,
    /// The lines of input supplied to the command.
    pub stdin: Vec<String>,
    /// The output of the command.
    pub stdout: Vec<String>,
    /// The error output of the command.
    pub stderr: Vec<String>,
}

/// The text of a [`CommandOutput`].
pub struct OutputView {
    pub prompt: Seq<char>,
    pub command: Seq<char>,
    pub stdin: Seq<Seq<char>>,
    pub stdout: Seq<Seq<char>>,
    pub stderr: Seq<Seq<char>>,
}

impl View for CommandOutput {
    type V = OutputView;

    open spec fn view(&self) -> OutputView {
        OutputView {
            prompt: self.prompt@,
            command: self.command@,
            stdin: self.stdin.deep_view(),
            stdout: self.stdout.deep_view(),
            stderr: self.stderr.deep_view(),
        }
    }
}

/// What the shell does once a command has been executed.
pub enum OutputAction {
    /// Keep the output in the history.
    Command(CommandOutput),
    /// End the session.
    Exit,
    /// Clear the history and the screen.
    Clear,
}

/// What an executor receives when a command is submitted.
pub struct CommandInput {
    /// The prompt that was displayed.
    pub prompt: String,
    /// The command that the user submitted.
    pub command: String,
    /// The lines of input collected for the command, if it asked for any.
    pub stdin: Option<Vec<String>>,
    /// The shared task host, for executors that run asynchronous work.
    pub runtime: std::sync::Arc<tokio::runtime::Runtime>,
}

/// The text of lines that may be absent.
pub open spec fn lines_of(lines: Option<Vec<String>>) -> Option<Seq<Seq<char>>> {
    match lines {
        Some(lines) => Some(lines.deep_view()),
        None => None,
    }
}

/// The text of a [`CommandInput`].
pub struct InputView {
    pub prompt: Seq<char>,
    pub command: Seq<char>,
    pub stdin: Option<Seq<Seq<char>>>,
}

impl View for CommandInput {
    type V = InputView;

    open spec fn view(&self) -> InputView {
        InputView {
            prompt: self.prompt@,
            command: self.command@,
            stdin: lines_of(self.stdin),
        }
    }
}

/// The decision taken on a command before it runs.
#[derive(Debug, Clone)]
pub struct Prepare {
    /// The command that is to be executed.
    pub command: String,
    /// Whether lines of input are collected before the command runs.
    pub stdin_required: bool,
}

/// The content of a [`Prepare`].
pub struct PrepareView {
    pub command: Seq<char>,
    pub stdin_required: bool,
}

impl View for Prepare {
    type V = PrepareView;

    open spec fn view(&self) -> PrepareView {
        PrepareView { command: self.command@, stdin_required: self.stdin_required }
    }
}

/// A pluggable unit of shell logic.
///
/// The context is read only in `prompt`, `completion` and `prepare`; only
/// `execute` may change it.
pub trait Execute {
    /// The state that the executor keeps between commands.
    type Context;

    // The spec functions below state what an implementation does; the
    // engine's contracts speak of them. An implementation verified against
    // this contract defines those it needs. The defaults of `prompt_spec`
    // and `prepare_spec` are unspecified functions of their arguments: they
    // say only that prompt and prepare are deterministic. The default of
    // `execute_spec` says nothing.

    /// The prompt shown while the executor is in context `ctx`.
    open spec fn prompt_spec(&self, ctx: &Self::Context) -> Seq<char> {
        arbitrary::<spec_fn(&Self, &Self::Context) -> Seq<char>>()(self, ctx)
    }

    /// The decision `prepare` takes on the command text `cmd`.
    open spec fn prepare_spec(&self, cmd: Seq<char>) -> PrepareView {
        arbitrary::<spec_fn(&Self, Seq<char>) -> PrepareView>()(self, cmd)
    }

    /// Whether running `input` from context `before` may leave context `after`
    /// and yield `outcome`.
    open spec fn execute_spec(
        &self,
        before: Self::Context,
        input: CommandInput,
        after: Self::Context,
        outcome: Result<OutputAction, anyhow::Error>,
    ) -> bool {
        true
    }

    /// Whether `completion` is the executor's own; if not, it is the default,
    /// which offers nothing.
    open spec fn custom_completion(&self) -> bool {
        false
    }

    /// The prompt to display.
    fn prompt(&self, ctx: &Self::Context) -> (r: String)
        ensures
            r@ == self.prompt_spec(ctx),
    ;

    /// Completions of a partial command: a suffix that is appended to it at
    /// once, and candidate suffixes that are offered.
    fn completion(&self, ctx: &Self::Context, incomplete_command: &str) -> (r: Result<
        (String, Vec<String>),
        anyhow::Error,
    >)
        ensures
            !self.custom_completion() ==> r is Ok && r->Ok_0.0@.len() == 0 && r->Ok_0.1.len()
                == 0,
    {
        Ok((String::new(), Vec::new()))
    }

    /// Decides whether `cmd` needs lines of input before it runs.
    fn prepare(&self, cmd: &str) -> (r: Prepare)
        ensures
            r@ == self.prepare_spec(cmd@),
    ;

    /// Runs a command.
    fn execute(&self, ctx: &mut Self::Context, cmd: CommandInput) -> (r: Result<
        OutputAction,
        anyhow::Error,
    >)
        ensures
            self.execute_spec(*old(ctx), cmd, *final(ctx), r),
    ;
}

/// Executors that can build themselves and their initial context.
pub trait New: Execute {
    /// Whether `r` is a result that `new` may return. The default says
    /// nothing.
    open spec fn new_spec(r: Result<(Self, Self::Context), anyhow::Error>) -> bool where
        Self: Sized,
     {
        true
    }

    /// A fresh executor and its initial context.
    fn new() -> (r: Result<(Self, Self::Context), anyhow::Error>) where Self: Sized
        ensures
            Self::new_spec(r),
    ;
}

} // verus!
