//! The shell engine: the input state machine driven by key events, the
//! history of finished commands, and the calls into the executor.
//!
//! The engine never touches the terminal. A driving loop renders
//! [`App::render`], reads a key, hands it to [`App::input`] and acts on the
//! returned [`Next`].

use vstd::prelude::*;

use crate::command::{
    lines_of, CommandInput, CommandOutput, Execute, InputView, New, OutputAction, OutputView,
    Prepare, PrepareView,
};
use crate::display::{
    command_line, history_lines, push_history, push_styled, push_suggestions, render_command,
    render_typing, styled_lines, suggestion_lines, typing_line, Line, SpanView, Style,
};
use crate::keys::{action_of, Action, KeyEvent};
use crate::text::{char_len, char_string, insert_char, remove_char, skip_chars};

verus! {

/// The state of the input line.
pub enum State {
    /// The user is typing a command: its text, the cursor position (in
    /// characters) and the completion candidates on offer.
    Idle(String, usize, Option<Vec<String>>),
    /// A command collects lines of input before it runs.
    Running(Prepare, Vec<String>),
}

/// The content of a [`State`].
pub enum StateView {
    Idle { buffer: Seq<char>, cursor: nat, completions: Option<Seq<Seq<char>>> },
    Running { prepare: PrepareView, lines: Seq<Seq<char>> },
}

impl View for State {
    type V = StateView;

    open spec fn view(&self) -> StateView {
        match self {
            State::Idle(buffer, cursor, completions) => StateView::Idle {
                buffer: buffer@,
                cursor: *cursor as nat,
                completions: lines_of(*completions),
            },
            State::Running(prepare, lines) => StateView::Running {
                prepare: prepare@,
                lines: lines.deep_view(),
            },
        }
    }
}

/// What the driving loop does after a key has been handled.
#[derive(Debug, Default)]
pub enum Next {
    /// Go on reading keys.
    #[default]
    Continue,
    /// End the session with a message.
    Exit(String),
    /// Clear the screen, then go on.
    Clear,
}

/// The content of a [`Next`].
pub enum NextView {
    Continue,
    Exit(Seq<char>),
    Clear,
}

impl View for Next {
    type V = NextView;

    open spec fn view(&self) -> NextView {
        match self {
            Next::Continue => NextView::Continue,
            Next::Exit(message) => NextView::Exit(message@),
            Next::Clear => NextView::Clear,
        }
    }
}

/// The observable content of a session: the input state and the history.
pub struct AppView {
    pub state: StateView,
    pub history: Seq<OutputView>,
}

/// The state a session starts in, and returns to after each command.
pub open spec fn initial_state() -> StateView {
    StateView::Idle { buffer: Seq::empty(), cursor: 0, completions: None }
}

/// While typing, the cursor stays within the command text.
pub open spec fn cursor_in_bounds(s: StateView) -> bool {
    match s {
        StateView::Idle { buffer, cursor, .. } => cursor <= buffer.len(),
        StateView::Running { .. } => true,
    }
}

/// A candidate that survives the typing of `c`: one that starts with `c`,
/// which is then stripped from it.
pub open spec fn survivor(c: char, candidate: Seq<char>) -> Option<Seq<char>> {
    if candidate.len() > 0 && candidate[0] == c {
        Some(candidate.drop_first())
    } else {
        None
    }
}

/// The candidates left after `c` has been typed, in their order.
pub open spec fn refined(candidates: Seq<Seq<char>>, c: char) -> Seq<Seq<char>> {
    candidates.filter_map(|s: Seq<char>| survivor(c, s))
}

/// Typing `c`: into the command at the cursor, or at the end of the last
/// input line.
pub open spec fn typed(s: StateView, c: char) -> StateView {
    match s {
        StateView::Idle { buffer, cursor, completions } => StateView::Idle {
            buffer: buffer.insert(cursor as int, c),
            cursor: cursor + 1,
            completions: match completions {
                Some(candidates) => Some(refined(candidates, c)),
                None => None,
            },
        },
        StateView::Running { prepare, lines } => StateView::Running {
            prepare,
            lines: if lines.len() == 0 {
                seq![seq![c]]
            } else {
                lines.drop_last().push(lines.last().push(c))
            },
        },
    }
}

/// Backspace: the character before the cursor goes, with the completions;
/// or the last character of the last input line goes, and the line with it
/// once it is empty.
pub open spec fn deleted(s: StateView) -> StateView {
    match s {
        StateView::Idle { buffer, cursor, completions } => if cursor == 0 {
            s
        } else {
            StateView::Idle {
                buffer: buffer.remove(cursor - 1),
                cursor: (cursor - 1) as nat,
                completions: None,
            }
        },
        StateView::Running { prepare, lines } => if lines.len() == 0 {
            s
        } else if lines.last().len() <= 1 {
            StateView::Running { prepare, lines: lines.drop_last() }
        } else {
            StateView::Running { prepare, lines: lines.drop_last().push(lines.last().drop_last()) }
        },
    }
}

/// Left: the cursor moves back by one unless it is at the start; the
/// completions are dropped in any case.
pub open spec fn moved_left(s: StateView) -> StateView {
    match s {
        StateView::Idle { buffer, cursor, .. } => StateView::Idle {
            buffer,
            cursor: if cursor == 0 {
                0
            } else {
                (cursor - 1) as nat
            },
            completions: None,
        },
        StateView::Running { .. } => s,
    }
}

/// Right: the cursor moves forward by one unless it is at the end.
pub open spec fn moved_right(s: StateView) -> StateView {
    match s {
        StateView::Idle { buffer, cursor, completions } => if cursor >= buffer.len() {
            s
        } else {
            StateView::Idle { buffer, cursor: cursor + 1, completions }
        },
        StateView::Running { .. } => s,
    }
}

/// Up: the command of the last history entry replaces the command text, with
/// the cursor at its end; completions of the replaced text are dropped.
pub open spec fn recalled(s: StateView, history: Seq<OutputView>) -> StateView {
    match s {
        StateView::Idle { .. } => if history.len() == 0 {
            s
        } else {
            StateView::Idle {
                buffer: history.last().command,
                cursor: history.last().command.len(),
                completions: None,
            }
        },
        StateView::Running { .. } => s,
    }
}

/// Enter while a command collects input: a new, empty line starts.
pub open spec fn new_line(s: StateView) -> StateView {
    match s {
        StateView::Idle { .. } => s,
        StateView::Running { prepare, lines } => StateView::Running {
            prepare,
            lines: lines.push(Seq::empty()),
        },
    }
}

/// Whether Tab asks for completions: while typing, with the cursor at the end
/// and no completions on offer.
pub open spec fn wants_completion(s: StateView) -> bool {
    match s {
        StateView::Idle { buffer, cursor, completions } => cursor == buffer.len()
            && completions is None,
        StateView::Running { .. } => false,
    }
}

/// The result of a completion applied: the fixed suffix is appended, the
/// cursor goes to the end, and the candidates are offered.
pub open spec fn completed(s: StateView, fixed: Seq<char>, candidates: Seq<Seq<char>>) -> StateView {
    match s {
        StateView::Idle { buffer, .. } => StateView::Idle {
            buffer: buffer + fixed,
            cursor: (buffer + fixed).len(),
            completions: Some(candidates),
        },
        StateView::Running { .. } => s,
    }
}

/// Appending a candidate extends the refined candidates by its survivor,
/// if it has one.
pub(crate) proof fn lemma_refined_push(candidates: Seq<Seq<char>>, candidate: Seq<char>, c: char)
    ensures
        refined(candidates.push(candidate), c) == refined(candidates, c) + match survivor(
            c,
            candidate,
        ) {
            Some(t) => seq![t],
            None => Seq::empty(),
        },
{
    assert(candidates.push(candidate).drop_last() =~= candidates);
    assert(candidates.push(candidate).last() == candidate);
}

/// The lines that show the input state under the prompt `prompt`: the command
/// being typed and the suggestions on offer, or the running command and the
/// input lines collected so far.
pub open spec fn state_lines(s: StateView, prompt: Seq<char>) -> Seq<Seq<SpanView>> {
    match s {
        StateView::Idle { buffer, cursor, completions } => seq![typing_line(prompt, buffer, cursor)]
            + match completions {
            Some(candidates) => suggestion_lines(buffer, candidates),
            None => Seq::empty(),
        },
        StateView::Running { prepare, lines } => seq![command_line(prompt, prepare.command)]
            + styled_lines(lines, Style::Plain),
    }
}

/// The whole screen: the history, then the input state.
pub open spec fn screen(history: Seq<OutputView>, s: StateView, prompt: Seq<char>) -> Seq<
    Seq<SpanView>,
> {
    history_lines(history) + state_lines(s, prompt)
}

/// What a key event does to a session.
pub enum Effect {
    /// The session takes the given content at once and the loop is told the
    /// given directive; the executor is not called.
    Settle(AppView, NextView),
    /// The executor is asked for completions of the command text.
    Complete,
    /// The command text and the collected input lines are handed to the
    /// executor.
    Finalize(Seq<char>, Option<Seq<Seq<char>>>),
}

/// The effect of the key event `k` on a session with content `v`, whose
/// executor is `exec`.
pub open spec fn effect<T: Execute>(exec: T, v: AppView, k: KeyEvent) -> Effect {
    let s = v.state;
    let h = v.history;
    match action_of(k) {
        Action::Ignore => Effect::Settle(v, NextView::Continue),
        Action::ClearHistory => Effect::Settle(
            AppView { state: s, history: Seq::empty() },
            NextView::Continue,
        ),
        Action::Interrupt => match s {
            StateView::Idle { .. } => Effect::Settle(v, NextView::Exit(Seq::empty())),
            StateView::Running { prepare, lines } => Effect::Finalize(prepare.command, Some(lines)),
        },
        Action::Left => Effect::Settle(
            AppView { state: moved_left(s), history: h },
            NextView::Continue,
        ),
        Action::Right => Effect::Settle(
            AppView { state: moved_right(s), history: h },
            NextView::Continue,
        ),
        Action::Complete => if wants_completion(s) {
            Effect::Complete
        } else {
            Effect::Settle(v, NextView::Continue)
        },
        Action::Insert(c) => Effect::Settle(
            AppView { state: typed(s, c), history: h },
            NextView::Continue,
        ),
        Action::Backspace => Effect::Settle(
            AppView { state: deleted(s), history: h },
            NextView::Continue,
        ),
        Action::Submit => match s {
            StateView::Idle { buffer, .. } => {
                let p = exec.prepare_spec(buffer);
                if p.stdin_required {
                    Effect::Settle(
                        AppView {
                            state: StateView::Running { prepare: p, lines: Seq::empty() },
                            history: h,
                        },
                        NextView::Continue,
                    )
                } else {
                    Effect::Finalize(buffer, None)
                }
            },
            StateView::Running { .. } => Effect::Settle(
                AppView { state: new_line(s), history: h },
                NextView::Continue,
            ),
        },
        Action::Recall => Effect::Settle(
            AppView { state: recalled(s, h), history: h },
            NextView::Continue,
        ),
    }
}

/// The session after the executor returned `action`: back to the initial
/// state, with the output appended to the history, or the history cleared.
pub open spec fn applied(history: Seq<OutputView>, action: OutputAction) -> AppView {
    match action {
        OutputAction::Command(output) => AppView {
            state: initial_state(),
            history: history.push(output@),
        },
        OutputAction::Exit => AppView { state: initial_state(), history },
        OutputAction::Clear => AppView { state: initial_state(), history: Seq::empty() },
    }
}

/// The directive that follows the executor's `action`.
pub open spec fn directive(action: OutputAction) -> NextView {
    match action {
        OutputAction::Command(_) => NextView::Continue,
        OutputAction::Exit => NextView::Exit(Seq::empty()),
        OutputAction::Clear => NextView::Clear,
    }
}

/// The input handed to the executor for `command` and `stdin` in context
/// `ctx`.
pub open spec fn input_for<T: Execute>(
    exec: T,
    ctx: T::Context,
    command: Seq<char>,
    stdin: Option<Seq<Seq<char>>>,
) -> InputView {
    InputView { prompt: exec.prompt_spec(&ctx), command, stdin }
}

/// One way a command can finish: the executor, in context `before`, was
/// handed `handed`, which holds `input_for(command, stdin)` and a clone of
/// the session's task host `runtime`; it left context `after` and returned
/// `outcome`. On success the session went from `v` to `w` by `applied` and
/// the loop is told the `directive`; on failure the session is unchanged and
/// the failure is returned as it is.
pub open spec fn settles<T: Execute>(
    exec: T,
    before: T::Context,
    runtime: std::sync::Arc<tokio::runtime::Runtime>,
    v: AppView,
    command: Seq<char>,
    stdin: Option<Seq<Seq<char>>>,
    handed: CommandInput,
    outcome: Result<OutputAction, anyhow::Error>,
    after: T::Context,
    w: AppView,
    r: Result<Next, anyhow::Error>,
) -> bool {
    &&& handed@ == input_for(exec, before, command, stdin)
    &&& cloned(runtime, handed.runtime)
    &&& exec.execute_spec(before, handed, after, outcome)
    &&& match outcome {
        Ok(action) => w == applied(v.history, action) && r is Ok && r->Ok_0@ == directive(
            action,
        ),
        Err(e) => w == v && r == Err::<Next, anyhow::Error>(e),
    }
}

/// A command finished in some way that `settles` allows.
pub open spec fn finalized<T: Execute>(
    exec: T,
    before: T::Context,
    runtime: std::sync::Arc<tokio::runtime::Runtime>,
    v: AppView,
    command: Seq<char>,
    stdin: Option<Seq<Seq<char>>>,
    after: T::Context,
    w: AppView,
    r: Result<Next, anyhow::Error>,
) -> bool {
    exists|handed: CommandInput, outcome: Result<OutputAction, anyhow::Error>|
        #[trigger] settles(exec, before, runtime, v, command, stdin, handed, outcome, after, w, r)
}

/// A completion request ended in a way the engine allows: on success the
/// fixed suffix and the candidates that the executor returned were applied by
/// `completed` (with the default completion, both are empty); on failure the
/// session is unchanged and the failure is returned.
pub open spec fn completion_applied<T: Execute>(
    exec: T,
    v: AppView,
    w: AppView,
    r: Result<Next, anyhow::Error>,
) -> bool {
    match r {
        Ok(n) => n@ == NextView::Continue && w.history == v.history && exists|
            fixed: Seq<char>,
            candidates: Seq<Seq<char>>,
        |
            #![trigger completed(v.state, fixed, candidates)]
            w.state == completed(v.state, fixed, candidates) && (!exec.custom_completion() ==> (
            fixed == Seq::<char>::empty() && candidates == Seq::<Seq<char>>::empty())),
        Err(_) => w == v,
    }
}

/// The candidates that survive the typing of `c`, stripped of it.
fn refine(candidates: &Vec<String>, c: char) -> (r: Vec<String>)
    ensures
        r.deep_view() == refined(candidates.deep_view(), c),
{
    let ghost all = candidates.deep_view();
    let mut r: Vec<String> = Vec::new();
    let mut i: usize = 0;
    while i < candidates.len()
        invariant
            i <= candidates.len(),
            all == candidates.deep_view(),
            r.deep_view() == refined(all.take(i as int), c),
        decreases candidates.len() - i,
    {
        let candidate = &candidates[i];
        proof {
            assert(all.take(i + 1) =~= all.take(i as int).push(candidate@));
            lemma_refined_push(all.take(i as int), candidate@, c);
        }
        let ghost before = r.deep_view();
        if char_len(candidate.as_str()) > 0 && candidate.as_str().get_char(0) == c {
            r.push(skip_chars(candidate.as_str(), 1));
            assert(candidate@.skip(1) =~= candidate@.drop_first());
            assert(r.deep_view() =~= before + seq![candidate@.drop_first()]);
        } else {
            assert(before + Seq::<Seq<char>>::empty() =~= before);
        }
        i = i + 1;
    }
    assert(all.take(i as int) =~= all);
    r
}

/// An interactive shell session around the executor `T`.
pub struct App<T: Execute> {
    /// The executor that runs the commands.
    executor: T,
    /// The executor's own state.
    context: T::Context,
    /// The state of the input line.
    state: State,
    /// The task host handed to every execution.
    runtime: std::sync::Arc<tokio::runtime::Runtime>,
    /// The finished commands, oldest first.
    history: Vec<CommandOutput>,
}

impl<T: Execute> View for App<T> {
    type V = AppView;

    closed spec fn view(&self) -> AppView {
        AppView { state: self.state@, history: self.history@.map_values(|o: CommandOutput| o@) }
    }
}

impl<T: Execute> App<T> {
    /// The executor of the session.
    pub closed spec fn executor_spec(&self) -> T {
        self.executor
    }

    /// The executor's context.
    pub closed spec fn context_spec(&self) -> T::Context {
        self.context
    }

    /// The shared task host of the session.
    pub closed spec fn runtime_spec(&self) -> std::sync::Arc<tokio::runtime::Runtime> {
        self.runtime
    }

    /// A session with executor `T` built by [`New`], on the task host `rt`:
    /// it holds the executor and context that `New::new` built, or the
    /// failure of `New::new` is returned.
    pub fn new(rt: tokio::runtime::Runtime) -> (r: Result<Self, anyhow::Error>) where T: New
        ensures
            exists|built: Result<(T, T::Context), anyhow::Error>|
                #![trigger T::new_spec(built)]
                T::new_spec(built) && match built {
                    Ok((executor, context)) => {
                        &&& r is Ok
                        &&& r->Ok_0@ == (AppView { state: initial_state(), history: Seq::empty() })
                        &&& r->Ok_0.executor_spec() == executor
                        &&& r->Ok_0.context_spec() == context
                    },
                    Err(e) => r == Err::<Self, anyhow::Error>(e),
                },
    {
        let built = T::new();
        let ghost b = built;
        match built {
            Ok((executor, context)) => {
                let app = Self::new_with_executor(rt, executor, context);
                assert(T::new_spec(b));
                Ok(app)
            },
            Err(e) => Err(e),
        }
    }

    /// A session with the given executor and context, on the task host `rt`.
    pub fn new_with_executor(rt: tokio::runtime::Runtime, executor: T, context: T::Context) -> (r:
        Self)
        ensures
            r@ == (AppView { state: initial_state(), history: Seq::empty() }),
            r.executor_spec() == executor,
            r.context_spec() == context,
    {
        let r = App {
            executor,
            context,
            state: State::Idle(String::new(), 0, None),
            runtime: std::sync::Arc::new(rt),
            history: Vec::new(),
        };
        assert(r@.history =~= Seq::<OutputView>::empty());
        r
    }

    /// The state of the input line.
    pub fn state(&self) -> (r: &State)
        ensures
            r@ == self@.state,
    {
        &self.state
    }

    /// The finished commands, oldest first.
    pub fn history(&self) -> (r: &Vec<CommandOutput>)
        ensures
            r@.map_values(|o: CommandOutput| o@) == self@.history,
    {
        &self.history
    }

    /// The lines to display: the history, then the input state.
    pub fn render(&self) -> (r: Vec<Line>)
        requires
            cursor_in_bounds(self@.state),
        ensures
            r.deep_view() == screen(
                self@.history,
                self@.state,
                self.executor_spec().prompt_spec(&self.context_spec()),
            ),
    {
        let prompt = self.executor.prompt(&self.context);
        let mut lines: Vec<Line> = Vec::new();
        push_history(&mut lines, &self.history);
        let ghost above = lines.deep_view();
        assert(above =~= history_lines(self@.history));
        match &self.state {
            State::Idle(buffer, cursor, completions) => {
                let line = render_typing(prompt.as_str(), buffer.as_str(), *cursor);
                lines.push(line);
                assert(lines.deep_view() =~= above + seq![
                    typing_line(prompt@, buffer@, *cursor as nat),
                ]);
                match completions {
                    Some(candidates) => {
                        push_suggestions(&mut lines, buffer.as_str(), candidates);
                    },
                    None => {},
                }
            },
            State::Running(prepare, stdin) => {
                let line = render_command(prompt.as_str(), prepare.command.as_str());
                lines.push(line);
                assert(lines.deep_view() =~= above + seq![
                    command_line(prompt@, prepare.command@),
                ]);
                push_styled(&mut lines, stdin, Style::Plain);
            },
        }
        assert(lines.deep_view() =~= screen(self@.history, self@.state, prompt@));
        lines
    }

    /// Handle one key event.
    ///
    /// Keys that only edit take effect at once. Tab may ask the executor for
    /// completions; Enter, and Ctrl+C or Ctrl+D while input is collected, may
    /// run a command. A failure of the executor is returned as it is.
    pub fn input(&mut self, event: KeyEvent) -> (r: Result<Next, anyhow::Error>)
        requires
            cursor_in_bounds(old(self)@.state),
        ensures
            cursor_in_bounds(final(self)@.state),
            final(self).executor_spec() == old(self).executor_spec(),
            final(self).runtime_spec() == old(self).runtime_spec(),
            match effect(old(self).executor_spec(), old(self)@, event) {
                Effect::Settle(w, n) => {
                    &&& final(self)@ == w
                    &&& final(self).context_spec() == old(self).context_spec()
                    &&& r is Ok && r->Ok_0@ == n
                },
                Effect::Complete => {
                    &&& final(self).context_spec() == old(self).context_spec()
                    &&& completion_applied(old(self).executor_spec(), old(self)@, final(self)@, r)
                },
                Effect::Finalize(command, stdin) => finalized(
                    old(self).executor_spec(),
                    old(self).context_spec(),
                    old(self).runtime_spec(),
                    old(self)@,
                    command,
                    stdin,
                    final(self).context_spec(),
                    final(self)@,
                    r,
                ),
            },
    {
        let running = match &self.state {
            State::Running(..) => true,
            State::Idle(..) => false,
        };
        match event.action() {
            Action::Ignore => Ok(Next::Continue),
            Action::ClearHistory => {
                self.history.clear();
                assert(self@.history =~= Seq::<OutputView>::empty());
                Ok(Next::Continue)
            },
            Action::Interrupt => if running {
                self.continue_execution()
            } else {
                Ok(Next::Exit(String::new()))
            },
            Action::Left => {
                self.move_cursor_left();
                Ok(Next::Continue)
            },
            Action::Right => {
                self.move_cursor_right();
                Ok(Next::Continue)
            },
            Action::Complete => {
                let wants = match &self.state {
                    State::Idle(buffer, cursor, None) => *cursor == char_len(buffer.as_str()),
                    _ => false,
                };
                if wants {
                    match self.complete() {
                        Ok(()) => Ok(Next::Continue),
                        Err(e) => Err(e),
                    }
                } else {
                    Ok(Next::Continue)
                }
            },
            Action::Insert(c) => {
                self.type_char(c);
                Ok(Next::Continue)
            },
            Action::Backspace => {
                self.cursor_backspace();
                Ok(Next::Continue)
            },
            Action::Submit => if running {
                self.push_line();
                Ok(Next::Continue)
            } else {
                self.execute_command()
            },
            Action::Recall => {
                self.recall();
                Ok(Next::Continue)
            },
        }
    }

    /// Whether `other` has the executor, context and task host of `self`.
    closed spec fn same_host(&self, other: &Self) -> bool {
        &&& self.executor == other.executor
        &&& self.context == other.context
        &&& self.runtime == other.runtime
    }

    /// Sets the input state to `s`, keeping everything else.
    fn set_state(&mut self, s: State)
        ensures
            final(self)@ == (AppView { state: s@, history: old(self)@.history }),
            final(self).same_host(old(self)),
    {
        self.state = s;
    }

    /// Takes the input state out, leaving the initial one.
    fn take_state(&mut self) -> (s: State)
        ensures
            s == old(self).state,
            final(self)@ == (AppView { state: initial_state(), history: old(self)@.history }),
            final(self).same_host(old(self)),
    {
        let mut s = State::Idle(String::new(), 0, None);
        std::mem::swap(&mut s, &mut self.state);
        assert(self.state@ == initial_state());
        s
    }

    /// Type `c`.
    fn type_char(&mut self, c: char)
        requires
            cursor_in_bounds(old(self)@.state),
        ensures
            final(self)@ == (AppView { state: typed(old(self)@.state, c), history: old(self)@.history }),
            final(self).same_host(old(self)),
    {
        let s = self.take_state();
        let s = match s {
            State::Idle(buffer, cursor, completions) => {
                let buffer = insert_char(buffer.as_str(), cursor, c);
                let _ = char_len(buffer.as_str());
                let completions = match completions {
                    Some(candidates) => Some(refine(&candidates, c)),
                    None => None,
                };
                State::Idle(buffer, cursor + 1, completions)
            },
            State::Running(prepare, mut lines) => {
                let ghost before = lines.deep_view();
                match lines.pop() {
                    None => {
                        lines.push(char_string(c));
                        assert(lines.deep_view() =~= seq![seq![c]]);
                    },
                    Some(mut line) => {
                        line.push(c);
                        lines.push(line);
                        assert(lines.deep_view() =~= before.drop_last().push(
                            before.last().push(c),
                        ));
                    },
                }
                State::Running(prepare, lines)
            },
        };
        self.set_state(s);
    }

    /// Delete the character before the cursor, or the last character of the
    /// last input line.
    fn cursor_backspace(&mut self)
        requires
            cursor_in_bounds(old(self)@.state),
        ensures
            final(self)@ == (AppView { state: deleted(old(self)@.state), history: old(self)@.history }),
            final(self).same_host(old(self)),
    {
        let s = self.take_state();
        let s = match s {
            State::Idle(buffer, cursor, completions) => if cursor == 0 {
                State::Idle(buffer, cursor, completions)
            } else {
                State::Idle(remove_char(buffer.as_str(), cursor - 1), cursor - 1, None)
            },
            State::Running(prepare, mut lines) => {
                let ghost before = lines.deep_view();
                match lines.pop() {
                    None => {
                        assert(lines.deep_view() =~= before);
                    },
                    Some(line) => {
                        let n = char_len(line.as_str());
                        if n > 1 {
                            lines.push(remove_char(line.as_str(), n - 1));
                            assert(lines.deep_view() =~= before.drop_last().push(
                                before.last().drop_last(),
                            ));
                        } else {
                            assert(lines.deep_view() =~= before.drop_last());
                        }
                    },
                }
                State::Running(prepare, lines)
            },
        };
        self.set_state(s);
    }

    /// Start a new, empty input line.
    fn push_line(&mut self)
        ensures
            final(self)@ == (AppView { state: new_line(old(self)@.state), history: old(self)@.history }),
            final(self).same_host(old(self)),
    {
        let s = self.take_state();
        let s = match s {
            State::Idle(buffer, cursor, completions) => State::Idle(buffer, cursor, completions),
            State::Running(prepare, mut lines) => {
                let ghost before = lines.deep_view();
                lines.push(String::new());
                assert(lines.deep_view() =~= before.push(Seq::empty()));
                State::Running(prepare, lines)
            },
        };
        self.set_state(s);
    }

    /// Replace the command text with the last command of the history.
    fn recall(&mut self)
        ensures
            final(self)@ == (AppView { state: recalled(old(self)@.state, old(self)@.history), history: old(self)@.history }),
            final(self).same_host(old(self)),
    {
        let n = self.history.len();
        if n == 0 {
            return;
        }
        let last = self.history[n - 1].command.clone();
        assert(last@ == self@.history.last().command);
        let s = self.take_state();
        let s = match s {
            State::Idle(..) => {
                let len = char_len(last.as_str());
                State::Idle(last, len, None)
            },
            State::Running(prepare, lines) => State::Running(prepare, lines),
        };
        self.set_state(s);
    }

    /// Ask the executor for completions of the command text and apply them.
    fn complete(&mut self) -> (r: Result<(), anyhow::Error>)
        requires
            old(self)@.state is Idle,
        ensures
            match r {
                Ok(_) => final(self)@.history == old(self)@.history && exists|
                    fixed: Seq<char>,
                    candidates: Seq<Seq<char>>,
                |
                    #![trigger completed(old(self)@.state, fixed, candidates)]
                    final(self)@.state == completed(old(self)@.state, fixed, candidates) && (
                    !old(self).executor.custom_completion() ==> (fixed == Seq::<char>::empty()
                        && candidates == Seq::<Seq<char>>::empty())),
                Err(_) => final(self)@ == old(self)@,
            },
            final(self).same_host(old(self)),
    {
        let buffer = match &self.state {
            State::Idle(buffer, _, _) => buffer.clone(),
            State::Running(..) => {
                return Ok(());
            },
        };
        match self.executor.completion(&self.context, buffer.as_str()) {
            Ok((fixed, candidates)) => {
                let ghost cands = candidates.deep_view();
                proof {
                    if !self.executor.custom_completion() {
                        assert(fixed@ =~= Seq::<char>::empty());
                        assert(cands =~= Seq::<Seq<char>>::empty());
                    }
                }
                self.apply_completion(fixed.as_str(), candidates);
                assert(self@.state == completed(old(self)@.state, fixed@, cands));
                Ok(())
            },
            Err(e) => Err(e),
        }
    }

    /// Apply a completion: append `fixed` to the command text, put the cursor
    /// at the end, and offer `candidates`.
    fn apply_completion(&mut self, fixed: &str, candidates: Vec<String>)
        requires
            old(self)@.state is Idle,
        ensures
            final(self)@ == (AppView {
                state: completed(old(self)@.state, fixed@, candidates.deep_view()),
                history: old(self)@.history,
            }),
            final(self).same_host(old(self)),
    {
        let ghost cands = candidates.deep_view();
        let s = self.take_state();
        let s = match s {
            State::Idle(buffer, _, _) => {
                let mut buffer = buffer;
                buffer.append(fixed);
                let len = char_len(buffer.as_str());
                State::Idle(buffer, len, Some(candidates))
            },
            State::Running(prepare, lines) => State::Running(prepare, lines),
        };
        self.set_state(s);
        assert(self@.state == completed(old(self)@.state, fixed@, cands));
    }

    /// Carry out what the executor returned.
    fn apply_output(&mut self, action: OutputAction) -> (n: Next)
        ensures
            final(self)@ == applied(old(self)@.history, action),
            n@ == directive(action),
            final(self).same_host(old(self)),
    {
        let ghost history = self@.history;
        self.set_state(State::Idle(String::new(), 0, None));
        match action {
            OutputAction::Command(output) => {
                let ghost o = output@;
                self.history.push(output);
                assert(self@.history =~= history.push(o));
                Next::Continue
            },
            OutputAction::Exit => Next::Exit(String::new()),
            OutputAction::Clear => {
                self.history.clear();
                assert(self@.history =~= Seq::<OutputView>::empty());
                Next::Clear
            },
        }
    }

    /// Hand `cmd` and `stdin` to the executor and carry out its result.
    fn final_execution(&mut self, cmd: &str, stdin: Option<Vec<String>>) -> (r: Result<
        Next,
        anyhow::Error,
    >)
        ensures
            finalized(
                old(self).executor,
                old(self).context,
                old(self).runtime,
                old(self)@,
                cmd@,
                lines_of(stdin),
                final(self).context,
                final(self)@,
                r,
            ),
            final(self).executor == old(self).executor,
            final(self).runtime == old(self).runtime,
    {
        let prompt = self.executor.prompt(&self.context);
        let runtime = self.runtime.clone();
        let input = CommandInput { prompt, command: String::from_str(cmd), stdin, runtime };
        let ghost handed = input;
        let out = self.executor.execute(&mut self.context, input);
        let ghost outcome = out;
        let ghost after = self.context;
        match out {
            Ok(action) => {
                let n = self.apply_output(action);
                assert(settles(
                    old(self).executor,
                    old(self).context,
                    old(self).runtime,
                    old(self)@,
                    cmd@,
                    lines_of(stdin),
                    handed,
                    outcome,
                    after,
                    self@,
                    Ok::<Next, anyhow::Error>(n),
                ));
                Ok(n)
            },
            Err(e) => {
                assert(settles(
                    old(self).executor,
                    old(self).context,
                    old(self).runtime,
                    old(self)@,
                    cmd@,
                    lines_of(stdin),
                    handed,
                    outcome,
                    after,
                    self@,
                    Err::<Next, anyhow::Error>(e),
                ));
                Err(e)
            },
        }
    }

    /// Finish collecting input and run the command; while typing, do
    /// nothing.
    fn continue_execution(&mut self) -> (r: Result<Next, anyhow::Error>)
        ensures
            match old(self)@.state {
                StateView::Running { prepare, lines } => finalized(
                    old(self).executor,
                    old(self).context,
                    old(self).runtime,
                    old(self)@,
                    prepare.command,
                    Some(lines),
                    final(self).context,
                    final(self)@,
                    r,
                ),
                StateView::Idle { .. } => {
                    &&& final(self)@ == old(self)@
                    &&& final(self).same_host(old(self))
                    &&& r is Ok && r->Ok_0@ == NextView::Continue
                },
            },
            final(self).executor == old(self).executor,
            final(self).runtime == old(self).runtime,
    {
        let (command, lines) = match &self.state {
            State::Running(prepare, lines) => (prepare.command.clone(), lines.clone()),
            State::Idle(..) => {
                return Ok(Next::Continue);
            },
        };
        assert(lines.deep_view() =~= old(self)@.state->Running_lines);
        self.final_execution(command.as_str(), Some(lines))
    }

    /// Submit the command text: run it, or start collecting its input; while
    /// a command collects input, do nothing.
    fn execute_command(&mut self) -> (r: Result<Next, anyhow::Error>)
        ensures
            old(self)@.state is Running ==> {
                &&& final(self)@ == old(self)@
                &&& final(self).same_host(old(self))
                &&& r is Ok && r->Ok_0@ == NextView::Continue
            },
            old(self)@.state is Idle ==> ({
                let buffer = old(self)@.state->Idle_buffer;
                let p = old(self).executor.prepare_spec(buffer);
                if p.stdin_required {
                    &&& final(self)@ == (AppView {
                        state: StateView::Running { prepare: p, lines: Seq::empty() },
                        history: old(self)@.history,
                    })
                    &&& final(self).same_host(old(self))
                    &&& r is Ok && r->Ok_0@ == NextView::Continue
                } else {
                    finalized(
                        old(self).executor,
                        old(self).context,
                        old(self).runtime,
                        old(self)@,
                        buffer,
                        None,
                        final(self).context,
                        final(self)@,
                        r,
                    )
                }
            }),
            final(self).executor == old(self).executor,
            final(self).runtime == old(self).runtime,
    {
        let cmd = match &self.state {
            State::Idle(buffer, _, _) => buffer.clone(),
            State::Running(..) => {
                return Ok(Next::Continue);
            },
        };
        let prepare = self.executor.prepare(cmd.as_str());
        if prepare.stdin_required {
            self.set_state(State::Running(prepare, Vec::new()));
            assert(self@.state->Running_lines =~= Seq::<Seq<char>>::empty());
            Ok(Next::Continue)
        } else {
            self.final_execution(cmd.as_str(), None)
        }
    }

    /// Move the cursor to the left by one.
    fn move_cursor_left(&mut self)
        ensures
            final(self)@ == (AppView { state: moved_left(old(self)@.state), history: old(self)@.history }),
            final(self).same_host(old(self)),
    {
        let s = self.take_state();
        let s = match s {
            State::Idle(buffer, cursor, _) => if cursor == 0 {
                State::Idle(buffer, cursor, None)
            } else {
                State::Idle(buffer, cursor - 1, None)
            },
            State::Running(prepare, lines) => State::Running(prepare, lines),
        };
        self.set_state(s);
    }

    /// Move the cursor to the right by one.
    fn move_cursor_right(&mut self)
        requires
            cursor_in_bounds(old(self)@.state),
        ensures
            final(self)@ == (AppView { state: moved_right(old(self)@.state), history: old(self)@.history }),
            final(self).same_host(old(self)),
    {
        let s = self.take_state();
        let s = match s {
            State::Idle(buffer, cursor, completions) => {
                let len = char_len(buffer.as_str());
                if cursor >= len {
                    State::Idle(buffer, cursor, completions)
                } else {
                    State::Idle(buffer, cursor + 1, completions)
                }
            },
            State::Running(prepare, lines) => State::Running(prepare, lines),
        };
        self.set_state(s);
    }
}

} // verus!
