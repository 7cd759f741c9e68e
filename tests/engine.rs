use sheller::command::{CommandInput, CommandOutput, Execute, New, OutputAction, Prepare};
use sheller::display::{Line, Style};
use sheller::keys::{Action, KeyCode, KeyEvent, KeyKind, Modifiers};
use sheller::renderer::{App, Next, State};
use sheller::sample::echosh::Executor;

fn runtime() -> tokio::runtime::Runtime {
    tokio::runtime::Builder::new_current_thread().build().unwrap()
}

fn echo_app() -> App<Executor> {
    App::<Executor>::new(runtime()).unwrap()
}

fn press(code: KeyCode) -> KeyEvent {
    KeyEvent::new(code, Modifiers::Plain)
}

fn ctrl(c: char) -> KeyEvent {
    KeyEvent::new(KeyCode::Char(c), Modifiers::Control)
}

fn type_text<T: Execute>(app: &mut App<T>, text: &str) {
    for c in text.chars() {
        assert!(matches!(app.input(press(KeyCode::Char(c))), Ok(Next::Continue)));
    }
}

fn idle(app: &App<impl Execute>) -> (String, usize, Option<Vec<String>>) {
    match app.state() {
        State::Idle(buffer, cursor, completions) => (buffer.clone(), *cursor, completions.clone()),
        State::Running(..) => panic!("expected the idle state"),
    }
}

fn running(app: &App<impl Execute>) -> (String, bool, Vec<String>) {
    match app.state() {
        State::Running(prepare, lines) => {
            (prepare.command.clone(), prepare.stdin_required, lines.clone())
        }
        State::Idle(..) => panic!("expected the running state"),
    }
}

fn texts(line: &Line) -> Vec<(String, Style)> {
    line.spans.iter().map(|s| (s.text.clone(), s.style)).collect()
}

/// Reports in its output whether it was handed input lines, and which; `cat`
/// collects input, `bye` ends the session, `cls` clears, `boom` fails.
struct Probe;

impl Execute for Probe {
    type Context = ();

    fn prompt(&self, _ctx: &()) -> String {
        ">".to_string()
    }

    fn custom_completion(&self) -> bool {
        true
    }

    fn completion(&self, _ctx: &(), _cmd: &str) -> anyhow::Result<(String, Vec<String>)> {
        Ok(("it".to_string(), vec!["ab".to_string(), "ac".to_string(), "b".to_string(), String::new()]))
    }

    fn prepare(&self, cmd: &str) -> Prepare {
        Prepare { command: cmd.to_string(), stdin_required: cmd == "cat" }
    }

    fn execute(&self, _ctx: &mut (), input: CommandInput) -> anyhow::Result<OutputAction> {
        match input.command.as_str() {
            "bye" => Ok(OutputAction::Exit),
            "cls" => Ok(OutputAction::Clear),
            "boom" => Err(anyhow::Error::msg("failed")),
            _ => Ok(OutputAction::Command(CommandOutput {
                prompt: input.prompt,
                command: input.command,
                stdin: Vec::new(),
                stdout: vec![format!("{:?}", input.stdin)],
                stderr: vec!["warn".to_string()],
            })),
        }
    }
}

fn probe_app() -> App<Probe> {
    App::new_with_executor(runtime(), Probe, ())
}

#[test]
fn cat_collects_input_lines() {
    let mut app = echo_app();
    type_text(&mut app, "cat");
    assert!(matches!(app.input(press(KeyCode::Enter)), Ok(Next::Continue)));
    assert_eq!(running(&app), ("cat".to_string(), true, Vec::<String>::new()));
    app.input(press(KeyCode::Enter)).unwrap();
    app.input(press(KeyCode::Enter)).unwrap();
    type_text(&mut app, "hi");
    assert_eq!(running(&app).2, vec!["".to_string(), "hi".to_string()]);
    assert!(matches!(app.input(ctrl('d')), Ok(Next::Continue)));
    assert_eq!(app.history().len(), 1);
    assert_eq!(app.history()[0].command, "cat");
    assert_eq!(app.history()[0].stdin, vec!["".to_string(), "hi".to_string()]);
    assert_eq!(app.history()[0].stdout, vec!["cat".to_string()]);
    assert_eq!(idle(&app), (String::new(), 0, None));
}

#[test]
fn other_command_runs_at_once() {
    let mut app = echo_app();
    type_text(&mut app, "ls");
    assert!(matches!(app.input(press(KeyCode::Enter)), Ok(Next::Continue)));
    assert_eq!(app.history().len(), 1);
    let entry = &app.history()[0];
    assert_eq!(entry.prompt, "$");
    assert_eq!(entry.command, "ls");
    assert!(entry.stdin.is_empty());
    assert_eq!(entry.stdout, vec!["ls".to_string()]);
    assert!(entry.stderr.is_empty());
    assert_eq!(idle(&app), (String::new(), 0, None));
}

#[test]
fn tab_with_default_completion() {
    let mut app = echo_app();
    type_text(&mut app, "ls");
    assert!(matches!(app.input(press(KeyCode::Tab)), Ok(Next::Continue)));
    assert_eq!(idle(&app), ("ls".to_string(), 2, Some(Vec::new())));
}

#[test]
fn ctrl_l_clears_history() {
    let mut app = echo_app();
    type_text(&mut app, "ls");
    app.input(press(KeyCode::Enter)).unwrap();
    type_text(&mut app, "pw");
    app.input(press(KeyCode::Left)).unwrap();
    assert_eq!(app.history().len(), 1);
    assert!(matches!(app.input(ctrl('l')), Ok(Next::Continue)));
    assert!(app.history().is_empty());
    assert_eq!(idle(&app), ("pw".to_string(), 1, None));
}

#[test]
fn up_with_empty_history_does_nothing() {
    let mut app = echo_app();
    type_text(&mut app, "abc");
    app.input(press(KeyCode::Left)).unwrap();
    app.input(press(KeyCode::Up)).unwrap();
    assert_eq!(idle(&app), ("abc".to_string(), 2, None));
}

#[test]
fn cursor_stays_within_text() {
    let mut app = echo_app();
    app.input(press(KeyCode::Left)).unwrap();
    app.input(press(KeyCode::Backspace)).unwrap();
    app.input(press(KeyCode::Right)).unwrap();
    assert_eq!(idle(&app), (String::new(), 0, None));
    type_text(&mut app, "ac");
    app.input(press(KeyCode::Left)).unwrap();
    type_text(&mut app, "b");
    assert_eq!(idle(&app), ("abc".to_string(), 2, None));
    app.input(press(KeyCode::Right)).unwrap();
    app.input(press(KeyCode::Right)).unwrap();
    assert_eq!(idle(&app), ("abc".to_string(), 3, None));
    app.input(press(KeyCode::Left)).unwrap();
    app.input(press(KeyCode::Left)).unwrap();
    app.input(press(KeyCode::Backspace)).unwrap();
    assert_eq!(idle(&app), ("bc".to_string(), 0, None));
    app.input(press(KeyCode::Backspace)).unwrap();
    assert_eq!(idle(&app), ("bc".to_string(), 0, None));
}

#[test]
fn cursor_counts_characters_not_bytes() {
    let mut app = echo_app();
    type_text(&mut app, "héé");
    app.input(press(KeyCode::Left)).unwrap();
    app.input(press(KeyCode::Backspace)).unwrap();
    assert_eq!(idle(&app), ("hé".to_string(), 1, None));
    type_text(&mut app, "ü");
    assert_eq!(idle(&app), ("hüé".to_string(), 2, None));
}

#[test]
fn typing_refines_candidates() {
    let mut app = probe_app();
    type_text(&mut app, "ed");
    app.input(press(KeyCode::Tab)).unwrap();
    let expected: Vec<String> = vec!["ab".into(), "ac".into(), "b".into(), "".into()];
    assert_eq!(idle(&app), ("edit".to_string(), 4, Some(expected)));
    type_text(&mut app, "a");
    assert_eq!(idle(&app), ("edita".to_string(), 5, Some(vec!["b".to_string(), "c".to_string()])));
    type_text(&mut app, "c");
    assert_eq!(idle(&app), ("editac".to_string(), 6, Some(vec!["".to_string()])));
    type_text(&mut app, "x");
    assert_eq!(idle(&app), ("editacx".to_string(), 7, Some(Vec::new())));
}

#[test]
fn tab_needs_cursor_at_end_and_no_candidates() {
    let mut app = probe_app();
    type_text(&mut app, "ed");
    app.input(press(KeyCode::Left)).unwrap();
    app.input(press(KeyCode::Tab)).unwrap();
    assert_eq!(idle(&app), ("ed".to_string(), 1, None));
    app.input(press(KeyCode::Right)).unwrap();
    app.input(press(KeyCode::Tab)).unwrap();
    app.input(press(KeyCode::Tab)).unwrap();
    assert_eq!(idle(&app).0, "edit");
}

#[test]
fn left_and_backspace_drop_candidates() {
    let mut app = probe_app();
    app.input(press(KeyCode::Tab)).unwrap();
    assert!(idle(&app).2.is_some());
    app.input(press(KeyCode::Right)).unwrap();
    assert!(idle(&app).2.is_some());
    app.input(press(KeyCode::Left)).unwrap();
    assert_eq!(idle(&app).2, None);
    app.input(press(KeyCode::Tab)).unwrap();
    assert_eq!(idle(&app), ("it".to_string(), 1, None));
    app.input(press(KeyCode::Right)).unwrap();
    app.input(press(KeyCode::Tab)).unwrap();
    assert!(idle(&app).2.is_some());
    app.input(press(KeyCode::Backspace)).unwrap();
    assert_eq!(idle(&app), ("iti".to_string(), 3, None));
}

#[test]
fn submit_without_input_hands_no_lines() {
    let mut app = probe_app();
    type_text(&mut app, "ls");
    assert!(matches!(app.input(press(KeyCode::Enter)), Ok(Next::Continue)));
    assert_eq!(app.history()[0].stdout, vec!["None".to_string()]);
    assert_eq!(app.history()[0].prompt, ">");
}

#[test]
fn ctrl_l_twice_keeps_state_and_empty_history() {
    let mut app = echo_app();
    type_text(&mut app, "x");
    app.input(press(KeyCode::Enter)).unwrap();
    type_text(&mut app, "yz");
    app.input(ctrl('l')).unwrap();
    app.input(ctrl('l')).unwrap();
    assert!(app.history().is_empty());
    assert_eq!(idle(&app), ("yz".to_string(), 2, None));
}

#[test]
fn emptied_line_is_dropped_and_empty_input_handed_over() {
    let mut app = probe_app();
    type_text(&mut app, "cat");
    app.input(press(KeyCode::Enter)).unwrap();
    type_text(&mut app, "x");
    assert_eq!(running(&app).2, vec!["x".to_string()]);
    app.input(press(KeyCode::Backspace)).unwrap();
    assert_eq!(running(&app), ("cat".to_string(), true, Vec::<String>::new()));
    assert!(matches!(app.input(ctrl('d')), Ok(Next::Continue)));
    assert_eq!(app.history()[0].stdout, vec!["Some([])".to_string()]);
    assert_eq!(idle(&app), (String::new(), 0, None));
}

#[test]
fn backspace_while_collecting_input() {
    let mut app = echo_app();
    type_text(&mut app, "cat");
    app.input(press(KeyCode::Enter)).unwrap();
    app.input(press(KeyCode::Backspace)).unwrap();
    assert!(running(&app).2.is_empty());
    type_text(&mut app, "ab");
    app.input(press(KeyCode::Enter)).unwrap();
    app.input(press(KeyCode::Backspace)).unwrap();
    assert_eq!(running(&app).2, vec!["ab".to_string()]);
    app.input(press(KeyCode::Backspace)).unwrap();
    assert_eq!(running(&app).2, vec!["a".to_string()]);
    app.input(press(KeyCode::Left)).unwrap();
    app.input(press(KeyCode::Up)).unwrap();
    assert_eq!(running(&app).2, vec!["a".to_string()]);
}

#[test]
fn ctrl_c_while_idle_ends_session() {
    let mut app = echo_app();
    type_text(&mut app, "ls");
    match app.input(ctrl('c')) {
        Ok(Next::Exit(message)) => assert_eq!(message, ""),
        _ => panic!("expected the session to end"),
    }
    assert_eq!(idle(&app), ("ls".to_string(), 2, None));
    assert!(matches!(app.input(ctrl('d')), Ok(Next::Exit(_))));
}

#[test]
fn exit_and_clear_from_executor() {
    let mut app = probe_app();
    type_text(&mut app, "ls");
    app.input(press(KeyCode::Enter)).unwrap();
    assert_eq!(app.history().len(), 1);
    type_text(&mut app, "cls");
    assert!(matches!(app.input(press(KeyCode::Enter)), Ok(Next::Clear)));
    assert!(app.history().is_empty());
    assert_eq!(idle(&app), (String::new(), 0, None));
    type_text(&mut app, "bye");
    match app.input(press(KeyCode::Enter)) {
        Ok(Next::Exit(message)) => assert_eq!(message, ""),
        _ => panic!("expected the session to end"),
    }
    assert_eq!(idle(&app), (String::new(), 0, None));
}

#[test]
fn executor_failure_is_returned() {
    let mut app = probe_app();
    type_text(&mut app, "boom");
    assert!(app.input(press(KeyCode::Enter)).is_err());
    assert_eq!(idle(&app), ("boom".to_string(), 4, None));
    assert!(app.history().is_empty());
}

#[test]
fn up_recalls_last_command() {
    let mut app = echo_app();
    type_text(&mut app, "one");
    app.input(press(KeyCode::Enter)).unwrap();
    type_text(&mut app, "two");
    app.input(press(KeyCode::Enter)).unwrap();
    type_text(&mut app, "x");
    app.input(press(KeyCode::Up)).unwrap();
    assert_eq!(idle(&app), ("two".to_string(), 3, None));
}

#[test]
fn releases_and_unbound_keys_are_ignored() {
    let mut app = echo_app();
    let release = KeyEvent { code: KeyCode::Char('a'), modifiers: Modifiers::Plain, kind: KeyKind::Release };
    assert_eq!(release.action(), Action::Ignore);
    app.input(release).unwrap();
    app.input(KeyEvent::new(KeyCode::Char('a'), Modifiers::Other)).unwrap();
    app.input(press(KeyCode::Other)).unwrap();
    app.input(KeyEvent::new(KeyCode::Left, Modifiers::Shift)).unwrap();
    assert_eq!(idle(&app), (String::new(), 0, None));
    app.input(KeyEvent::new(KeyCode::Char('A'), Modifiers::Shift)).unwrap();
    let repeat = KeyEvent { code: KeyCode::Char('b'), modifiers: Modifiers::Plain, kind: KeyKind::Repeat };
    app.input(repeat).unwrap();
    assert_eq!(idle(&app), ("Ab".to_string(), 2, None));
}

#[test]
fn key_bindings() {
    assert_eq!(ctrl('l').action(), Action::ClearHistory);
    assert_eq!(ctrl('c').action(), Action::Interrupt);
    assert_eq!(ctrl('d').action(), Action::Interrupt);
    assert_eq!(ctrl('x').action(), Action::Ignore);
    assert_eq!(press(KeyCode::Char('l')).action(), Action::Insert('l'));
    assert_eq!(press(KeyCode::Tab).action(), Action::Complete);
    assert_eq!(press(KeyCode::Enter).action(), Action::Submit);
    assert_eq!(press(KeyCode::Up).action(), Action::Recall);
    assert_eq!(press(KeyCode::Backspace).action(), Action::Backspace);
    assert_eq!(press(KeyCode::Right).action(), Action::Right);
    assert_eq!(press(KeyCode::Left).action(), Action::Left);
}

#[test]
fn render_typing_with_cursor_inside() {
    let mut app = echo_app();
    type_text(&mut app, "abc");
    app.input(press(KeyCode::Left)).unwrap();
    app.input(press(KeyCode::Left)).unwrap();
    let lines = app.render();
    assert_eq!(lines.len(), 1);
    assert_eq!(
        texts(&lines[0]),
        vec![
            ("$".to_string(), Style::Prompt),
            (" ".to_string(), Style::Plain),
            ("a".to_string(), Style::Command),
            ("b".to_string(), Style::CursorChar),
            ("c".to_string(), Style::Command),
        ]
    );
}

#[test]
fn render_typing_with_cursor_at_end_and_suggestions() {
    let mut app = probe_app();
    type_text(&mut app, "ed");
    app.input(press(KeyCode::Tab)).unwrap();
    type_text(&mut app, "a");
    let lines = app.render();
    assert_eq!(lines.len(), 3);
    assert_eq!(
        texts(&lines[0]),
        vec![
            (">".to_string(), Style::Prompt),
            (" ".to_string(), Style::Plain),
            ("edita".to_string(), Style::Command),
            (" ".to_string(), Style::Cursor),
            ("".to_string(), Style::Plain),
        ]
    );
    assert_eq!(texts(&lines[1]), vec![("editab".to_string(), Style::Suggestion)]);
    assert_eq!(texts(&lines[2]), vec![("editac".to_string(), Style::Suggestion)]);
}

#[test]
fn render_history_and_running_command() {
    let mut app = probe_app();
    type_text(&mut app, "ls");
    app.input(press(KeyCode::Enter)).unwrap();
    type_text(&mut app, "cat");
    app.input(press(KeyCode::Enter)).unwrap();
    type_text(&mut app, "hi");
    app.input(press(KeyCode::Enter)).unwrap();
    let lines = app.render();
    let shown: Vec<Vec<(String, Style)>> = lines.iter().map(texts).collect();
    assert_eq!(
        shown,
        vec![
            vec![
                (">".to_string(), Style::Prompt),
                (" ".to_string(), Style::Plain),
                ("ls".to_string(), Style::Command),
            ],
            vec![("None".to_string(), Style::Plain)],
            vec![("warn".to_string(), Style::Error)],
            vec![
                (">".to_string(), Style::Prompt),
                (" ".to_string(), Style::Plain),
                ("cat".to_string(), Style::Command),
            ],
            vec![("hi".to_string(), Style::Plain)],
            vec![("".to_string(), Style::Plain)],
        ]
    );
}

#[test]
fn render_history_entry_order() {
    let entry = CommandOutput {
        prompt: "$".to_string(),
        command: "cmd".to_string(),
        stdin: vec!["in".to_string()],
        stdout: vec!["out1".to_string(), "out2".to_string()],
        stderr: vec!["err".to_string()],
    };
    let lines = sheller::display::render_history(&entry);
    let shown: Vec<Vec<(String, Style)>> = lines.iter().map(texts).collect();
    assert_eq!(
        shown,
        vec![
            vec![
                ("$".to_string(), Style::Prompt),
                (" ".to_string(), Style::Plain),
                ("cmd".to_string(), Style::Command),
            ],
            vec![("in".to_string(), Style::Plain)],
            vec![("out1".to_string(), Style::Plain)],
            vec![("out2".to_string(), Style::Plain)],
            vec![("err".to_string(), Style::Error)],
        ]
    );
}

#[test]
fn echo_executor_prepares_cat_only() {
    let e = Executor {};
    assert!(e.prepare("cat").stdin_required);
    assert!(!e.prepare("ca").stdin_required);
    assert!(!e.prepare("cats").stdin_required);
    assert!(!e.prepare("dog").stdin_required);
    assert_eq!(e.prepare("cat").command, "cat");
    let ctx = sheller::sample::echosh::Context {};
    assert_eq!(e.prompt(&ctx), "$");
}

#[test]
fn up_drops_candidates_of_replaced_text() {
    let mut app = probe_app();
    type_text(&mut app, "ls");
    app.input(press(KeyCode::Enter)).unwrap();
    app.input(press(KeyCode::Tab)).unwrap();
    assert!(idle(&app).2.is_some());
    app.input(press(KeyCode::Up)).unwrap();
    assert_eq!(idle(&app), ("ls".to_string(), 2, None));
}

#[test]
fn left_at_start_drops_candidates() {
    let mut app = echo_app();
    app.input(press(KeyCode::Tab)).unwrap();
    assert_eq!(idle(&app), (String::new(), 0, Some(Vec::new())));
    app.input(press(KeyCode::Left)).unwrap();
    assert_eq!(idle(&app), (String::new(), 0, None));
}

#[test]
fn echo_executor_builds() {
    assert!(<Executor as New>::new().is_ok());
}
