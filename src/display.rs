//! The projection of a session into display lines.
//!
//! Lines are made of spans of text, each with a style that a terminal front
//! end maps to colours.

use vstd::prelude::*;

use crate::command::{CommandOutput, OutputView};
use crate::text::{char_len, char_string, skip_chars};

verus! {

/// How a span of text is shown.
#[derive(Clone, Copy, Debug, PartialEq, Eq, Structural)]
pub enum Style {
    /// Unstyled text.
    Plain,
    /// The prompt.
    Prompt,
    /// The text of a command.
    Command,
    /// The cursor at the end of the command text.
    Cursor,
    /// The cursor over a character of the command text.
    CursorChar,
    /// Error output.
    Error,
    /// A completion suggestion.
    Suggestion,
}

/// A piece of text with one style.
pub struct Span {
    pub text: String,
    pub style: Style,
}

/// One display line.
pub struct Line {
    pub spans: Vec<Span>,
}

/// The content of a [`Span`].
pub struct SpanView {
    pub text: Seq<char>,
    pub style: Style,
}

impl DeepView for Span {
    type V = SpanView;

    open spec fn deep_view(&self) -> SpanView {
        SpanView { text: self.text@, style: self.style }
    }
}

impl DeepView for Line {
    type V = Seq<SpanView>;

    open spec fn deep_view(&self) -> Seq<SpanView> {
        self.spans.deep_view()
    }
}

/// A span of `text` in `style`.
pub open spec fn span(text: Seq<char>, style: Style) -> SpanView {
    SpanView { text, style }
}

/// One line per text, each a single span in `style`.
pub open spec fn styled_lines(texts: Seq<Seq<char>>, style: Style) -> Seq<Seq<SpanView>> {
    texts.map_values(|t: Seq<char>| seq![span(t, style)])
}

/// The line that shows a command after its prompt.
pub open spec fn command_line(prompt: Seq<char>, command: Seq<char>) -> Seq<SpanView> {
    seq![span(prompt, Style::Prompt), span(seq![' '], Style::Plain), span(command, Style::Command)]
}

/// The lines of one history entry: the command, then its input, its output
/// and its error output.
pub open spec fn entry_lines(o: OutputView) -> Seq<Seq<SpanView>> {
    seq![command_line(o.prompt, o.command)] + styled_lines(o.stdin, Style::Plain) + styled_lines(
        o.stdout,
        Style::Plain,
    ) + styled_lines(o.stderr, Style::Error)
}

/// The lines of the whole history, entry after entry.
pub open spec fn history_lines(history: Seq<OutputView>) -> Seq<Seq<SpanView>> {
    history.map_values(|o: OutputView| entry_lines(o)).flatten()
}

/// The line of a command being typed, with the cursor at `cursor`.
pub open spec fn typing_line(prompt: Seq<char>, buffer: Seq<char>, cursor: nat) -> Seq<SpanView> {
    seq![span(prompt, Style::Prompt), span(seq![' '], Style::Plain), span(buffer.take(cursor as int), Style::Command)]
        + if cursor < buffer.len() {
        seq![
            span(seq![buffer[cursor as int]], Style::CursorChar),
            span(buffer.skip(cursor + 1 as int), Style::Command),
        ]
    } else {
        seq![span(seq![' '], Style::Cursor), span(Seq::empty(), Style::Plain)]
    }
}

/// One suggestion line per candidate: the command text completed by it.
pub open spec fn suggestion_lines(buffer: Seq<char>, candidates: Seq<Seq<char>>) -> Seq<
    Seq<SpanView>,
> {
    candidates.map_values(|c: Seq<char>| seq![span(buffer + c, Style::Suggestion)])
}

/// Appends a line for each of `texts`, in `style`.
pub fn push_styled(out: &mut Vec<Line>, texts: &Vec<String>, style: Style)
    ensures
        final(out).deep_view() == old(out).deep_view() + styled_lines(texts.deep_view(), style),
{
    let ghost start = out.deep_view();
    let mut i: usize = 0;
    while i < texts.len()
        invariant
            i <= texts.len(),
            out.deep_view() == start + styled_lines(texts.deep_view().take(i as int), style),
        decreases texts.len() - i,
    {
        let ghost before = out.deep_view();
        let line = Line { spans: vec![Span { text: texts[i].clone(), style }] };
        assert(line.deep_view() =~= seq![span(texts[i as int]@, style)]);
        out.push(line);
        assert(styled_lines(texts.deep_view().take(i + 1), style) =~= styled_lines(
            texts.deep_view().take(i as int),
            style,
        ).push(seq![span(texts[i as int]@, style)]));
        assert(out.deep_view() =~= before.push(seq![span(texts[i as int]@, style)]));
        i = i + 1;
    }
    assert(texts.deep_view().take(i as int) =~= texts.deep_view());
}

/// The line that shows `command` after `prompt`.
pub fn render_command(prompt: &str, command: &str) -> (r: Line)
    ensures
        r.deep_view() == command_line(prompt@, command@),
{
    let r = Line {
        spans: vec![
            Span { text: String::from_str(prompt), style: Style::Prompt },
            Span { text: char_string(' '), style: Style::Plain },
            Span { text: String::from_str(command), style: Style::Command },
        ],
    };
    assert(r.deep_view() =~= command_line(prompt@, command@));
    r
}

/// The lines of one history entry.
pub fn render_history(history: &CommandOutput) -> (r: Vec<Line>)
    ensures
        r.deep_view() == entry_lines(history@),
{
    let mut lines = vec![render_command(history.prompt.as_str(), history.command.as_str())];
    assert(lines.deep_view() =~= seq![command_line(history.prompt@, history.command@)]);
    push_styled(&mut lines, &history.stdin, Style::Plain);
    push_styled(&mut lines, &history.stdout, Style::Plain);
    push_styled(&mut lines, &history.stderr, Style::Error);
    lines
}

/// Appends the lines of every entry of `history`.
pub fn push_history(out: &mut Vec<Line>, history: &Vec<CommandOutput>)
    ensures
        final(out).deep_view() == old(out).deep_view() + history_lines(
            history@.map_values(|o: CommandOutput| o@),
        ),
{
    let ghost start = out.deep_view();
    let ghost all = history@.map_values(|o: CommandOutput| o@);
    let mut i: usize = 0;
    while i < history.len()
        invariant
            i <= history.len(),
            all == history@.map_values(|o: CommandOutput| o@),
            out.deep_view() == start + history_lines(all.take(i as int)),
        decreases history.len() - i,
    {
        let ghost before = out.deep_view();
        let mut entry = render_history(&history[i]);
        let ghost lines = entry.deep_view();
        out.append(&mut entry);
        assert(out.deep_view() =~= before + lines);
        proof {
            let f = |o: OutputView| entry_lines(o);
            assert(all.take(i + 1) =~= all.take(i as int).push(all[i as int]));
            assert(all.take(i + 1).map_values(f) =~= all.take(i as int).map_values(f).push(
                entry_lines(all[i as int]),
            ));
            all.take(i as int).map_values(f).lemma_flatten_push(entry_lines(all[i as int]));
        }
        i = i + 1;
    }
    assert(all.take(i as int) =~= all);
}

/// The line of a command being typed, with the cursor at `cursor`.
pub fn render_typing(prompt: &str, buffer: &str, cursor: usize) -> (r: Line)
    requires
        cursor <= buffer@.len(),
    ensures
        r.deep_view() == typing_line(prompt@, buffer@, cursor as nat),
{
    let len = char_len(buffer);
    let left = String::from_str(buffer.substring_char(0, cursor));
    let (under, right) = if cursor < len {
        (
            Span { text: char_string(buffer.get_char(cursor)), style: Style::CursorChar },
            Span { text: skip_chars(buffer, cursor + 1), style: Style::Command },
        )
    } else {
        (
            Span { text: char_string(' '), style: Style::Cursor },
            Span { text: String::new(), style: Style::Plain },
        )
    };
    let r = Line {
        spans: vec![
            Span { text: String::from_str(prompt), style: Style::Prompt },
            Span { text: char_string(' '), style: Style::Plain },
            Span { text: left, style: Style::Command },
            under,
            right,
        ],
    };
    assert(buffer@.subrange(0, cursor as int) =~= buffer@.take(cursor as int));
    assert(r.deep_view() =~= typing_line(prompt@, buffer@, cursor as nat));
    r
}

/// Appends a suggestion line for each candidate.
pub fn push_suggestions(out: &mut Vec<Line>, buffer: &str, candidates: &Vec<String>)
    ensures
        final(out).deep_view() == old(out).deep_view() + suggestion_lines(
            buffer@,
            candidates.deep_view(),
        ),
{
    let ghost start = out.deep_view();
    let mut i: usize = 0;
    while i < candidates.len()
        invariant
            i <= candidates.len(),
            out.deep_view() == start + suggestion_lines(
                buffer@,
                candidates.deep_view().take(i as int),
            ),
        decreases candidates.len() - i,
    {
        let ghost before = out.deep_view();
        let text = String::from_str(buffer).concat(candidates[i].as_str());
        let line = Line { spans: vec![Span { text, style: Style::Suggestion }] };
        let ghost l = seq![span(buffer@ + candidates[i as int]@, Style::Suggestion)];
        assert(line.deep_view() =~= l);
        out.push(line);
        assert(suggestion_lines(buffer@, candidates.deep_view().take(i + 1)) =~= suggestion_lines(
            buffer@,
            candidates.deep_view().take(i as int),
        ).push(l));
        assert(out.deep_view() =~= before.push(l));
        i = i + 1;
    }
    assert(candidates.deep_view().take(i as int) =~= candidates.deep_view());
}

} // verus!
